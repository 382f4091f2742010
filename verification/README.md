# vmbus_proxy_task

The task that lets channels of a kernel-mode provider be served by a user-mode
channel server. The kernel's proxy driver offers and revokes channels; the server
opens, closes and drops them and registers guest memory (GPADLs) with them. The
task stands in between and remembers, of each channel, the handle by which the
server is told of a revocation, the worker that runs while the channel is open, and
the GPADLs that the driver still holds.

`src/` holds the decisions of the running task, verified with Verus. Nothing in it waits:
a step takes an event and names the next command.

- `table` - what the task remembers;
- `offer` - what the server is told of a channel that the driver offers;
- `driver` - the loop over the driver's actions;
- `intake` - the loop over the server's requests;
- `request` - the handler of one request;
- `worker`, `memory` - the name of a worker; how numbers lie in memory;
- `laws` - what holds over the whole run of a handler, or of the loop over the
  driver's actions, and over several runs; each law says what has to stay as it is
  in between;
- `system` - what holds while any number of handlers run beside one another;
- `vmgs_json` - the schema of guest state files.

`app/` performs the commands: it talks to the driver and to the server, starts the
workers, and reads and writes JSON.
