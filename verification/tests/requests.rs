use vmbus_proxy_task::driver::DriverEvent;
use vmbus_proxy_task::driver::DriverPhase;
use vmbus_proxy_task::intake::run_channel_requests;
use vmbus_proxy_task::intake::IntakeCommand;
use vmbus_proxy_task::intake::IntakeEvent;
use vmbus_proxy_task::offer::OfferEncoding;
use vmbus_proxy_task::request::ChannelRequest;
use vmbus_proxy_task::request::GpadlRequest;
use vmbus_proxy_task::request::OpenParameters;
use vmbus_proxy_task::request::OpenRequest;
use vmbus_proxy_task::request::Reply;
use vmbus_proxy_task::request::RequestCommand;
use vmbus_proxy_task::request::RequestEvent;
use vmbus_proxy_task::request::RequestPhase;
use vmbus_proxy_task::request::RequestStep;
use vmbus_proxy_task::table::ProxyTask;
use vmbus_proxy_task::worker::worker_name;

type Task = ProxyTask<u8, &'static str>;
type Step = RequestStep<&'static str>;

fn task_with_channels(ids: &[u64]) -> Task {
    let encoding = OfferEncoding {
        enumerate_device_interface: 1,
        named_pipe_mode: 0x10,
        request_monitored_notification: 0x400,
        pipe_type_byte: 0,
        pipe_type_message: 4,
    };
    let mut task = Task::new();
    for &id in ids {
        task.run_offers(&encoding, DriverPhase::Offering { id }, DriverEvent::Accepted(1));
    }
    task
}

fn run(command: RequestCommand<&'static str>, phase: RequestPhase) -> Step {
    RequestStep::Run { command, phase }
}

fn start(task: &mut Task, id: u64, request: Option<ChannelRequest>) -> Step {
    assert!(task.can_handle_request(id, &request));
    task.handle_request(id, request)
}

fn resume(task: &mut Task, id: u64, phase: RequestPhase, event: RequestEvent<&'static str>) -> Step {
    assert!(task.can_resume_request(id, &phase, &event));
    task.resume_request(id, phase, event)
}

fn open_request(event_backed: bool) -> Option<ChannelRequest> {
    Some(ChannelRequest::Open(OpenRequest {
        ring_gpadl_id: 11,
        ring_offset: 22,
        event_backed,
    }))
}

fn open(task: &mut Task, id: u64, worker: &'static str) {
    start(task, id, open_request(true));
    resume(task, id, RequestPhase::Opening, RequestEvent::Opened(true));
    let step = resume(task, id, RequestPhase::StartingWorker, RequestEvent::WorkerStarted(worker));
    assert_eq!(step, RequestStep::Finish(Some(Reply::Open(true))));
}

fn register(task: &mut Task, id: u64, gpadl_id: u32) {
    let phase = RequestPhase::CreatingGpadl { gpadl_id };
    let step = resume(task, id, phase, RequestEvent::GpadlCreated(true));
    assert_eq!(step, RequestStep::Finish(Some(Reply::Gpadl(true))));
}

#[test]
fn opening_asks_the_driver_and_starts_a_worker() {
    let mut task = task_with_channels(&[7]);
    let step = start(&mut task, 7, open_request(true));
    let parameters = OpenParameters {
        ring_buffer_gpadl_handle: 11,
        downstream_ring_buffer_page_offset: 22,
        node_number: 0,
    };
    assert_eq!(step, run(RequestCommand::Open { id: 7, parameters }, RequestPhase::Opening));
    let step = resume(&mut task, 7, RequestPhase::Opening, RequestEvent::Opened(true));
    let name = "vmbus proxy worker 7".to_string();
    assert_eq!(step, run(RequestCommand::StartWorker { id: 7, name }, RequestPhase::StartingWorker));
    assert!(!task.is_open(7));
    let event = RequestEvent::WorkerStarted("worker");
    let step = resume(&mut task, 7, RequestPhase::StartingWorker, event);
    assert_eq!(step, RequestStep::Finish(Some(Reply::Open(true))));
    assert!(task.is_open(7));
}

#[test]
fn opening_fails_without_an_event() {
    let mut task = task_with_channels(&[7]);
    let step = start(&mut task, 7, open_request(false));
    assert_eq!(step, RequestStep::Finish(Some(Reply::Open(false))));
    assert!(!task.is_open(7));
}

#[test]
fn opening_fails_where_the_driver_refuses() {
    let mut task = task_with_channels(&[7]);
    start(&mut task, 7, open_request(true));
    let step = resume(&mut task, 7, RequestPhase::Opening, RequestEvent::Opened(false));
    assert_eq!(step, RequestStep::Finish(Some(Reply::Open(false))));
    assert!(!task.is_open(7));
}

#[test]
fn closing_awaits_the_worker_of_the_opening() {
    let mut task = task_with_channels(&[7, 8]);
    open(&mut task, 7, "seven");
    open(&mut task, 8, "eight");
    let step = start(&mut task, 7, Some(ChannelRequest::Close));
    assert_eq!(step, run(RequestCommand::Close { id: 7 }, RequestPhase::Closing));
    let step = resume(&mut task, 7, RequestPhase::Closing, RequestEvent::Closed(true));
    assert_eq!(step, run(RequestCommand::AwaitWorker("seven"), RequestPhase::AwaitingWorker));
    let step = resume(&mut task, 7, RequestPhase::AwaitingWorker, RequestEvent::WorkerFinished);
    assert_eq!(step, RequestStep::Finish(Some(Reply::Close)));
    assert!(!task.is_open(7));
    assert!(task.has_channel(7));
    assert!(task.is_open(8));
    assert!(!task.can_resume_request(7, &RequestPhase::Closing, &RequestEvent::Closed(true)));
    open(&mut task, 7, "again");
    assert!(task.can_resume_request(7, &RequestPhase::Closing, &RequestEvent::Closed(true)));
}

#[test]
fn gpadl_words_go_to_the_driver_as_they_lie_in_memory() {
    let mut task = task_with_channels(&[7]);
    let words = vec![0x0102_0304_0506_0708, u64::MAX, 0];
    let mut buf = Vec::new();
    for word in &words {
        buf.extend(word.to_ne_bytes());
    }
    let request = GpadlRequest {
        id: 5,
        count: u16::MAX,
        buf: words,
    };
    let step = start(&mut task, 7, Some(ChannelRequest::Gpadl(request)));
    let command = RequestCommand::CreateGpadl {
        id: 7,
        gpadl_id: 5,
        count: 65535,
        buf,
    };
    assert_eq!(step, run(command, RequestPhase::CreatingGpadl { gpadl_id: 5 }));
    assert!(!task.is_registered(7, 5));
    register(&mut task, 7, 5);
    assert!(task.is_registered(7, 5));
    assert!(!task.is_registered(8, 5));
}

#[test]
fn gpadl_without_words_has_no_bytes() {
    let mut task = task_with_channels(&[7]);
    let request = GpadlRequest {
        id: 5,
        count: 1,
        buf: Vec::new(),
    };
    let step = start(&mut task, 7, Some(ChannelRequest::Gpadl(request)));
    let command = RequestCommand::CreateGpadl {
        id: 7,
        gpadl_id: 5,
        count: 1,
        buf: Vec::new(),
    };
    assert_eq!(step, run(command, RequestPhase::CreatingGpadl { gpadl_id: 5 }));
}

#[test]
fn refused_gpadl_is_not_registered() {
    let mut task = task_with_channels(&[7]);
    let phase = RequestPhase::CreatingGpadl { gpadl_id: 5 };
    let step = resume(&mut task, 7, phase, RequestEvent::GpadlCreated(false));
    assert_eq!(step, RequestStep::Finish(Some(Reply::Gpadl(false))));
    assert!(!task.is_registered(7, 5));
}

#[test]
fn teardown_undoes_the_registration() {
    let mut task = task_with_channels(&[7]);
    register(&mut task, 7, 5);
    register(&mut task, 7, 6);
    let step = start(&mut task, 7, Some(ChannelRequest::TeardownGpadl(5)));
    assert_eq!(step, run(RequestCommand::DeleteGpadl { id: 7, gpadl_id: 5 }, RequestPhase::DeletingGpadl));
    assert!(!task.is_registered(7, 5));
    assert!(task.is_registered(7, 6));
    let step = resume(&mut task, 7, RequestPhase::DeletingGpadl, RequestEvent::GpadlDeleted(true));
    assert_eq!(step, RequestStep::Finish(Some(Reply::TeardownGpadl)));
    assert!(!task.can_handle_request(7, &Some(ChannelRequest::TeardownGpadl(5))));
    assert!(!task.can_handle_request(8, &Some(ChannelRequest::TeardownGpadl(6))));
}

#[test]
fn modify_is_acknowledged_with_zero() {
    let mut task = task_with_channels(&[]);
    let step = start(&mut task, 7, Some(ChannelRequest::Modify));
    assert_eq!(step, RequestStep::Finish(Some(Reply::Modify(0))));
}

fn disconnect(task: &mut Task, id: u64) -> Vec<u32> {
    let mut deleted = Vec::new();
    let step = start(task, id, None);
    assert_eq!(step, run(RequestCommand::Close { id }, RequestPhase::Disconnecting));
    let mut step = resume(task, id, RequestPhase::Disconnecting, RequestEvent::Closed(true));
    loop {
        match step {
            RequestStep::Run {
                command: RequestCommand::DeleteGpadl { id: channel, gpadl_id },
                phase,
            } => {
                assert_eq!(channel, id);
                assert!(task.has_channel(id));
                assert!(!task.is_registered(id, gpadl_id));
                deleted.push(gpadl_id);
                step = resume(task, id, phase, RequestEvent::GpadlDeleted(true));
            }
            other => {
                assert_eq!(other, run(RequestCommand::Release { id }, RequestPhase::Releasing));
                break;
            }
        }
    }
    assert!(task.has_channel(id));
    let step = resume(task, id, RequestPhase::Releasing, RequestEvent::Released(true));
    assert_eq!(step, RequestStep::Finish(None));
    deleted.sort();
    deleted
}

#[test]
fn dropped_channel_has_each_gpadl_deleted_once_and_is_forgotten() {
    let mut task = task_with_channels(&[7, 8]);
    for gpadl_id in [5, 6, 9, 5] {
        register(&mut task, 7, gpadl_id);
    }
    register(&mut task, 8, 5);
    assert_eq!(disconnect(&mut task, 7), vec![5, 6, 9]);
    assert!(!task.has_channel(7));
    for gpadl_id in [5, 6, 9] {
        assert!(!task.is_registered(7, gpadl_id));
    }
    assert!(task.has_channel(8));
    assert!(task.is_registered(8, 5));
}

#[test]
fn dropped_channel_without_gpadls_is_released() {
    let mut task = task_with_channels(&[7]);
    assert_eq!(disconnect(&mut task, 7), Vec::<u32>::new());
    let mut task = task_with_channels(&[7]);
    register(&mut task, 7, 5);
    start(&mut task, 7, Some(ChannelRequest::TeardownGpadl(5)));
    assert_eq!(disconnect(&mut task, 7), Vec::<u32>::new());
    assert!(!task.has_channel(7));
}

#[test]
fn handlers_refuse_events_out_of_turn() {
    let task = task_with_channels(&[7]);
    assert!(!task.can_resume_request(7, &RequestPhase::Opening, &RequestEvent::Closed(true)));
    assert!(!task.can_resume_request(7, &RequestPhase::Closing, &RequestEvent::Closed(true)));
    let started = RequestEvent::WorkerStarted("worker");
    assert!(task.can_resume_request(7, &RequestPhase::StartingWorker, &started));
    assert!(!task.can_resume_request(8, &RequestPhase::StartingWorker, &started));
    assert!(!task.can_resume_request(7, &RequestPhase::Releasing, &RequestEvent::GpadlDeleted(true)));
}

#[test]
fn handlers_beside_one_another_delete_each_gpadl_once() {
    let mut task = task_with_channels(&[7]);
    register(&mut task, 7, 5);
    register(&mut task, 7, 6);
    start(&mut task, 7, Some(ChannelRequest::TeardownGpadl(6)));
    start(&mut task, 7, None);
    let step = resume(&mut task, 7, RequestPhase::Disconnecting, RequestEvent::Closed(true));
    let draining = RequestPhase::Draining { remaining: vec![] };
    assert_eq!(step, run(RequestCommand::DeleteGpadl { id: 7, gpadl_id: 5 }, draining));
    // A creation that was under way is registered anew and left to a later handler.
    register(&mut task, 7, 5);
    let draining = RequestPhase::Draining { remaining: vec![] };
    let step = resume(&mut task, 7, draining, RequestEvent::GpadlDeleted(true));
    assert_eq!(step, run(RequestCommand::Release { id: 7 }, RequestPhase::Releasing));
    let step = resume(&mut task, 7, RequestPhase::DeletingGpadl, RequestEvent::GpadlDeleted(true));
    assert_eq!(step, RequestStep::Finish(Some(Reply::TeardownGpadl)));
    assert!(task.is_registered(7, 5));
    assert!(!task.is_registered(7, 6));
}

#[test]
fn failed_close_is_borne_only_for_a_dropped_channel() {
    let mut task = task_with_channels(&[7]);
    open(&mut task, 7, "worker");
    assert!(!task.can_resume_request(7, &RequestPhase::Closing, &RequestEvent::Closed(false)));
    assert!(task.can_resume_request(7, &RequestPhase::Closing, &RequestEvent::Closed(true)));
    let step = resume(&mut task, 7, RequestPhase::Disconnecting, RequestEvent::Closed(false));
    assert_eq!(step, run(RequestCommand::Release { id: 7 }, RequestPhase::Releasing));
}

#[test]
fn failed_delete_or_release_is_never_borne() {
    let task = task_with_channels(&[7]);
    let failed = RequestEvent::GpadlDeleted(false);
    assert!(!task.can_resume_request(7, &RequestPhase::DeletingGpadl, &failed));
    let draining = RequestPhase::Draining { remaining: vec![5] };
    assert!(!task.can_resume_request(7, &draining, &failed));
    assert!(!task.can_resume_request(7, &RequestPhase::Releasing, &RequestEvent::Released(false)));
}

#[test]
fn worker_names_hold_the_number_in_decimal() {
    for id in [0, 9, 10, 1234567890, u64::MAX] {
        assert_eq!(worker_name(id), format!("vmbus proxy worker {:?}", id));
    }
    assert_ne!(worker_name(1), worker_name(10));
}

#[test]
fn requests_are_taken_in() {
    let stream: IntakeEvent<&str, u8> = IntakeEvent::Stream("s");
    assert_eq!(run_channel_requests(stream), IntakeCommand::Merge("s"));
    for request in [Some(3), None] {
        let event: IntakeEvent<&str, u8> = IntakeEvent::Request {
            proxy_id: 7,
            request,
        };
        let command = IntakeCommand::Spawn {
            proxy_id: 7,
            request,
        };
        assert_eq!(run_channel_requests(event), command);
    }
    let complete: IntakeEvent<&str, u8> = IntakeEvent::Complete;
    assert_eq!(run_channel_requests(complete), IntakeCommand::Stop);
}
