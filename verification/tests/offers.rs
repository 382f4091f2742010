use vmbus_proxy_task::driver::DriverCommand;
use vmbus_proxy_task::driver::DriverEvent;
use vmbus_proxy_task::driver::DriverPhase;
use vmbus_proxy_task::driver::DriverStep;
use vmbus_proxy_task::driver::ProxyAction;
use vmbus_proxy_task::offer::ChannelOffer;
use vmbus_proxy_task::offer::ChannelType;
use vmbus_proxy_task::offer::Guid;
use vmbus_proxy_task::offer::OfferEncoding;
use vmbus_proxy_task::table::ProxyTask;

const ENUMERATE: u16 = 1;
const NAMED_PIPE: u16 = 0x10;
const MONITORED: u16 = 0x400;

fn encoding() -> OfferEncoding {
    OfferEncoding {
        enumerate_device_interface: ENUMERATE,
        named_pipe_mode: NAMED_PIPE,
        request_monitored_notification: MONITORED,
        pipe_type_byte: 0,
        pipe_type_message: 4,
    }
}

fn guid(n: u32) -> Guid {
    Guid {
        data1: n,
        data2: 2,
        data3: 3,
        data4: [1, 2, 3, 4, 5, 6, 7, 8],
    }
}

fn offer(channel_flags: u16, pipe_mode: u32) -> ChannelOffer {
    let mut user_defined = pipe_mode.to_ne_bytes().to_vec();
    user_defined.extend([0xff; 116]);
    ChannelOffer {
        interface_type: guid(10),
        interface_instance: guid(20),
        channel_flags,
        mmio_megabytes: 8,
        mmio_megabytes_optional: 16,
        subchannel_index: 3,
        user_defined,
    }
}

#[test]
fn device_offer_is_described_field_by_field() {
    let params = encoding().offer_params(7, &offer(MONITORED, 99));
    assert_eq!(params.interface_name, "proxy");
    assert_eq!(params.interface_id, guid(10));
    assert_eq!(params.instance_id, guid(20));
    assert_eq!(params.mmio_megabytes, 8);
    assert_eq!(params.mmio_megabytes_optional, 16);
    assert_eq!(params.subchannel_index, 3);
    assert_eq!(params.channel_type, ChannelType::Device { pipe_packets: false });
    assert!(params.use_mnf);
    assert_eq!(params.offer_order, Some(7));
}

#[test]
fn named_pipe_device_sends_pipe_packets() {
    let params = encoding().offer_params(7, &offer(NAMED_PIPE, 0));
    assert_eq!(params.channel_type, ChannelType::Device { pipe_packets: true });
    assert!(!params.use_mnf);
}

#[test]
fn pipe_mode_is_read_in_memory_order() {
    let byte = encoding().offer_params(1, &offer(ENUMERATE | NAMED_PIPE, 0));
    assert_eq!(byte.channel_type, ChannelType::Pipe { message_mode: false });
    let message = encoding().offer_params(1, &offer(ENUMERATE, 4));
    assert_eq!(message.channel_type, ChannelType::Pipe { message_mode: true });
}

#[test]
fn pipe_modes_that_differ_in_every_byte_are_told_apart() {
    let encoding = OfferEncoding {
        pipe_type_byte: 0x0102_0304,
        pipe_type_message: 0x0403_0201,
        ..encoding()
    };
    assert!(encoding.is_supported(&offer(ENUMERATE, 0x0102_0304)));
    assert!(!encoding.is_supported(&offer(ENUMERATE, 0x0102_0303)));
    let params = encoding.offer_params(1, &offer(ENUMERATE, 0x0403_0201));
    assert_eq!(params.channel_type, ChannelType::Pipe { message_mode: true });
}

#[test]
fn unknown_or_missing_pipe_mode_is_unsupported() {
    assert!(encoding().is_supported(&offer(ENUMERATE, 0)));
    assert!(encoding().is_supported(&offer(ENUMERATE, 4)));
    assert!(!encoding().is_supported(&offer(ENUMERATE, 1)));
    let mut short = offer(ENUMERATE, 0);
    short.user_defined.truncate(3);
    assert!(!encoding().is_supported(&short));
    short.channel_flags = 0;
    assert!(encoding().is_supported(&short));
}

#[test]
fn channel_type_follows_flags_and_mode() {
    assert_eq!(
        encoding().decode_channel_type(ENUMERATE, 4),
        ChannelType::Pipe { message_mode: true }
    );
    assert_eq!(
        encoding().decode_channel_type(NAMED_PIPE, 77),
        ChannelType::Device { pipe_packets: true }
    );
}

#[test]
fn offer_order_is_left_out_where_the_id_is_too_large() {
    let largest = u32::MAX as u64;
    assert_eq!(encoding().offer_params(largest, &offer(0, 0)).offer_order, Some(u32::MAX));
    assert_eq!(encoding().offer_params(largest + 1, &offer(0, 0)).offer_order, None);
    let five = encoding().offer_params(5, &offer(0, 0)).offer_order;
    let six = encoding().offer_params(6, &offer(0, 0)).offer_order;
    assert!(five < six);
}

fn offered(event: DriverEvent<&'static str>, id: u64) -> (ProxyTask<&'static str, u8>, DriverStep<&'static str>) {
    let mut task = ProxyTask::new();
    let action = ProxyAction::Offer {
        id,
        offer: offer(0, 0),
    };
    let step = task.run_offers(&encoding(), DriverPhase::Idle, DriverEvent::Action(action));
    assert_eq!(step.phase, DriverPhase::Offering { id });
    assert_eq!(step.command, DriverCommand::Offer(encoding().offer_params(id, &offer(0, 0))));
    assert!(!task.has_channel(id));
    let step = task.run_offers(&encoding(), step.phase, event);
    (task, step)
}

fn revoke(task: &mut ProxyTask<&'static str, u8>, id: u64) -> DriverStep<&'static str> {
    let event = DriverEvent::Action(ProxyAction::Revoke { id });
    assert!(task.can_run_offers(&encoding(), &DriverPhase::Idle, &event));
    task.run_offers(&encoding(), DriverPhase::Idle, event)
}

#[test]
fn accepted_channel_is_forwarded_then_dropped_then_released() {
    let (mut task, step) = offered(DriverEvent::Accepted("handle"), 7);
    assert_eq!(step.command, DriverCommand::Forward { id: 7 });
    assert_eq!(step.phase, DriverPhase::Idle);
    assert!(task.has_channel(7));
    assert!(!task.is_open(7));

    let step = revoke(&mut task, 7);
    assert_eq!(step.command, DriverCommand::Drop("handle"));
    assert_eq!(step.phase, DriverPhase::Idle);
    assert!(task.has_channel(7));

    let step = revoke(&mut task, 7);
    assert_eq!(step.command, DriverCommand::Release { id: 7 });
    assert_eq!(step.phase, DriverPhase::Releasing { id: 7 });
    assert!(task.has_channel(7));

    let step = task.run_offers(&encoding(), step.phase, DriverEvent::Released(true));
    assert_eq!(step.command, DriverCommand::Next);
    assert_eq!(step.phase, DriverPhase::Idle);
    assert!(!task.has_channel(7));
}

#[test]
fn refused_channel_is_remembered_and_released_at_once() {
    let (mut task, step) = offered(DriverEvent::Rejected, 7);
    assert_eq!(step.command, DriverCommand::Next);
    assert!(task.has_channel(7));
    assert_eq!(revoke(&mut task, 7).command, DriverCommand::Release { id: 7 });
}

#[test]
fn driver_loop_leaves_other_channels_alone() {
    let (mut task, _) = offered(DriverEvent::Accepted("seven"), 7);
    let step = task.run_offers(&encoding(), DriverPhase::Offering { id: 8 }, DriverEvent::Accepted("eight"));
    assert_eq!(step.command, DriverCommand::Forward { id: 8 });
    assert_eq!(revoke(&mut task, 8).command, DriverCommand::Drop("eight"));
    assert_eq!(revoke(&mut task, 7).command, DriverCommand::Drop("seven"));
}

#[test]
fn interrupt_policy_is_skipped_and_the_end_stops() {
    let mut task: ProxyTask<&'static str, u8> = ProxyTask::new();
    let policy = DriverEvent::Action(ProxyAction::InterruptPolicy);
    let step = task.run_offers(&encoding(), DriverPhase::Idle, policy);
    assert_eq!(step.command, DriverCommand::Next);
    let step = task.run_offers(&encoding(), step.phase, DriverEvent::Ended);
    assert_eq!(step.command, DriverCommand::Stop);
}

#[test]
fn events_out_of_turn_cannot_be_taken() {
    let task: ProxyTask<&'static str, u8> = ProxyTask::new();
    let encoding = encoding();
    let revoke = DriverEvent::Action(ProxyAction::Revoke { id: 7 });
    assert!(!task.can_run_offers(&encoding, &DriverPhase::Idle, &revoke));
    let bad = ProxyAction::Offer {
        id: 7,
        offer: offer(ENUMERATE, 9),
    };
    assert!(!task.can_run_offers(&encoding, &DriverPhase::Idle, &DriverEvent::Action(bad)));
    assert!(!task.can_run_offers(&encoding, &DriverPhase::Idle, &DriverEvent::Released(true)));
    let offering = DriverPhase::Offering { id: 7 };
    assert!(task.can_run_offers(&encoding, &offering, &DriverEvent::Rejected));
    assert!(!task.can_run_offers(&encoding, &offering, &DriverEvent::Ended));
    let releasing = DriverPhase::Releasing { id: 7 };
    assert!(task.can_run_offers(&encoding, &releasing, &DriverEvent::Released(true)));
    assert!(!task.can_run_offers(&encoding, &releasing, &DriverEvent::Released(false)));
    assert!(!task.can_run_offers(&encoding, &releasing, &DriverEvent::Accepted("x")));
}

#[test]
fn driver_run_forwards_after_acceptance_and_stops_at_the_end() {
    let mut task: ProxyTask<&'static str, u8> = ProxyTask::new();
    let make = |id| {
        DriverEvent::Action(ProxyAction::Offer {
            id,
            offer: offer(0, 0),
        })
    };
    let revoke = |id| DriverEvent::Action(ProxyAction::Revoke { id });
    let events = vec![
        make(1),
        DriverEvent::Accepted("one"),
        DriverEvent::Action(ProxyAction::InterruptPolicy),
        make(2),
        DriverEvent::Rejected,
        revoke(2),
        DriverEvent::Released(true),
        revoke(1),
        DriverEvent::Ended,
    ];
    let expected = vec![
        DriverCommand::Offer(encoding().offer_params(1, &offer(0, 0))),
        DriverCommand::Forward { id: 1 },
        DriverCommand::Next,
        DriverCommand::Offer(encoding().offer_params(2, &offer(0, 0))),
        DriverCommand::Next,
        DriverCommand::Release { id: 2 },
        DriverCommand::Next,
        DriverCommand::Drop("one"),
        DriverCommand::Stop,
    ];
    let mut phase = DriverPhase::Idle;
    let mut commands = Vec::new();
    for event in events {
        assert!(task.can_run_offers(&encoding(), &phase, &event));
        let step = task.run_offers(&encoding(), phase, event);
        phase = step.phase;
        commands.push(step.command);
    }
    assert_eq!(commands, expected);
    assert!(task.has_channel(1));
    assert!(!task.has_channel(2));
}
