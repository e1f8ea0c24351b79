use modbus_master::engine::{Action, Engine, Event, OpMessage, Phase, Target};
use modbus_master::error::ErrKind;
use modbus_master::message_sender::{Operation, WriteValue};
use modbus_master::ops::{OpType, OpView};
use modbus_master::port_op::{Parity, PortConfig, StopBits};

fn config(name: &str) -> PortConfig {
    PortConfig::new(name.to_string(), 9600, StopBits::One, Parity::Even, 1)
}

fn op(name: &str, addr: &str) -> Operation {
    Operation::try_from_view(
        OpView::new(name.to_string(), OpType::ReadSingle, addr.to_string(), String::new(), "val".to_string()),
        WriteValue::NotANumber,
    )
    .unwrap()
}

fn frame(o: &Operation, c: &PortConfig) -> [u8; 8] {
    o.to_modbus_bytes(c)
}

fn expect_exchange(a: Action) -> [u8; 8] {
    match a {
        Action::Exchange(f) => f,
        other => panic!("expected an exchange, got {:?}", other),
    }
}

fn start_session(e: &mut Engine, c: &PortConfig, ops: Vec<Operation>) {
    assert!(matches!(e.step(Event::Message(OpMessage::StartContinuous(c.clone(), ops))), Action::Open));
    assert_eq!(e.phase(), Phase::Opening);
    assert!(matches!(e.step(Event::Opened(true)), Action::Check));
    assert_eq!(e.phase(), Phase::Ready);
}

#[test]
fn empty_start_is_ignored() {
    let mut e = Engine::new();
    let a = e.step(Event::Message(OpMessage::StartContinuous(config("A"), vec![])));
    assert!(matches!(a, Action::Wait));
    assert_eq!(e.phase(), Phase::Idle);

    let o = op("x", "3");
    assert!(matches!(e.step(Event::Message(OpMessage::OneShot(config("A"), o.clone()))), Action::Open));
    assert!(matches!(e.step(Event::Opened(true)), Action::Check));
    let f = expect_exchange(e.step(Event::Quiet));
    assert_eq!(f, frame(&o, &config("A")));
    match e.step(Event::Answer(vec![1, 2, 3])) {
        Action::Deliver(r, Target::Session) => {
            assert_eq!(r.op, o);
            assert_eq!(r.bytes(), &[1u8, 2, 3][..]);
        }
        other => panic!("unexpected {:?}", other),
    }
    assert!(matches!(e.step(Event::Delivered(true)), Action::Wait));
    assert_eq!(e.phase(), Phase::Idle);
}

#[test]
fn one_shot_during_session() {
    let mut e = Engine::new();
    let a = config("A");
    let ops = vec![op("first", "1"), op("second", "2")];
    start_session(&mut e, &a, ops.clone());

    let f = expect_exchange(e.step(Event::Quiet));
    assert_eq!(f, frame(&ops[0], &a));
    assert!(matches!(e.step(Event::Answer(vec![])), Action::Deliver(_, Target::Session)));
    assert!(matches!(e.step(Event::Delivered(true)), Action::PauseThenCheck));

    // another configuration is refused and nothing is written
    match e.step(Event::Message(OpMessage::OneShot(config("B"), op("other", "9")))) {
        Action::Reject(err) => assert_eq!(err.kind(), ErrKind::PortTypeUnequal),
        other => panic!("unexpected {:?}", other),
    }
    assert_eq!(e.phase(), Phase::Ready);

    // the same configuration is served on its own channel
    let extra = op("extra", "7");
    let f = expect_exchange(e.step(Event::Message(OpMessage::OneShot(a.clone(), extra.clone()))));
    assert_eq!(f, frame(&extra, &a));
    match e.step(Event::Answer(vec![9])) {
        Action::Deliver(r, Target::Incoming) => assert_eq!(r.op, extra),
        other => panic!("unexpected {:?}", other),
    }
    assert!(matches!(e.step(Event::Delivered(true)), Action::PauseThenCheck));

    // the round robin goes on where it was
    let f = expect_exchange(e.step(Event::Quiet));
    assert_eq!(f, frame(&ops[1], &a));
    assert!(matches!(e.step(Event::Answer(vec![])), Action::Deliver(_, Target::Session)));
    assert!(matches!(e.step(Event::Delivered(true)), Action::PauseThenCheck));
    let f = expect_exchange(e.step(Event::Quiet));
    assert_eq!(f, frame(&ops[0], &a));
}

#[test]
fn second_start_is_rejected() {
    let mut e = Engine::new();
    start_session(&mut e, &config("A"), vec![op("a", "1")]);
    match e.step(Event::Message(OpMessage::StartContinuous(config("A"), vec![op("b", "2")]))) {
        Action::Reject(err) => {
            assert_eq!(err.kind(), ErrKind::AttemptToStartMultipleContinuousQuarry);
            assert_eq!(
                err.message(),
                "Cannot start a new continuous quarry before stopping the old continuous quarry request"
            );
        }
        other => panic!("unexpected {:?}", other),
    }
    assert_eq!(e.phase(), Phase::Ready);
}

#[test]
fn stop_then_start() {
    let mut e = Engine::new();
    start_session(&mut e, &config("A"), vec![op("a", "1")]);
    assert!(matches!(e.step(Event::Message(OpMessage::StopContinuous)), Action::Wait));
    assert_eq!(e.phase(), Phase::Idle);
    start_session(&mut e, &config("B"), vec![op("b", "2")]);
    assert_eq!(e.config(), &config("B"));
    let f = expect_exchange(e.step(Event::Quiet));
    assert_eq!(f, frame(&op("b", "2"), &config("B")));
}

#[test]
fn stop_while_idle_does_nothing() {
    let mut e = Engine::new();
    assert!(matches!(e.step(Event::Message(OpMessage::StopContinuous)), Action::Wait));
    assert_eq!(e.phase(), Phase::Idle);
}

#[test]
fn open_failure_ends_session() {
    let mut e = Engine::new();
    assert!(matches!(e.step(Event::Message(OpMessage::OneShot(config("COM7"), op("a", "1")))), Action::Open));
    match e.step(Event::Opened(false)) {
        Action::Fail(err, Target::Session) => {
            assert_eq!(err.kind(), ErrKind::FailedToOpenTargetPort);
            assert_eq!(err.message(), "Failed to open port \"COM7\"");
        }
        other => panic!("unexpected {:?}", other),
    }
    assert_eq!(e.phase(), Phase::Idle);
}

#[test]
fn write_failure_ends_session() {
    let mut e = Engine::new();
    start_session(&mut e, &config("A"), vec![op("a", "1")]);
    expect_exchange(e.step(Event::Message(OpMessage::OneShot(config("A"), op("b", "2")))));
    match e.step(Event::WriteFailed("broken pipe".to_string())) {
        Action::Fail(err, Target::Incoming) => {
            assert_eq!(err.kind(), ErrKind::PortWriteFailed);
            assert_eq!(err.message(), "Failed to write msg to port due to: broken pipe");
        }
        other => panic!("unexpected {:?}", other),
    }
    assert_eq!(e.phase(), Phase::Idle);
}

#[test]
fn closed_channel_ends_session() {
    let mut e = Engine::new();
    start_session(&mut e, &config("A"), vec![op("a", "1")]);
    expect_exchange(e.step(Event::Quiet));
    assert!(matches!(e.step(Event::Answer(vec![])), Action::Deliver(_, Target::Session)));
    assert!(matches!(e.step(Event::Delivered(false)), Action::Wait));
    assert_eq!(e.phase(), Phase::Idle);
}

#[test]
fn one_shot_session_with_interjection() {
    let mut e = Engine::new();
    let a = config("A");
    let own = op("own", "1");
    assert!(matches!(e.step(Event::Message(OpMessage::OneShot(a.clone(), own.clone()))), Action::Open));
    assert!(matches!(e.step(Event::Opened(true)), Action::Check));
    // a second one-shot arriving first is served, and the session goes on
    expect_exchange(e.step(Event::Message(OpMessage::OneShot(a.clone(), op("other", "2")))));
    assert!(matches!(e.step(Event::Answer(vec![])), Action::Deliver(_, Target::Incoming)));
    assert!(matches!(e.step(Event::Delivered(true)), Action::PauseThenCheck));
    let f = expect_exchange(e.step(Event::Quiet));
    assert_eq!(f, frame(&own, &a));
    assert!(matches!(e.step(Event::Answer(vec![])), Action::Deliver(_, Target::Session)));
    assert!(matches!(e.step(Event::Delivered(true)), Action::Wait));
    assert_eq!(e.phase(), Phase::Idle);
}

#[test]
fn expected_events() {
    let e = Engine::new();
    assert!(e.expects(&Event::Message(OpMessage::StopContinuous)));
    assert!(!e.expects(&Event::Quiet));
    assert!(!e.expects(&Event::Opened(true)));
}
