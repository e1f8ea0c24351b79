use modbus_master::engine::OpMessage;
use modbus_master::error::{ErrKind, Error};
use modbus_master::message_sender::WriteValue;
use modbus_master::ops::{OpType, OpView, OpViewList, OpViewListMessage, OpViewMessage};
use modbus_master::port_op::{Parity, PortConfig, PortOption, StopBits};
use modbus_master::read_to_timeout::{pattern_step, tail_matches, ReadDecision, ReadEvent};
use modbus_master::session::{continuous_start_request, one_shot_request};

fn option(baud: &str, addr: &str) -> PortOption {
    PortOption {
        port_name: Some("COM3".to_string()),
        baud: baud.to_string(),
        stop_bits: Some(StopBits::Two),
        parity: Some(Parity::Odd),
        device_addr: addr.to_string(),
    }
}

fn read_view(name: &str, addr: &str) -> OpView {
    OpView::new(name.to_string(), OpType::ReadSingle, addr.to_string(), String::new(), "val".to_string())
}

#[test]
fn port_option_accepted() {
    let c = PortConfig::try_from_option(option("0x2580", "17")).unwrap();
    assert_eq!(c, PortConfig::new("COM3".to_string(), 9600, StopBits::Two, Parity::Odd, 17));
}

#[test]
fn port_option_errors() {
    let e = PortConfig::try_from_option(PortOption::default()).unwrap_err();
    assert_eq!(e.kind(), ErrKind::InvalidPortOption);
    assert_eq!(e.message(), "Must select all port options");

    let e = PortConfig::try_from_option(option("", "1")).unwrap_err();
    assert_eq!(e.message(), "Must select all port options");

    let e = PortConfig::try_from_option(option("fast", "1")).unwrap_err();
    assert_eq!(e.kind(), ErrKind::InvalidPortOption);
    assert_eq!(e.message(), "\"fast\" is not a valid baud");

    let e = PortConfig::try_from_option(option("9600", "256")).unwrap_err();
    assert_eq!(e.message(), "\"256\" is not a valid device address");

    let e = PortConfig::try_from_option(option("9600", "")).unwrap_err();
    assert_eq!(e.message(), "\"\" is not a valid device address");
}

#[test]
fn error_text() {
    let e = Error::with_message(ErrKind::PortTypeUnequal, "detail".to_string());
    assert_eq!(e.describe(), "Error: {PortTypeUnequal, detail}");
    let e = Error::new(ErrKind::PortOpThreadNotPresent);
    assert_eq!(e.describe(), "Error: {PortOpThreadNotPresent, }");
    assert_eq!(e.message(), "");
}

#[test]
fn one_shot_request_checks_operation_first() {
    let e = one_shot_request(read_view("a", "nope"), WriteValue::NotANumber, PortOption::default())
        .unwrap_err();
    assert_eq!(e.kind(), ErrKind::RequestParseError);
    let e = one_shot_request(read_view("a", "1"), WriteValue::NotANumber, PortOption::default())
        .unwrap_err();
    assert_eq!(e.kind(), ErrKind::InvalidPortOption);
    match one_shot_request(read_view("a", "1"), WriteValue::NotANumber, option("9600", "1")).unwrap() {
        OpMessage::OneShot(c, op) => {
            assert_eq!(c.baud, 9600);
            assert_eq!(op.name, "a");
        }
        other => panic!("unexpected {:?}", other),
    }
}

#[test]
fn continuous_request_builds_every_operation() {
    let list = OpViewList::from_ops(vec![read_view("a", "1"), read_view("b", "2")]);
    match continuous_start_request(list, vec![WriteValue::NotANumber, WriteValue::NotANumber], option("9600", "1"))
        .unwrap()
    {
        OpMessage::StartContinuous(_, ops) => {
            assert_eq!(ops.len(), 2);
            assert_eq!(ops[1].name, "b");
        }
        other => panic!("unexpected {:?}", other),
    }
    let list = OpViewList::from_ops(vec![read_view("a", "1"), read_view("b", "x"), read_view("c", "y")]);
    let e = continuous_start_request(list, vec![WriteValue::NotANumber, WriteValue::NotANumber, WriteValue::NotANumber], option("9600", "1"))
        .unwrap_err();
    assert_eq!(e.message(), "\"x\" is not a valid register address");
}

#[test]
fn op_view_edits() {
    let mut v = read_view("a", "1");
    v.update(OpViewMessage::SetName("b".to_string()));
    v.update(OpViewMessage::SelectOpType(OpType::WriteSingle));
    v.update(OpViewMessage::SetOpAddr("2".to_string()));
    v.update(OpViewMessage::SetOpValue("3".to_string()));
    v.update(OpViewMessage::SetEval("val * 2".to_string()));
    assert_eq!(v, OpView::new("b".to_string(), OpType::WriteSingle, "2".to_string(), "3".to_string(), "val * 2".to_string()));
    assert_eq!(OpType::ReadSingleRO.label(), "Read Single RO");
}

#[test]
fn op_list_edits() {
    let mut l = OpViewList::default();
    l.update(OpViewListMessage::AddOperation);
    l.update(OpViewListMessage::AddOperation);
    l.update(OpViewListMessage::AddOperation);
    assert_eq!(l.ops().len(), 3);
    assert_eq!(l.ops()[2], OpView::new("2".to_string(), OpType::ReadSingle, String::new(), String::new(), "val".to_string()));
    l.update(OpViewListMessage::RemoveOperation(0));
    assert_eq!(l.ops()[0].name, "1");
    l.update(OpViewListMessage::OpViewMessage(1, OpViewMessage::SetOpAddr("0x10".to_string())));
    assert_eq!(l.ops()[1].op_addr, "0x10");
    assert_eq!(l.ops()[0].op_addr, "");
    let mut l = OpViewList::default();
    for _ in 0..12 {
        l.update(OpViewListMessage::AddOperation);
    }
    assert_eq!(l.ops()[11].name, "11");
}

#[test]
fn pattern_reading() {
    assert!(tail_matches(&vec![1, 2, 3], &[2, 3]));
    assert!(!tail_matches(&vec![3], &[2, 3]));
    assert!(tail_matches(&vec![], &[]));
    let mut buf = vec![0xAA, 0x0D];
    let start = buf.len();
    // the old bytes alone do not end the read: one new byte is needed first
    assert_eq!(pattern_step(&mut buf, start, &[0x0D, 0x0A], ReadEvent::Byte(0x01)), ReadDecision::Continue);
    assert_eq!(pattern_step(&mut buf, start, &[0x0D, 0x0A], ReadEvent::Byte(0x0D)), ReadDecision::Continue);
    assert_eq!(pattern_step(&mut buf, start, &[0x0D, 0x0A], ReadEvent::Byte(0x0A)), ReadDecision::Done(3));
    assert_eq!(pattern_step(&mut buf, start, &[9], ReadEvent::TimedOut), ReadDecision::Done(3));
    assert_eq!(pattern_step(&mut buf, start, &[9], ReadEvent::Failed), ReadDecision::Error);
    assert_eq!(buf, vec![0xAA, 0x0D, 0x01, 0x0D, 0x0A]);
}


#[test]
fn end_of_input_ends_pattern_read() {
    let mut buf = vec![7];
    assert_eq!(pattern_step(&mut buf, 0, &[1, 2], ReadEvent::Ended), ReadDecision::Done(1));
    assert_eq!(buf, vec![7]);
}

#[test]
fn blank_transform_is_unparsable() {
    for text in [" ", "\t", "\r\n", "   "] {
        let e = one_shot_request(
            OpView::new("a".to_string(), OpType::ReadSingle, "1".to_string(), String::new(), text.to_string()),
            WriteValue::NotANumber,
            option("9600", "1"),
        )
        .unwrap_err();
        assert_eq!(e.kind(), ErrKind::MathOperationParseError);
        assert_eq!(e.message(), format!("Could not parse \"{}\" into valid math expression", text));
    }
    let e = one_shot_request(read_view("a", "1").clone(), WriteValue::NotANumber, option("9600", "1"));
    assert!(e.is_ok());
    let empty = OpView::new("a".to_string(), OpType::ReadSingle, "1".to_string(), String::new(), String::new());
    assert_eq!(
        one_shot_request(empty, WriteValue::NotANumber, option("9600", "1")).unwrap_err().kind(),
        ErrKind::MathOperationParseError
    );
}
