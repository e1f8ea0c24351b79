use modbus_master::error::ErrKind;
use modbus_master::message_sender::{Operation, Request, WriteValue};
use modbus_master::ops::{OpType, OpView};
use modbus_master::port_op::{Parity, PortConfig, Reading, Response, StopBits};
use modbus_master::string_to_num::split_radix;
use num::Num;
use std::str::FromStr;

fn config(device_addr: u8) -> PortConfig {
    PortConfig::new("COM1".to_string(), 9600, StopBits::One, Parity::NoParity, device_addr)
}

fn view(op_type: OpType, addr: &str, val: &str, eval: &str) -> OpView {
    OpView::new("op".to_string(), op_type, addr.to_string(), val.to_string(), eval.to_string())
}

// What the driver computes for a write value: parse, transform, round.
fn write_value(val: &str, eval: &str) -> WriteValue {
    let (radix, digits) = split_radix(val);
    match <f64 as Num>::from_str_radix(digits, radix) {
        Ok(v) => {
            let f = meval::Expr::from_str(eval).unwrap().bind("val").unwrap();
            WriteValue::Number(v.to_string(), f(v).round() as i64)
        }
        Err(_) => WriteValue::NotANumber,
    }
}

fn crc(bytes: &[u8]) -> u16 {
    crc::Crc::<u16>::new(&crc::CRC_16_MODBUS).checksum(bytes)
}

fn with_crc(head: &[u8]) -> Vec<u8> {
    let c = crc(head);
    let mut v = head.to_vec();
    v.push((c & 0xFF) as u8);
    v.push((c >> 8) as u8);
    v
}

fn read_op() -> Operation {
    Operation::try_from_view(view(OpType::ReadSingle, "0x0001", "", "val"), WriteValue::NotANumber)
        .unwrap()
}

fn write_op(val: &str) -> Operation {
    Operation::try_from_view(view(OpType::WriteSingle, "1", val, "val"), write_value(val, "val"))
        .unwrap()
}

#[test]
fn read_holding_frame() {
    let bytes = read_op().to_modbus_bytes(&config(1));
    assert_eq!(bytes, [0x01, 0x03, 0x00, 0x01, 0x00, 0x01, 0xD5, 0xCA]);
}

#[test]
fn read_input_frame() {
    let op = Operation::try_from_view(
        view(OpType::ReadSingleRO, "0x0102", "", "val"),
        WriteValue::NotANumber,
    )
    .unwrap();
    let bytes = op.to_modbus_bytes(&config(0x11));
    assert_eq!(bytes[..6], [0x11, 0x04, 0x01, 0x02, 0x00, 0x01]);
    assert_eq!(bytes.to_vec(), with_crc(&bytes[..6]));
}

#[test]
fn write_single_frame() {
    let bytes = write_op("3").to_modbus_bytes(&config(1));
    assert_eq!(bytes, [0x01, 0x06, 0x00, 0x01, 0x00, 0x03, 0x98, 0x0B]);
}

#[test]
fn write_value_out_of_range() {
    let e = Operation::try_from_view(
        view(OpType::WriteSingle, "1", "1000000", "val"),
        write_value("1000000", "val"),
    )
    .unwrap_err();
    assert_eq!(e.kind(), ErrKind::MathOperationResultInOutOfRangeValue);
    assert_eq!(e.message(), "1000000 cannot be evaluated to a value in the range [0, 0xFFFF]");
}

#[test]
fn write_value_in_range() {
    let op = write_op("100");
    assert_eq!(op.req, Request::WriteSingle(1, "100".to_string(), 100));
    let bytes = op.to_modbus_bytes(&config(1));
    assert_eq!(bytes[4..6], [0x00, 0x64]);
}

#[test]
fn write_value_transformed() {
    let op = Operation::try_from_view(
        view(OpType::WriteSingle, "2", "1.26", "val * 10"),
        write_value("1.26", "val * 10"),
    )
    .unwrap();
    assert_eq!(op.req, Request::WriteSingle(2, "1.26".to_string(), 13));
    let e = Operation::try_from_view(
        view(OpType::WriteSingle, "2", "5", "0 - val"),
        write_value("5", "0 - val"),
    )
    .unwrap_err();
    assert_eq!(e.kind(), ErrKind::MathOperationResultInOutOfRangeValue);
}

#[test]
fn transform_errors() {
    let e = Operation::try_from_view(view(OpType::ReadSingle, "1", "", "val +"), WriteValue::NotANumber)
        .unwrap_err();
    assert_eq!(e.kind(), ErrKind::MathOperationParseError);
    assert_eq!(e.message(), "Could not parse \"val +\" into valid math expression");

    let e = Operation::try_from_view(view(OpType::ReadSingle, "1", "", "x * 2"), WriteValue::NotANumber)
        .unwrap_err();
    assert_eq!(e.kind(), ErrKind::MathOperationParseError);
    assert_eq!(e.message(), "Expression must contain \"val\"");
}

#[test]
fn transform_checked_before_address() {
    let e = Operation::try_from_view(view(OpType::ReadSingle, "zz", "", "(("), WriteValue::NotANumber)
        .unwrap_err();
    assert_eq!(e.kind(), ErrKind::MathOperationParseError);
}

#[test]
fn address_and_value_errors() {
    let e = Operation::try_from_view(view(OpType::ReadSingle, "0x10000", "", "val"), WriteValue::NotANumber)
        .unwrap_err();
    assert_eq!(e.kind(), ErrKind::RequestParseError);
    assert_eq!(e.message(), "\"0x10000\" is not a valid register address");

    let e = Operation::try_from_view(view(OpType::WriteSingle, "1", "abc", "val"), write_value("abc", "val"))
        .unwrap_err();
    assert_eq!(e.kind(), ErrKind::RequestParseError);
    assert_eq!(e.message(), "\"abc\" is not a valid register value");
}

#[test]
fn short_responses_are_invalid() {
    for n in 0..5usize {
        let bytes: Vec<u8> = (0..n as u8).collect();
        assert_eq!(Response::new(read_op(), bytes).decode(), Reading::InvalidResponse);
        let bytes: Vec<u8> = vec![0xFF; n];
        assert_eq!(Response::new(write_op("1"), bytes).decode(), Reading::InvalidResponse);
    }
}

#[test]
fn appended_crc_passes_and_bit_flip_fails() {
    let frame = write_op("7").to_modbus_bytes(&config(5)).to_vec();
    assert_eq!(Response::new(write_op("7"), frame.clone()).decode(), Reading::WriteEcho);
    for i in 0..6 {
        for bit in 0..8 {
            let mut flipped = frame.clone();
            flipped[i] ^= 1 << bit;
            assert_eq!(Response::new(write_op("7"), flipped).decode(), Reading::CrcCheckFailed);
        }
    }
}

#[test]
fn read_response_value() {
    let bytes = with_crc(&[0x01, 0x03, 0x02, 0x01, 0x2A]);
    let r = Response::new(read_op(), bytes.clone());
    assert_eq!(r.decode(), Reading::Register(0x012A));
    let line = r.render("298");
    let c = crc(&bytes[..5]);
    let expected = format!(
        "\"ReadSingle\": op(0x01) -> 298: {{  01 03 02 01 2A {:02X} {:02X} }}",
        c & 0xFF,
        c >> 8
    );
    assert_eq!(line, expected);
}

#[test]
fn unexpected_lengths() {
    let eight = with_crc(&[0x01, 0x03, 0x02, 0x01, 0x2A, 0x00]);
    assert_eq!(Response::new(read_op(), eight).decode(), Reading::UnexpectedResponse);
    let seven = with_crc(&[0x01, 0x06, 0x00, 0x01, 0x00]);
    assert_eq!(Response::new(write_op("1"), seven).decode(), Reading::UnexpectedResponse);
}

#[test]
fn render_failures_and_write_echo() {
    let r = Response::new(read_op(), vec![1, 2]);
    assert_eq!(r.render("ignored"), "\"ReadSingle\": op(0x01) -> !InvalidResponse: {  01 02 }");
    let r = Response::new(read_op(), vec![]);
    assert_eq!(r.render("ignored"), "\"ReadSingle\": op(0x01) -> !InvalidResponse: {  }");
    let r = Response::new(read_op(), vec![1, 3, 2, 0, 0, 0, 0]);
    assert_eq!(
        r.render("ignored"),
        "\"ReadSingle\": op(0x01) -> !CRCCheckFailed: {  01 03 02 00 00 00 00 }"
    );
    let frame = write_op("100").to_modbus_bytes(&config(1)).to_vec();
    let r = Response::new(write_op("100"), frame.clone());
    let text = r.render("ignored");
    assert!(text.starts_with("\"WriteSingle\": op(0x01) -> 100: {  01 06 00 01 00 64"));
    let wide = Operation::try_from_view(view(OpType::ReadSingleRO, "0xABC", "", "val"), WriteValue::NotANumber)
        .unwrap();
    let r = Response::new(wide, vec![]);
    assert_eq!(r.render(""), "\"ReadSingleRO\": op(0xABC) -> !InvalidResponse: {  }");
}
