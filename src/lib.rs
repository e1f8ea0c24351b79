//! A Modbus RTU master: request frames, response decoding and the port
//! operation engine that serialises one-shot and continuous queries.
pub mod engine;
pub mod error;
pub mod message_sender;
pub mod ops;
pub mod port_op;
pub mod read_to_timeout;
pub mod response_display;
pub mod session;
pub mod string_to_num;
pub mod text;
