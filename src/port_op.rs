use vstd::prelude::*;

use crate::error::{ErrKind, Error};
use crate::message_sender::{
    crc16, modbus_crc, request_addr, variant_name, with_crc, Operation, Request,
};
use crate::string_to_num::{is_literal, literal_value, parse_num};
use crate::text::{hex_at_least_two, push_char, push_hex, quote, quoted};

verus! {

/// The parity bit of a serial frame.
#[derive(Debug, Copy, Clone, PartialEq, Eq, Structural)]
pub enum Parity {
    NoParity,
    Odd,
    Even,
}

/// The number of stop bits of a serial frame.
#[derive(Debug, Copy, Clone, PartialEq, Eq, Structural)]
pub enum StopBits {
    One,
    Two,
}

impl Parity {
    pub fn label(&self) -> (r: &'static str)
        ensures
            r@ == match *self {
                Parity::NoParity => "None"@,
                Parity::Odd => "Odd"@,
                Parity::Even => "Even"@,
            },
    {
        match self {
            Parity::NoParity => "None",
            Parity::Odd => "Odd",
            Parity::Even => "Even",
        }
    }
}

impl StopBits {
    pub fn label(&self) -> (r: &'static str)
        ensures
            r@ == match *self {
                StopBits::One => "One"@,
                StopBits::Two => "Two"@,
            },
    {
        match self {
            StopBits::One => "One",
            StopBits::Two => "Two",
        }
    }
}

/// Every parity, in the order a picker lists them.
pub fn parities() -> (r: Vec<Parity>)
    ensures
        r@ == seq![Parity::NoParity, Parity::Odd, Parity::Even],
{
    vec![Parity::NoParity, Parity::Odd, Parity::Even]
}

/// Every stop-bit setting, in the order a picker lists them.
pub fn stop_bits_all() -> (r: Vec<StopBits>)
    ensures
        r@ == seq![StopBits::One, StopBits::Two],
{
    vec![StopBits::One, StopBits::Two]
}

/// Port settings as the user entered them; any of them may be missing or malformed.
#[derive(Debug, PartialEq, Eq)]
pub struct PortOption {
    pub port_name: Option<String>,
    pub baud: String,
    pub stop_bits: Option<StopBits>,
    pub parity: Option<Parity>,
    pub device_addr: String,
}

impl Clone for PortOption {
    fn clone(&self) -> (r: Self)
        ensures
            r == *self,
    {
        let port_name = match &self.port_name {
            Some(n) => Some(n.clone()),
            None => None,
        };
        PortOption {
            port_name,
            baud: self.baud.clone(),
            stop_bits: self.stop_bits,
            parity: self.parity,
            device_addr: self.device_addr.clone(),
        }
    }
}

impl Default for PortOption {
    fn default() -> (r: Self)
        ensures
            r.port_name is None,
            r.baud@ == Seq::<char>::empty(),
            r.stop_bits is None,
            r.parity is None,
            r.device_addr@ == Seq::<char>::empty(),
    {
        PortOption {
            port_name: None,
            baud: String::new(),
            stop_bits: None,
            parity: None,
            device_addr: String::new(),
        }
    }
}

/// Validated port settings. Two configurations are compatible exactly when
/// they are equal.
#[derive(Debug)]
pub struct PortConfig {
    pub port_name: String,
    pub baud: u32,
    pub stop_bits: StopBits,
    pub parity: Parity,
    pub device_addr: u8,
}

/// Equality of configurations, field by field.
pub open spec fn same_config(a: PortConfig, b: PortConfig) -> bool {
    &&& a.port_name@ == b.port_name@
    &&& a.baud == b.baud
    &&& a.stop_bits == b.stop_bits
    &&& a.parity == b.parity
    &&& a.device_addr == b.device_addr
}

impl PartialEq for PortConfig {
    fn eq(&self, other: &PortConfig) -> (r: bool)
        ensures
            r == same_config(*self, *other),
    {
        self.port_name == other.port_name && self.baud == other.baud && self.stop_bits
            == other.stop_bits && self.parity == other.parity && self.device_addr
            == other.device_addr
    }
}

impl vstd::std_specs::cmp::PartialEqSpecImpl for PortConfig {
    open spec fn obeys_eq_spec() -> bool {
        true
    }

    open spec fn eq_spec(&self, other: &PortConfig) -> bool {
        same_config(*self, *other)
    }
}

impl Eq for PortConfig {

}

impl Clone for PortConfig {
    fn clone(&self) -> (r: Self)
        ensures
            r == *self,
    {
        PortConfig {
            port_name: self.port_name.clone(),
            baud: self.baud,
            stop_bits: self.stop_bits,
            parity: self.parity,
            device_addr: self.device_addr,
        }
    }
}

impl Default for PortConfig {
    fn default() -> (r: Self)
        ensures
            r.port_name@ == Seq::<char>::empty(),
            r.baud == 0,
            r.stop_bits == StopBits::One,
            r.parity == Parity::NoParity,
            r.device_addr == 0,
    {
        PortConfig {
            port_name: String::new(),
            baud: 0,
            stop_bits: StopBits::One,
            parity: Parity::NoParity,
            device_addr: 0,
        }
    }
}

/// The outcome of validating port settings: the error kind is always
/// `InvalidPortOption`, and the message says what was wrong.
pub open spec fn port_option_problem(o: PortOption) -> Option<Seq<char>> {
    if o.port_name is None || o.baud@.len() == 0 || o.stop_bits is None || o.parity is None {
        Some("Must select all port options"@)
    } else if !(is_literal(o.baud@) && literal_value(o.baud@) <= u32::MAX) {
        Some(quoted(o.baud@, " is not a valid baud"@))
    } else if !(is_literal(o.device_addr@) && literal_value(o.device_addr@) <= u8::MAX) {
        Some(quoted(o.device_addr@, " is not a valid device address"@))
    } else {
        None
    }
}

/// The configuration that valid settings `o` describe.
pub open spec fn config_from(o: PortOption) -> PortConfig {
    PortConfig {
        port_name: o.port_name->0,
        baud: literal_value(o.baud@) as u32,
        stop_bits: o.stop_bits->0,
        parity: o.parity->0,
        device_addr: literal_value(o.device_addr@) as u8,
    }
}

impl PortConfig {
    pub fn new(
        port_name: String,
        baud: u32,
        stop_bits: StopBits,
        parity: Parity,
        device_addr: u8,
    ) -> (r: Self)
        ensures
            r == (PortConfig { port_name, baud, stop_bits, parity, device_addr }),
    {
        PortConfig { port_name, baud, stop_bits, parity, device_addr }
    }

    /// Validates the settings: all of them must be chosen, the baud must be a
    /// literal that fits `u32` and the device address one that fits `u8`.
    pub fn try_from_option(option: PortOption) -> (r: Result<PortConfig, Error>)
        ensures
            port_option_problem(option) is None <==> r is Ok,
            r matches Ok(c) ==> c == config_from(option),
            r matches Err(e) ==> e.spec_kind() == ErrKind::InvalidPortOption && port_option_problem(
                option,
            ) == Some(e.spec_message()),
    {
        let PortOption { port_name, baud, stop_bits, parity, device_addr } = option;
        if port_name.is_none() || baud.as_str().unicode_len() == 0 || stop_bits.is_none()
            || parity.is_none() {
            return Err(
                Error::with_message(
                    ErrKind::InvalidPortOption,
                    String::from_str("Must select all port options"),
                ),
            );
        }
        let baud_value = match parse_num::<u32>(baud.as_str()) {
            Ok(v) => v,
            Err(_) => {
                return Err(
                    Error::with_message(
                        ErrKind::InvalidPortOption,
                        quote(baud.as_str(), " is not a valid baud"),
                    ),
                );
            },
        };
        let addr = match parse_num::<u8>(device_addr.as_str()) {
            Ok(v) => v,
            Err(_) => {
                return Err(
                    Error::with_message(
                        ErrKind::InvalidPortOption,
                        quote(device_addr.as_str(), " is not a valid device address"),
                    ),
                );
            },
        };
        let name = match port_name {
            Some(n) => n,
            None => String::new(),
        };
        let sb = match stop_bits {
            Some(s) => s,
            None => StopBits::One,
        };
        let p = match parity {
            Some(p) => p,
            None => Parity::NoParity,
        };
        Ok(PortConfig { port_name: name, baud: baud_value, stop_bits: sb, parity: p, device_addr: addr })
    }
}

/// The trailing two bytes of `b`, low byte first, are the CRC of the bytes before them.
pub open spec fn crc_matches(b: Seq<u8>) -> bool {
    &&& b.len() >= 2
    &&& modbus_crc(b.subrange(0, b.len() - 2)) as int == b[b.len() - 2] as int + 256 * b[b.len()
        - 1] as int
}

/// Appending the CRC of six bytes to them, low byte first, gives a frame that
/// passes the CRC check, so its reading is never a CRC failure.
pub proof fn lemma_appended_crc_passes(p: Seq<u8>)
    requires
        p.len() == 6,
    ensures
        crc_matches(with_crc(p)),
        forall|req: Request| reading_of(req, with_crc(p)) != Reading::CrcCheckFailed,
{
    let f = with_crc(p);
    assert(f.subrange(0, 6) =~= p);
}

/// What a response frame says about the request it answers.
#[derive(Debug, Copy, Clone, PartialEq, Eq, Structural)]
pub enum Reading {
    /// Fewer than five bytes.
    InvalidResponse,
    /// The trailing CRC does not match.
    CrcCheckFailed,
    /// A well-formed frame of the wrong length for the request.
    UnexpectedResponse,
    /// A read returned this register value.
    Register(u16),
    /// A write was acknowledged.
    WriteEcho,
}

/// The reading of response bytes `b` to request `req`, where `crc` is the
/// checksum of all but the last two bytes.
pub open spec fn reading_with(req: Request, b: Seq<u8>, crc: u16) -> Reading {
    if b.len() < 5 {
        Reading::InvalidResponse
    } else if crc as int != b[b.len() - 2] as int + 256 * b[b.len() - 1] as int {
        Reading::CrcCheckFailed
    } else {
        match req {
            Request::WriteSingle(_, _, _) => if b.len() != 8 {
                Reading::UnexpectedResponse
            } else {
                Reading::WriteEcho
            },
            _ => if b.len() != 7 {
                Reading::UnexpectedResponse
            } else {
                Reading::Register((256 * b[3] as int + b[4] as int) as u16)
            },
        }
    }
}

/// The reading of response bytes `b` to request `req`.
pub open spec fn reading_of(req: Request, b: Seq<u8>) -> Reading {
    if b.len() < 5 {
        Reading::InvalidResponse
    } else {
        reading_with(req, b, modbus_crc(b.subrange(0, b.len() - 2)))
    }
}

/// Decides what response bytes say about `req`, given the checksum `crc` of
/// all but their last two bytes: fewer than five bytes is invalid; else the
/// trailing CRC must equal `crc`; else a read wants seven bytes and gives the
/// register value in bytes 3 and 4 (high byte first), a write wants eight.
pub fn reading_from(req: &Request, b: &[u8], crc: u16) -> (r: Reading)
    ensures
        r == reading_with(*req, b@, crc),
{
    let n = b.len();
    if n < 5 {
        return Reading::InvalidResponse;
    }
    let msg_crc = b[n - 2] as u32 + 256 * b[n - 1] as u32;
    if crc as u32 != msg_crc {
        return Reading::CrcCheckFailed;
    }
    match req {
        Request::WriteSingle(_, _, _) => {
            if n != 8 {
                Reading::UnexpectedResponse
            } else {
                Reading::WriteEcho
            }
        },
        _ => {
            if n != 7 {
                Reading::UnexpectedResponse
            } else {
                Reading::Register(256 * b[3] as u16 + b[4] as u16)
            }
        },
    }
}

/// The bytes as ` XX` each, in order.
pub open spec fn bytes_hex(b: Seq<u8>) -> Seq<char>
    decreases b.len(),
{
    if b.len() == 0 {
        Seq::empty()
    } else {
        bytes_hex(b.drop_last()) + " "@ + hex_at_least_two(b.last() as nat)
    }
}

/// The text shown for a reading; `value_text` is the transformed register value.
pub open spec fn reading_text(r: Reading, req: Request, value_text: Seq<char>) -> Seq<char> {
    match r {
        Reading::InvalidResponse => "!InvalidResponse"@,
        Reading::CrcCheckFailed => "!CRCCheckFailed"@,
        Reading::UnexpectedResponse => "!UnexpectedResponse"@,
        Reading::Register(_) => value_text,
        Reading::WriteEcho => match req {
            Request::WriteSingle(_, shown, _) => shown@,
            _ => value_text,
        },
    }
}

/// One line describing a response: request kind, operation name, register
/// address, what the response says, and the frame in hexadecimal.
pub open spec fn response_line(req: Request, name: Seq<char>, outcome: Seq<char>, b: Seq<u8>) -> Seq<
    char,
> {
    "\""@ + variant_name(req) + "\": "@ + name + "(0x"@ + hex_at_least_two(request_addr(req) as nat)
        + ") -> "@ + outcome + ": "@ + "{ "@ + bytes_hex(b) + " }"@
}

/// The bytes that came back for an operation.
#[derive(Debug, PartialEq)]
pub struct Response {
    pub op: Operation,
    pub(crate) bytes: Vec<u8>,
}

impl Clone for Response {
    fn clone(&self) -> (r: Self)
        ensures
            r.spec_op() == self.spec_op(),
            r.spec_bytes() == self.spec_bytes(),
    {
        Response { op: self.op.clone(), bytes: self.bytes.clone() }
    }
}

impl Response {
    pub fn new(op: Operation, bytes: Vec<u8>) -> (r: Self)
        ensures
            r.spec_op() == op,
            r.spec_bytes() == bytes@,
    {
        Response { op, bytes }
    }

    pub open(crate) spec fn spec_op(&self) -> Operation {
        self.op
    }

    pub open(crate) spec fn spec_bytes(&self) -> Seq<u8> {
        self.bytes@
    }

    pub fn bytes(&self) -> (r: &[u8])
        ensures
            r@ == self.spec_bytes(),
    {
        self.bytes.as_slice()
    }

    /// Decides what the response says, as [`reading_from`] does with the
    /// CRC-16/MODBUS of all but the last two bytes.
    pub fn decode(&self) -> (r: Reading)
        ensures
            r == reading_of(self.spec_op().spec_req(), self.spec_bytes()),
            self.spec_bytes().len() < 5 ==> r == Reading::InvalidResponse,
    {
        let n = self.bytes.len();
        if n < 5 {
            return Reading::InvalidResponse;
        }
        let (body, _) = self.bytes.as_slice().split_at(n - 2);
        let crc = crc16(body);
        reading_from(&self.op.req, self.bytes.as_slice(), crc)
    }

    /// The line shown for this response. `value_text` is the text of the
    /// transformed register value; it is used only when a read succeeded.
    pub fn render(&self, value_text: &str) -> (r: String)
        ensures
            r@ == response_line(
                self.spec_op().spec_req(),
                self.spec_op().spec_name(),
                reading_text(
                    reading_of(self.spec_op().spec_req(), self.spec_bytes()),
                    self.spec_op().spec_req(),
                    value_text@,
                ),
                self.spec_bytes(),
            ),
    {
        let reading = self.decode();
        let mut r = String::from_str("\"");
        r.append(self.op.req.variant_string().as_str());
        r.append("\": ");
        r.append(self.op.name.as_str());
        r.append("(0x");
        push_hex(&mut r, self.op.req.addr() as u32);
        r.append(") -> ");
        match reading {
            Reading::InvalidResponse => r.append("!InvalidResponse"),
            Reading::CrcCheckFailed => r.append("!CRCCheckFailed"),
            Reading::UnexpectedResponse => r.append("!UnexpectedResponse"),
            Reading::Register(_) => r.append(value_text),
            Reading::WriteEcho => match &self.op.req {
                Request::WriteSingle(_, shown, _) => r.append(shown.as_str()),
                _ => r.append(value_text),
            },
        }
        r.append(": ");
        r.append("{ ");
        let ghost before = r@;
        let mut i: usize = 0;
        while i < self.bytes.len()
            invariant
                i <= self.bytes@.len(),
                r@ == before + bytes_hex(self.bytes@.take(i as int)),
            decreases self.bytes@.len() - i,
        {
            push_char(&mut r, ' ');
            push_hex(&mut r, self.bytes[i] as u32);
            proof {
                reveal_strlit(" ");
                let t = self.bytes@.take(i + 1);
                assert(t.drop_last() =~= self.bytes@.take(i as int));
                assert(t.last() == self.bytes@[i as int]);
                assert(bytes_hex(t) == bytes_hex(t.drop_last()) + " "@ + hex_at_least_two(
                    t.last() as nat,
                ));
                assert(r@ =~= before + bytes_hex(t));
            }
            i += 1;
        }
        assert(self.bytes@.take(i as int) =~= self.bytes@);
        r.append(" }");
        r
    }
}

} // verus!
