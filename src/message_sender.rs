use vstd::prelude::*;

use crate::error::{ErrKind, Error};
use crate::ops::{OpType, OpView, OpViewList};
use crate::port_op::PortConfig;
use crate::string_to_num::{is_literal, literal_value, parse_num};
use crate::text::{quote, quoted};

verus! {

/// CRC-16/MODBUS of a byte sequence.
pub uninterp spec fn modbus_crc(bytes: Seq<u8>) -> u16;

/// Relies on crc's `Crc::<u16>::checksum` with the `CRC_16_MODBUS` algorithm:
/// the checksum is a function of the bytes alone.
#[verifier::external_body]
pub(crate) fn crc16(bytes: &[u8]) -> (r: u16)
    ensures
        r == modbus_crc(bytes@),
{
    crc::Crc::<u16>::new(&crc::CRC_16_MODBUS).checksum(bytes)
}

/// The text is a well-formed arithmetic expression.
pub uninterp spec fn parses_as_expression(text: Seq<char>) -> bool;

/// The text parses, and meval's built-in constants and functions together
/// with the variable `val` provide every name it uses.
pub uninterp spec fn binds_val(text: Seq<char>) -> bool;

/// Why a transform expression was not accepted.
#[derive(Debug, Copy, Clone, PartialEq, Eq, Structural)]
pub enum TransformFault {
    Unparsable,
    UnboundVariable,
}

/// A whitespace character as meval's tokenizer skips it.
pub open spec fn is_space(c: char) -> bool {
    c == ' ' || c == '\t' || c == '\r' || c == '\n'
}

/// The text is not empty and holds only whitespace. meval's tokenizer panics
/// on such a text instead of reporting an error, so it is never handed over.
pub open spec fn blank(text: Seq<char>) -> bool {
    text.len() > 0 && forall|i: int| 0 <= i < text.len() ==> is_space(#[trigger] text[i])
}

/// Whether `text` is blank.
pub fn is_blank(text: &str) -> (r: bool)
    ensures
        r == blank(text@),
{
    let n = text.unicode_len();
    if n == 0 {
        return false;
    }
    let mut i: usize = 0;
    while i < n
        invariant
            n == text@.len(),
            i <= n,
            forall|j: int| 0 <= j < i ==> is_space(#[trigger] text@[j]),
        decreases n - i,
    {
        let c = text.get_char(i);
        if !(c == ' ' || c == '\t' || c == '\r' || c == '\n') {
            return false;
        }
        i += 1;
    }
    true
}

/// Relies on meval's `Expr::from_str` and `Expr::bind("val")`: whether the text
/// parses, and whether it then becomes a function of `val`, depends on the text alone.
#[verifier::external_body]
fn compile_transform(text: &str) -> (r: Result<(), TransformFault>)
    requires
        !blank(text@),
    ensures
        r is Ok <==> binds_val(text@),
        r matches Err(TransformFault::Unparsable) <==> !parses_as_expression(text@),
{
    match text.parse::<meval::Expr>() {
        Err(_) => Err(TransformFault::Unparsable),
        Ok(expr) => match expr.bind("val") {
            Ok(_) => Ok(()),
            Err(_) => Err(TransformFault::UnboundVariable),
        },
    }
}

/// How the transform text compiles; a blank text is no expression.
pub open spec fn transform_status(text: Seq<char>) -> Result<(), TransformFault> {
    if blank(text) || !parses_as_expression(text) {
        Err(TransformFault::Unparsable)
    } else if !binds_val(text) {
        Err(TransformFault::UnboundVariable)
    } else {
        Ok(())
    }
}

/// A request to the slave: read a holding register, write one (with the value
/// shown to the user and the value sent on the wire), or read an input register.
#[derive(Debug, PartialEq)]
pub enum Request {
    ReadSingle(u16),
    WriteSingle(u16, String, u16),
    ReadSingleRO(u16),
}

impl Clone for Request {
    fn clone(&self) -> (r: Self)
        ensures
            r == *self,
    {
        match self {
            Request::ReadSingle(a) => Request::ReadSingle(*a),
            Request::WriteSingle(a, shown, raw) => Request::WriteSingle(*a, shown.clone(), *raw),
            Request::ReadSingleRO(a) => Request::ReadSingleRO(*a),
        }
    }
}

pub open spec fn request_addr(req: Request) -> u16 {
    match req {
        Request::ReadSingle(a) => a,
        Request::WriteSingle(a, _, _) => a,
        Request::ReadSingleRO(a) => a,
    }
}

pub open spec fn function_code(req: Request) -> u8 {
    match req {
        Request::ReadSingle(_) => 3,
        Request::WriteSingle(_, _, _) => 6,
        Request::ReadSingleRO(_) => 4,
    }
}

/// The 16-bit field after the address: the count 1 for reads, the raw value for writes.
pub open spec fn request_word(req: Request) -> u16 {
    match req {
        Request::WriteSingle(_, _, raw) => raw,
        _ => 1,
    }
}

pub open spec fn variant_name(req: Request) -> Seq<char> {
    match req {
        Request::ReadSingle(_) => "ReadSingle"@,
        Request::WriteSingle(_, _, _) => "WriteSingle"@,
        Request::ReadSingleRO(_) => "ReadSingleRO"@,
    }
}

/// The first six bytes of a request frame.
pub open spec fn frame_head(device_addr: u8, req: Request) -> Seq<u8> {
    let addr = request_addr(req);
    let word = request_word(req);
    seq![
        device_addr,
        function_code(req),
        (addr / 256) as u8,
        (addr % 256) as u8,
        (word / 256) as u8,
        (word % 256) as u8,
    ]
}

/// `head` followed by its CRC, low byte first.
pub open spec fn with_crc(head: Seq<u8>) -> Seq<u8> {
    head + seq![(modbus_crc(head) % 256) as u8, (modbus_crc(head) / 256) as u8]
}

/// The six head bytes followed by `crc`, low byte first.
pub open spec fn sealed(head: Seq<u8>, crc: u16) -> Seq<u8> {
    head + seq![(crc % 256) as u8, (crc / 256) as u8]
}

/// The whole request frame.
pub open spec fn frame_bytes(device_addr: u8, req: Request) -> Seq<u8> {
    with_crc(frame_head(device_addr, req))
}

/// The first six bytes of the frame for `req` on the slave at `device_addr`.
pub fn frame_head_bytes(device_addr: u8, req: &Request) -> (r: Vec<u8>)
    ensures
        r@ == frame_head(device_addr, *req),
{
    let (code, addr, word): (u8, u16, u16) = match req {
        Request::ReadSingle(a) => (3, *a, 1),
        Request::WriteSingle(a, _, raw) => (6, *a, *raw),
        Request::ReadSingleRO(a) => (4, *a, 1),
    };
    let r = vec![
        device_addr,
        code,
        (addr / 256) as u8,
        (addr % 256) as u8,
        (word / 256) as u8,
        (word % 256) as u8,
    ];
    assert(r@ =~= frame_head(device_addr, *req));
    r
}

/// Completes a frame: the six head bytes, then `crc` low byte first.
pub fn seal_frame(head: &[u8], crc: u16) -> (r: [u8; 8])
    requires
        head@.len() == 6,
    ensures
        r@ == sealed(head@, crc),
{
    let r = [head[0], head[1], head[2], head[3], head[4], head[5], (crc % 256) as u8, (crc / 256) as u8];
    assert(r@ =~= sealed(head@, crc));
    r
}

impl Request {
    pub fn variant_string(&self) -> (r: String)
        ensures
            r@ == variant_name(*self),
    {
        match self {
            Request::ReadSingle(_) => String::from_str("ReadSingle"),
            Request::WriteSingle(_, _, _) => String::from_str("WriteSingle"),
            Request::ReadSingleRO(_) => String::from_str("ReadSingleRO"),
        }
    }

    pub fn addr(&self) -> (r: u16)
        ensures
            r == request_addr(*self),
    {
        match self {
            Request::ReadSingle(a) => *a,
            Request::WriteSingle(a, _, _) => *a,
            Request::ReadSingleRO(a) => *a,
        }
    }
}

/// The write value, as far as it could be worked out from the user's text:
/// it is no number, or it is one (shown as `display`), and the transform
/// applied to it and rounded gives `rounded` (saturated to the `i64` range).
#[derive(Debug, PartialEq, Eq)]
pub enum WriteValue {
    NotANumber,
    Number(String, i64),
}

/// A validated operation: a name, a request and the transform's source text,
/// which is known to compile into a function of `val`.
#[derive(Debug, PartialEq)]
pub struct Operation {
    pub name: String,
    pub req: Request,
    pub(crate) eval_str: String,
}

impl Clone for Operation {
    fn clone(&self) -> (r: Self)
        ensures
            r == *self,
    {
        Operation { name: self.name.clone(), req: self.req.clone(), eval_str: self.eval_str.clone() }
    }
}

/// What building an operation from `v` and `w` gives, once the transform is
/// known to compile as `t` says: the operation, or the error's kind and message.
pub open(crate) spec fn build_checked(v: OpView, t: Result<(), TransformFault>, w: WriteValue) -> Result<
    Operation,
    (ErrKind, Seq<char>),
> {
    if t == Err::<(), TransformFault>(TransformFault::Unparsable) {
        Err(
            (
                ErrKind::MathOperationParseError,
                "Could not parse "@ + quoted(v.eval_str@, " into valid math expression"@),
            ),
        )
    } else if t is Err {
        Err((ErrKind::MathOperationParseError, "Expression must contain \"val\""@))
    } else if !(is_literal(v.op_addr@) && literal_value(v.op_addr@) <= u16::MAX) {
        Err((ErrKind::RequestParseError, quoted(v.op_addr@, " is not a valid register address"@)))
    } else {
        let addr = literal_value(v.op_addr@) as u16;
        match v.op_type {
            OpType::ReadSingle => Ok(
                Operation { name: v.name, req: Request::ReadSingle(addr), eval_str: v.eval_str },
            ),
            OpType::ReadSingleRO => Ok(
                Operation { name: v.name, req: Request::ReadSingleRO(addr), eval_str: v.eval_str },
            ),
            OpType::WriteSingle => match w {
                WriteValue::NotANumber => Err(
                    (ErrKind::RequestParseError, quoted(v.op_val@, " is not a valid register value"@)),
                ),
                WriteValue::Number(shown, rounded) => if 0 <= rounded <= u16::MAX {
                    Ok(
                        Operation {
                            name: v.name,
                            req: Request::WriteSingle(addr, shown, rounded as u16),
                            eval_str: v.eval_str,
                        },
                    )
                } else {
                    Err(
                        (
                            ErrKind::MathOperationResultInOutOfRangeValue,
                            v.op_val@ + " cannot be evaluated to a value in the range [0, 0xFFFF]"@,
                        ),
                    )
                },
            },
        }
    }
}

/// What building an operation from `v` and `w` gives.
pub open(crate) spec fn build_outcome(v: OpView, w: WriteValue) -> Result<
    Operation,
    (ErrKind, Seq<char>),
> {
    build_checked(v, transform_status(v.eval_str@), w)
}

/// `r` is what `build_outcome` says.
pub open(crate) spec fn built_as(r: Result<Operation, Error>, o: Result<Operation, (ErrKind, Seq<char>)>) -> bool {
    match (r, o) {
        (Ok(op), Ok(expected)) => op == expected,
        (Err(e), Err((kind, message))) => e.spec_kind() == kind && e.spec_message() == message,
        _ => false,
    }
}

impl Operation {
    /// The transform's source text.
    pub fn eval_str(&self) -> (r: &str)
        ensures
            r@ == self.spec_eval_str(),
    {
        self.eval_str.as_str()
    }

    pub open(crate) spec fn spec_eval_str(&self) -> Seq<char> {
        self.eval_str@
    }

    pub open(crate) spec fn spec_name(&self) -> Seq<char> {
        self.name@
    }

    pub open(crate) spec fn spec_req(&self) -> Request {
        self.req
    }

    /// Validates an operation, in this order: the transform must compile into
    /// a function of `val`; the address must be a literal that fits `u16`; for a
    /// write, the value must be a number whose transformed, rounded value lies
    /// in `[0, 0xFFFF]`. The first failure is returned.
    pub fn try_from_view(value: OpView, write: WriteValue) -> (r: Result<Operation, Error>)
        ensures
            built_as(r, build_outcome(value, write)),
    {
        let status = if is_blank(value.eval_str.as_str()) {
            Err(TransformFault::Unparsable)
        } else {
            compile_transform(value.eval_str.as_str())
        };
        Self::try_from_checked(value, status, write)
    }

    /// Validates an operation whose transform compiles as `transform` says;
    /// the rest as [`Operation::try_from_view`].
    pub fn try_from_checked(
        value: OpView,
        transform: Result<(), TransformFault>,
        write: WriteValue,
    ) -> (r: Result<Operation, Error>)
        ensures
            built_as(r, build_checked(value, transform, write)),
    {
        let OpView { name, op_type, op_addr, op_val, eval_str } = value;
        match transform {
            Ok(()) => {},
            Err(TransformFault::Unparsable) => {
                let mut m = String::from_str("Could not parse ");
                m.append(quote(eval_str.as_str(), " into valid math expression").as_str());
                return Err(Error::with_message(ErrKind::MathOperationParseError, m));
            },
            Err(TransformFault::UnboundVariable) => {
                return Err(
                    Error::with_message(
                        ErrKind::MathOperationParseError,
                        String::from_str("Expression must contain \"val\""),
                    ),
                );
            },
        }
        let addr = match parse_num::<u16>(op_addr.as_str()) {
            Ok(a) => a,
            Err(_) => {
                return Err(
                    Error::with_message(
                        ErrKind::RequestParseError,
                        quote(op_addr.as_str(), " is not a valid register address"),
                    ),
                );
            },
        };
        let req = match op_type {
            OpType::ReadSingle => Request::ReadSingle(addr),
            OpType::ReadSingleRO => Request::ReadSingleRO(addr),
            OpType::WriteSingle => match write {
                WriteValue::NotANumber => {
                    return Err(
                        Error::with_message(
                            ErrKind::RequestParseError,
                            quote(op_val.as_str(), " is not a valid register value"),
                        ),
                    );
                },
                WriteValue::Number(shown, rounded) => {
                    if rounded < 0 || rounded > 0xFFFF {
                        let mut m = op_val;
                        m.append(" cannot be evaluated to a value in the range [0, 0xFFFF]");
                        return Err(
                            Error::with_message(ErrKind::MathOperationResultInOutOfRangeValue, m),
                        );
                    }
                    Request::WriteSingle(addr, shown, rounded as u16)
                },
            },
        };
        Ok(Operation { name, req, eval_str })
    }

    /// The request frame for this operation on the slave of `port_conf`:
    /// device address, function code, register address and value (both high
    /// byte first), then the CRC-16/MODBUS of those six bytes, low byte first.
    pub fn to_modbus_bytes(&self, port_conf: &PortConfig) -> (r: [u8; 8])
        ensures
            r@ == frame_bytes(port_conf.device_addr, self.spec_req()),
    {
        let head = frame_head_bytes(port_conf.device_addr, &self.req);
        let crc = crc16(head.as_slice());
        seal_frame(head.as_slice(), crc)
    }
}

/// Builds every operation of a list, each with its write value, in order; the
/// first failure is returned.
pub fn operations_from_views(list: OpViewList, writes: Vec<WriteValue>) -> (r: Result<
    Vec<Operation>,
    Error,
>)
    requires
        writes@.len() == list@.len(),
    ensures
        r is Ok <==> forall|i: int|
            0 <= i < list@.len() ==> (#[trigger] build_outcome(list@[i], writes@[i])) is Ok,
        r matches Ok(ops) ==> ops@.len() == list@.len() && forall|i: int|
            0 <= i < list@.len() ==> build_outcome(list@[i], writes@[i]) == Ok::<
                Operation,
                (ErrKind, Seq<char>),
            >(#[trigger] ops@[i]),
        r matches Err(e) ==> exists|i: int|
            0 <= i < list@.len() && (forall|j: int|
                0 <= j < i ==> (#[trigger] build_outcome(list@[j], writes@[j])) is Ok) && built_as(
                Err(e),
                #[trigger] build_outcome(list@[i], writes@[i]),
            ),
{
    let ghost views = list@;
    let ghost ws = writes@;
    let mut rest = list.into_ops();
    let mut rest_writes = writes;
    let mut ops: Vec<Operation> = Vec::new();
    let n = rest.len();
    let mut i: usize = 0;
    while i < n
        invariant
            views == list@,
            ws == writes@,
            n == views.len(),
            ws.len() == views.len(),
            i <= n,
            rest@ == views.skip(i as int),
            rest_writes@ == ws.skip(i as int),
            ops@.len() == i,
            forall|j: int|
                0 <= j < i ==> build_outcome(views[j], ws[j]) == Ok::<
                    Operation,
                    (ErrKind, Seq<char>),
                >(#[trigger] ops@[j]),
        decreases n - i,
    {
        let v = rest.remove(0);
        let w = rest_writes.remove(0);
        assert(v == views[i as int]);
        assert(w == ws[i as int]);
        match Operation::try_from_view(v, w) {
            Ok(op) => {
                ops.push(op);
            },
            Err(e) => {
                assert forall|j: int| 0 <= j < i implies (#[trigger] build_outcome(
                    views[j],
                    ws[j],
                )) is Ok by {
                    assert(build_outcome(views[j], ws[j]) == Ok::<Operation, (ErrKind, Seq<char>)>(
                        ops@[j],
                    ));
                }
                assert(built_as(Err(e), build_outcome(views[i as int], ws[i as int])));
                assert(!(build_outcome(views[i as int], ws[i as int]) is Ok));
                return Err(e);
            },
        }
        assert(rest@ =~= views.skip(i + 1));
        assert(rest_writes@ =~= ws.skip(i + 1));
        i += 1;
    }
    assert forall|j: int| 0 <= j < n implies (#[trigger] build_outcome(views[j], ws[j])) is Ok by {
        assert(build_outcome(views[j], ws[j]) == Ok::<Operation, (ErrKind, Seq<char>)>(ops@[j]));
    }
    Ok(ops)
}

} // verus!
