use vstd::prelude::*;

use crate::engine::OpMessage;
use crate::error::{ErrKind, Error};
use crate::message_sender::{build_outcome, built_as, operations_from_views, Operation, WriteValue};
use crate::ops::{OpView, OpViewList};
use crate::port_op::{config_from, port_option_problem, PortConfig, PortOption};

verus! {

/// Validates a one-shot query on the caller's side and builds the message for
/// the engine: the operation first, then the port settings. Errors found here
/// never reach the engine.
pub fn one_shot_request(op: OpView, write: WriteValue, option: PortOption) -> (r: Result<
    OpMessage,
    Error,
>)
    ensures
        build_outcome(op, write) is Ok && port_option_problem(option) is None <==> r is Ok,
        r matches Ok(m) ==> m matches OpMessage::OneShot(c, o) && c == config_from(option)
            && build_outcome(op, write) == Ok::<Operation, (ErrKind, Seq<char>)>(o),
        build_outcome(op, write) is Err ==> built_as(
            Err(r->Err_0),
            build_outcome(op, write),
        ),
        build_outcome(op, write) is Ok && port_option_problem(option) is Some ==> (r matches Err(e)
            && e.spec_kind() == ErrKind::InvalidPortOption && port_option_problem(option) == Some(
            e.spec_message(),
        )),
{
    let o = match Operation::try_from_view(op, write) {
        Ok(o) => o,
        Err(e) => {
            return Err(e);
        },
    };
    let c = match PortConfig::try_from_option(option) {
        Ok(c) => c,
        Err(e) => {
            return Err(e);
        },
    };
    Ok(OpMessage::OneShot(c, o))
}

/// Validates a continuous query on the caller's side and builds the message
/// for the engine: every operation in order, then the port settings.
pub fn continuous_start_request(
    list: OpViewList,
    writes: Vec<WriteValue>,
    option: PortOption,
) -> (r: Result<OpMessage, Error>)
    requires
        writes@.len() == list@.len(),
    ensures
        (forall|i: int|
            0 <= i < list@.len() ==> (#[trigger] build_outcome(list@[i], writes@[i])) is Ok)
            && port_option_problem(option) is None <==> r is Ok,
        r matches Ok(m) ==> m matches OpMessage::StartContinuous(c, ops) && c == config_from(option)
            && ops@.len() == list@.len() && forall|i: int|
            0 <= i < list@.len() ==> build_outcome(list@[i], writes@[i]) == Ok::<
                Operation,
                (ErrKind, Seq<char>),
            >(#[trigger] ops@[i]),
        !(forall|i: int|
            0 <= i < list@.len() ==> (#[trigger] build_outcome(list@[i], writes@[i])) is Ok)
            ==> (r matches Err(e) && exists|i: int|
            0 <= i < list@.len() && (forall|j: int|
                0 <= j < i ==> (#[trigger] build_outcome(list@[j], writes@[j])) is Ok) && built_as(
                Err(e),
                #[trigger] build_outcome(list@[i], writes@[i]),
            )),
        (forall|i: int|
            0 <= i < list@.len() ==> (#[trigger] build_outcome(list@[i], writes@[i])) is Ok)
            && port_option_problem(option) is Some ==> (r matches Err(e) && e.spec_kind()
            == ErrKind::InvalidPortOption && port_option_problem(option) == Some(e.spec_message())),
{
    let ops = match operations_from_views(list, writes) {
        Ok(ops) => ops,
        Err(e) => {
            return Err(e);
        },
    };
    let c = match PortConfig::try_from_option(option) {
        Ok(c) => c,
        Err(e) => {
            return Err(e);
        },
    };
    Ok(OpMessage::StartContinuous(c, ops))
}

} // verus!
