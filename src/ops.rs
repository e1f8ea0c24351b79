use vstd::prelude::*;

use crate::text::{decimal_of, push_decimal};

verus! {

/// The kind of an operation, before its details are filled in.
#[derive(Debug, Copy, Clone, PartialEq, Eq, Structural)]
pub enum OpType {
    ReadSingle,
    WriteSingle,
    ReadSingleRO,
}

/// The label of an operation kind, as a picker shows it.
pub open spec fn op_type_label(t: OpType) -> Seq<char> {
    match t {
        OpType::ReadSingle => "Read Single"@,
        OpType::WriteSingle => "Write Single"@,
        OpType::ReadSingleRO => "Read Single RO"@,
    }
}

impl OpType {
    pub fn label(&self) -> (r: &'static str)
        ensures
            r@ == op_type_label(*self),
    {
        match self {
            OpType::ReadSingle => "Read Single",
            OpType::WriteSingle => "Write Single",
            OpType::ReadSingleRO => "Read Single RO",
        }
    }
}

/// An operation as the user typed it: every field is still text.
#[derive(Debug, PartialEq, Eq)]
pub struct OpView {
    pub name: String,
    pub op_type: OpType,
    pub op_addr: String,
    pub op_val: String,
    pub eval_str: String,
}

impl Clone for OpView {
    fn clone(&self) -> (r: Self)
        ensures
            r == *self,
    {
        OpView {
            name: self.name.clone(),
            op_type: self.op_type,
            op_addr: self.op_addr.clone(),
            op_val: self.op_val.clone(),
            eval_str: self.eval_str.clone(),
        }
    }
}

/// An edit of one field of an operation, or a request to send it.
#[derive(Debug, PartialEq, Eq)]
pub enum OpViewMessage {
    SetName(String),
    SelectOpType(OpType),
    SetOpAddr(String),
    SetOpValue(String),
    SetEval(String),
    SendRequest(OpView),
}

/// The operation after an edit.
pub open spec fn edited(v: OpView, m: OpViewMessage) -> OpView {
    match m {
        OpViewMessage::SetName(s) => OpView { name: s, ..v },
        OpViewMessage::SelectOpType(t) => OpView { op_type: t, ..v },
        OpViewMessage::SetOpAddr(s) => OpView { op_addr: s, ..v },
        OpViewMessage::SetOpValue(s) => OpView { op_val: s, ..v },
        OpViewMessage::SetEval(s) => OpView { eval_str: s, ..v },
        OpViewMessage::SendRequest(_) => v,
    }
}

impl OpView {
    pub fn new(
        name: String,
        op_type: OpType,
        op_addr: String,
        op_val: String,
        eval_str: String,
    ) -> (r: Self)
        ensures
            r == (OpView { name, op_type, op_addr, op_val, eval_str }),
    {
        OpView { name, op_type, op_addr, op_val, eval_str }
    }

    /// Applies an edit; a send request is the caller's to handle.
    pub fn update(&mut self, message: OpViewMessage)
        requires
            !(message is SendRequest),
        ensures
            *final(self) == edited(*old(self), message),
    {
        match message {
            OpViewMessage::SetName(val) => {
                self.name = val;
            },
            OpViewMessage::SelectOpType(op_type) => {
                self.op_type = op_type;
            },
            OpViewMessage::SetOpAddr(val) => {
                self.op_addr = val;
            },
            OpViewMessage::SetOpValue(val) => {
                self.op_val = val;
            },
            OpViewMessage::SetEval(val) => {
                self.eval_str = val;
            },
            OpViewMessage::SendRequest(_) => {},
        }
    }
}

/// An ordered list of operations as the user typed them.
#[derive(Debug, PartialEq, Eq)]
pub struct OpViewList {
    ops: Vec<OpView>,
}

/// An edit of the list, of one of its operations, or a request to send one.
#[derive(Debug, PartialEq, Eq)]
pub enum OpViewListMessage {
    AddOperation,
    RemoveOperation(usize),
    OpViewMessage(usize, OpViewMessage),
    SendRequest(OpView),
}

/// `v` is the operation that `AddOperation` appends, with `name` the decimal
/// position it takes: a holding-register read with no address or value and
/// the identity transform.
pub open spec fn fresh_op(name: Seq<char>, v: OpView) -> bool {
    &&& v.name@ == name
    &&& v.op_type == OpType::ReadSingle
    &&& v.op_addr@ == Seq::<char>::empty()
    &&& v.op_val@ == Seq::<char>::empty()
    &&& v.eval_str@ == "val"@
}

impl View for OpViewList {
    type V = Seq<OpView>;

    closed spec fn view(&self) -> Seq<OpView> {
        self.ops@
    }
}

impl Default for OpViewList {
    fn default() -> (r: Self)
        ensures
            r@ == Seq::<OpView>::empty(),
    {
        OpViewList { ops: Vec::new() }
    }
}

impl OpViewList {
    pub fn from_ops(ops: Vec<OpView>) -> (r: Self)
        ensures
            r@ == ops@,
    {
        OpViewList { ops }
    }

    /// The operations, in order.
    pub fn ops(&self) -> (r: &Vec<OpView>)
        ensures
            r@ == self@,
    {
        &self.ops
    }

    pub fn into_ops(self) -> (r: Vec<OpView>)
        ensures
            r@ == self@,
    {
        self.ops
    }

    /// Applies an edit to the list; a send request is the caller's to handle.
    pub fn update(&mut self, message: OpViewListMessage)
        requires
            !(message is SendRequest),
            message matches OpViewListMessage::RemoveOperation(i) ==> i < old(self)@.len(),
            message matches OpViewListMessage::OpViewMessage(i, m) ==> i < old(self)@.len()
                && !(m is SendRequest),
        ensures
            message is AddOperation ==> final(self)@.len() == old(self)@.len() + 1
                && final(self)@.drop_last() == old(self)@
                && fresh_op(decimal_of(old(self)@.len()), final(self)@.last()),
            message matches OpViewListMessage::RemoveOperation(i) ==> final(self)@ == old(
                self,
            )@.remove(i as int),
            message matches OpViewListMessage::OpViewMessage(i, m) ==> final(self)@ == old(
                self,
            )@.update(i as int, edited(old(self)@[i as int], m)),
    {
        match message {
            OpViewListMessage::AddOperation => {
                let mut name = String::new();
                push_decimal(&mut name, self.ops.len());
                let op = OpView::new(
                    name,
                    OpType::ReadSingle,
                    String::new(),
                    String::new(),
                    String::from_str("val"),
                );
                self.ops.push(op);
                assert(self.ops@.drop_last() =~= old(self).ops@);
            },
            OpViewListMessage::RemoveOperation(idx) => {
                self.ops.remove(idx);
            },
            OpViewListMessage::OpViewMessage(idx, msg) => {
                let mut op = self.ops.remove(idx);
                op.update(msg);
                self.ops.insert(idx, op);
                assert(self.ops@ =~= old(self).ops@.update(idx as int, edited(old(self).ops@[idx as int], msg)));
            },
            OpViewListMessage::SendRequest(_) => {},
        }
    }
}

} // verus!
