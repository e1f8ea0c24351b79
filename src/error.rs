use vstd::prelude::*;

verus! {

/// What went wrong, independent of the free-text detail.
#[derive(Debug, Copy, Clone, PartialEq, Eq, Structural)]
pub enum ErrKind {
    MathOperationParseError,
    RequestParseError,
    InvalidPortOption,
    MathOperationResultInOutOfRangeValue,
    FailedToOpenTargetPort,
    PortWriteFailed,
    PortOpThreadNotPresent,
    PortOpDroppedChannelTxWithoutResponse,
    PortTypeUnequal,
    AttemptToStartMultipleContinuousQuarry,
}

/// The name of a kind, as it is shown to the user.
pub open spec fn kind_name(kind: ErrKind) -> Seq<char> {
    match kind {
        ErrKind::MathOperationParseError => "MathOperationParseError"@,
        ErrKind::RequestParseError => "RequestParseError"@,
        ErrKind::InvalidPortOption => "InvalidPortOption"@,
        ErrKind::MathOperationResultInOutOfRangeValue => "MathOperationResultInOutOfRangeValue"@,
        ErrKind::FailedToOpenTargetPort => "FailedToOpenTargetPort"@,
        ErrKind::PortWriteFailed => "PortWriteFailed"@,
        ErrKind::PortOpThreadNotPresent => "PortOpThreadNotPresent"@,
        ErrKind::PortOpDroppedChannelTxWithoutResponse => "PortOpDroppedChannelTxWithoutResponse"@,
        ErrKind::PortTypeUnequal => "PortTypeUnequal"@,
        ErrKind::AttemptToStartMultipleContinuousQuarry => "AttemptToStartMultipleContinuousQuarry"@,
    }
}

impl ErrKind {
    pub fn name(&self) -> (r: &'static str)
        ensures
            r@ == kind_name(*self),
    {
        match self {
            ErrKind::MathOperationParseError => "MathOperationParseError",
            ErrKind::RequestParseError => "RequestParseError",
            ErrKind::InvalidPortOption => "InvalidPortOption",
            ErrKind::MathOperationResultInOutOfRangeValue => "MathOperationResultInOutOfRangeValue",
            ErrKind::FailedToOpenTargetPort => "FailedToOpenTargetPort",
            ErrKind::PortWriteFailed => "PortWriteFailed",
            ErrKind::PortOpThreadNotPresent => "PortOpThreadNotPresent",
            ErrKind::PortOpDroppedChannelTxWithoutResponse => "PortOpDroppedChannelTxWithoutResponse",
            ErrKind::PortTypeUnequal => "PortTypeUnequal",
            ErrKind::AttemptToStartMultipleContinuousQuarry => "AttemptToStartMultipleContinuousQuarry",
        }
    }
}

/// An error kind together with a free-text detail.
#[derive(Debug, Clone, PartialEq, Eq)]
pub struct Error {
    kind: ErrKind,
    message: String,
}

impl Error {
    /// Create an error with no message.
    pub fn new(kind: ErrKind) -> (r: Self)
        ensures
            r.spec_kind() == kind,
            r.spec_message() == Seq::<char>::empty(),
    {
        Error { kind, message: String::new() }
    }

    /// Create an error with a custom message.
    pub fn with_message(kind: ErrKind, message: String) -> (r: Self)
        ensures
            r.spec_kind() == kind,
            r.spec_message() == message@,
    {
        Error { kind, message }
    }

    pub closed spec fn spec_kind(&self) -> ErrKind {
        self.kind
    }

    pub closed spec fn spec_message(&self) -> Seq<char> {
        self.message@
    }

    pub fn kind(&self) -> (r: ErrKind)
        ensures
            r == self.spec_kind(),
    {
        self.kind
    }

    pub fn message(&self) -> (r: &str)
        ensures
            r@ == self.spec_message(),
    {
        self.message.as_str()
    }

    /// The text shown for this error: `Error: {Kind, message}`.
    pub fn describe(&self) -> (r: String)
        ensures
            r@ == "Error: {"@ + kind_name(self.spec_kind()) + ", "@ + self.spec_message() + "}"@,
    {
        let mut r = String::from_str("Error: {");
        r.append(self.kind.name());
        r.append(", ");
        r.append(self.message.as_str());
        r.append("}");
        r
    }
}

} // verus!
