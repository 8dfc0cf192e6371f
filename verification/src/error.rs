use vstd::prelude::*;

verus! {

/// The errors of the bus. Each holds the text of its message.
#[derive(Debug)]
pub enum BusError {
    Serialization(String),
    Database(String),
    Configuration(String),
    MetaData(String),
    Context(String),
    Handler(String),
    /// An error raised by user code.
    Generic(String),
}

/// What the error displays.
pub open spec fn display_spec(e: BusError) -> Seq<char> {
    match e {
        BusError::Context(m) => "Bus Context error: "@ + m@,
        BusError::Handler(m) => "Bus Handler error: "@ + m@,
        BusError::Serialization(m) => "Bus Serialization error: "@ + m@,
        BusError::Database(m) => "Bus Database error: "@ + m@,
        BusError::Configuration(m) => "Bus Configuration error: "@ + m@,
        BusError::Generic(m) => "Bus Generic error: "@ + m@,
        BusError::MetaData(m) => "Bus MetaData error: "@ + m@,
    }
}

/// The kinds of bus errors.
#[derive(Clone, Copy, Debug, PartialEq, Eq, Structural)]
pub enum BusErrorKind {
    Serialization,
    Database,
    Configuration,
    MetaData,
    Context,
    Handler,
    Generic,
}

impl View for BusError {
    /// An error is seen as its kind and the text of its message.
    type V = (BusErrorKind, Seq<char>);

    open spec fn view(&self) -> (BusErrorKind, Seq<char>) {
        match self {
            BusError::Serialization(m) => (BusErrorKind::Serialization, m@),
            BusError::Database(m) => (BusErrorKind::Database, m@),
            BusError::Configuration(m) => (BusErrorKind::Configuration, m@),
            BusError::MetaData(m) => (BusErrorKind::MetaData, m@),
            BusError::Context(m) => (BusErrorKind::Context, m@),
            BusError::Handler(m) => (BusErrorKind::Handler, m@),
            BusError::Generic(m) => (BusErrorKind::Generic, m@),
        }
    }
}

/// A configuration error with the given message, as seen.
pub open spec fn configuration(m: Seq<char>) -> (BusErrorKind, Seq<char>) {
    (BusErrorKind::Configuration, m)
}

impl BusError {
    /// The text that the error displays.
    pub fn to_display_string(&self) -> (s: String)
        ensures
            s@ == display_spec(*self),
    {
        match self {
            BusError::Context(m) => crate::text::concat2("Bus Context error: ", m.as_str()),
            BusError::Handler(m) => crate::text::concat2("Bus Handler error: ", m.as_str()),
            BusError::Serialization(m) => crate::text::concat2("Bus Serialization error: ", m.as_str()),
            BusError::Database(m) => crate::text::concat2("Bus Database error: ", m.as_str()),
            BusError::Configuration(m) => crate::text::concat2("Bus Configuration error: ", m.as_str()),
            BusError::Generic(m) => crate::text::concat2("Bus Generic error: ", m.as_str()),
            BusError::MetaData(m) => crate::text::concat2("Bus MetaData error: ", m.as_str()),
        }
    }
}

} // verus!
