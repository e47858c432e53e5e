//! The plain message shapes that cross the bridge: outbound messages for the
//! client and inbound messages from it, with their mathematical views.

use vstd::prelude::*;

verus! {

/// One outbound message for the client.
#[derive(Debug, Clone, PartialEq, Eq)]
pub enum OutMsg {
    /// The stream is over: the terminal source is exhausted.
    Close,
    /// Raw terminal bytes, forwarded unmodified.
    Bytes(Vec<u8>),
    /// The terminal switched into (`true`) or out of (`false`) the
    /// alternate screen.
    AltScreen(bool),
    /// Terminal output attributed to the open command block `id`,
    /// decoded as best-effort text.
    BlockChunk { id: String, text: String },
    /// A raw hook-event payload, forwarded verbatim.
    Event(String),
}

/// The mathematical shape of an outbound message.
pub enum OutSpec {
    Close,
    Bytes(Seq<u8>),
    AltScreen(bool),
    BlockChunk { id: Seq<char>, text: Seq<char> },
    Event(Seq<char>),
}

impl View for OutMsg {
    type V = OutSpec;

    open spec fn view(&self) -> OutSpec {
        match self {
            OutMsg::Close => OutSpec::Close,
            OutMsg::Bytes(b) => OutSpec::Bytes(b@),
            OutMsg::AltScreen(on) => OutSpec::AltScreen(*on),
            OutMsg::BlockChunk { id, text } => OutSpec::BlockChunk { id: id@, text: text@ },
            OutMsg::Event(s) => OutSpec::Event(s@),
        }
    }
}

/// The shapes of a batch of outbound messages, in order.
pub open spec fn views_of(msgs: Seq<OutMsg>) -> Seq<OutSpec> {
    msgs.map_values(|m: OutMsg| m@)
}

/// One inbound transport message, as plain data.
#[derive(Debug, Clone, PartialEq, Eq)]
pub enum InMsg {
    /// Raw binary keystrokes.
    Bytes(Vec<u8>),
    /// A text message: keystrokes, or a resize control in JSON form.
    Text(String),
    /// The client closed the stream.
    Close,
    /// Any other transport frame: ignored.
    Other,
}

/// What the input router decides to do with one inbound message.
#[derive(Debug, Clone, PartialEq, Eq)]
pub enum InAction {
    /// Write these bytes to the terminal.
    WriteBytes(Vec<u8>),
    /// Write this text to the terminal as literal keystrokes.
    WriteText(String),
    /// Resize the terminal; nothing reaches it as input.
    Resize { cols: u64, rows: u64 },
    /// Stop the input loop.
    Stop,
    /// Do nothing.
    Ignore,
}

/// The mathematical shape of an input action.
pub enum ActSpec {
    WriteBytes(Seq<u8>),
    WriteText(Seq<char>),
    Resize { cols: u64, rows: u64 },
    Stop,
    Ignore,
}

impl View for InAction {
    type V = ActSpec;

    open spec fn view(&self) -> ActSpec {
        match self {
            InAction::WriteBytes(b) => ActSpec::WriteBytes(b@),
            InAction::WriteText(t) => ActSpec::WriteText(t@),
            InAction::Resize { cols, rows } => ActSpec::Resize { cols: *cols, rows: *rows },
            InAction::Stop => ActSpec::Stop,
            InAction::Ignore => ActSpec::Ignore,
        }
    }
}

/// The view of an optional string, as an optional character sequence.
pub open spec fn opt_view(b: Option<String>) -> Option<Seq<char>> {
    match b {
        Some(s) => Some(s@),
        None => None,
    }
}

} // verus!
