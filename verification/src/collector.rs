//! The event source: what the collector does with each thing that the audit
//! facility and the hand-off queue tell it.

use vstd::prelude::*;
use vstd::utf8::{decode_utf8, valid_utf8};

verus! {

/// Where the collector stands.
#[derive(Debug, Clone, Copy, PartialEq, Eq, Structural)]
pub enum CollectorState {
    /// Not connected to the audit facility yet.
    Connecting,
    /// Connected: records are received and handed on.
    Running,
    /// Collection has ended, and will not start again.
    Stopped,
}

/// Something that happened to the collector. `R` is the form in which a
/// record comes.
#[derive(Debug, Clone, PartialEq, Eq)]
pub enum SourceEvent<R> {
    /// The connection to the audit facility could not be made.
    ConnectFailed,
    /// The connection to the audit facility stands.
    Connected,
    /// The facility delivered a record.
    Record(R),
    /// The facility delivered something that could not be received.
    ReceiveError,
    /// The hand-off queue took the record that was forwarded.
    Forwarded,
    /// The hand-off queue has no consumer any more.
    SinkClosed,
    /// The facility has disconnected.
    SourceClosed,
}

/// What the collector does next.
#[derive(Debug, Clone, PartialEq, Eq)]
pub enum CollectorAction {
    /// Connect to the audit facility.
    Connect,
    /// Wait for the next record.
    Receive,
    /// Push this record into the hand-off queue.
    Forward(String),
    /// End collection.
    Stop,
}

/// A `CollectorAction` as plain values.
pub ghost enum CollectorActionView {
    Connect,
    Receive,
    Forward(Seq<char>),
    Stop,
}

impl View for CollectorAction {
    type V = CollectorActionView;

    open spec fn view(&self) -> CollectorActionView {
        match self {
            CollectorAction::Connect => CollectorActionView::Connect,
            CollectorAction::Receive => CollectorActionView::Receive,
            CollectorAction::Forward(record) => CollectorActionView::Forward(record@),
            CollectorAction::Stop => CollectorActionView::Stop,
        }
    }
}

/// The text that a record's bytes are read as: the bytes decoded as UTF-8,
/// each part that is no UTF-8 giving way to the replacement character.
pub uninterp spec fn lossy_text(bytes: Seq<u8>) -> Seq<char>;

/// The collector's rules.
///
/// While connecting, only a connection that stands starts collection;
/// anything else ends it before a single record was taken. While running, a
/// record is forwarded, a receive error is passed over, and collection goes
/// on after each; it ends when the hand-off queue has lost its consumer or
/// the facility has disconnected. Once stopped, the collector stays
/// stopped.
pub open spec fn transition(state: CollectorState, event: SourceEvent<Seq<char>>) -> (
    CollectorState,
    CollectorActionView,
) {
    match (state, event) {
        (CollectorState::Connecting, SourceEvent::Connected) => (
            CollectorState::Running,
            CollectorActionView::Receive,
        ),
        (CollectorState::Running, SourceEvent::Record(record)) => (
            CollectorState::Running,
            CollectorActionView::Forward(record),
        ),
        (CollectorState::Running, SourceEvent::ReceiveError) => (
            CollectorState::Running,
            CollectorActionView::Receive,
        ),
        (CollectorState::Running, SourceEvent::Forwarded) => (
            CollectorState::Running,
            CollectorActionView::Receive,
        ),
        _ => (CollectorState::Stopped, CollectorActionView::Stop),
    }
}

/// An event whose record is a string, as plain values.
pub open spec fn as_text(event: SourceEvent<String>) -> SourceEvent<Seq<char>> {
    match event {
        SourceEvent::ConnectFailed => SourceEvent::ConnectFailed,
        SourceEvent::Connected => SourceEvent::Connected,
        SourceEvent::Record(record) => SourceEvent::Record(record@),
        SourceEvent::ReceiveError => SourceEvent::ReceiveError,
        SourceEvent::Forwarded => SourceEvent::Forwarded,
        SourceEvent::SinkClosed => SourceEvent::SinkClosed,
        SourceEvent::SourceClosed => SourceEvent::SourceClosed,
    }
}

/// An event whose record is raw bytes, with the record read as text.
pub open spec fn decoded(event: SourceEvent<Vec<u8>>) -> SourceEvent<Seq<char>> {
    match event {
        SourceEvent::ConnectFailed => SourceEvent::ConnectFailed,
        SourceEvent::Connected => SourceEvent::Connected,
        SourceEvent::Record(bytes) => SourceEvent::Record(lossy_text(bytes@)),
        SourceEvent::ReceiveError => SourceEvent::ReceiveError,
        SourceEvent::Forwarded => SourceEvent::Forwarded,
        SourceEvent::SinkClosed => SourceEvent::SinkClosed,
        SourceEvent::SourceClosed => SourceEvent::SourceClosed,
    }
}

/// Reads bytes as text: `String::from_utf8_lossy`.
///
/// Bytes that are valid UTF-8 give the text that they encode. Of other
/// bytes the contract says only that the same bytes give the same text.
#[verifier::external_body]
fn decode_lossy(bytes: &Vec<u8>) -> (text: String)
    ensures
        text@ == lossy_text(bytes@),
        valid_utf8(bytes@) ==> text@ == decode_utf8(bytes@),
{
    String::from_utf8_lossy(bytes).into_owned()
}

/// Where a collector starts, and what it does first.
pub fn start() -> (first: (CollectorState, CollectorAction))
    ensures
        first.0 == CollectorState::Connecting,
        first.1@ == CollectorActionView::Connect,
{
    (CollectorState::Connecting, CollectorAction::Connect)
}

/// One step of the collector, for an event whose record is text already.
pub fn collector_step(state: CollectorState, event: SourceEvent<String>) -> (next: (
    CollectorState,
    CollectorAction,
))
    ensures
        (next.0, next.1@) == transition(state, as_text(event)),
{
    match (state, event) {
        (CollectorState::Connecting, SourceEvent::Connected) => (
            CollectorState::Running,
            CollectorAction::Receive,
        ),
        (CollectorState::Running, SourceEvent::Record(record)) => (
            CollectorState::Running,
            CollectorAction::Forward(record),
        ),
        (CollectorState::Running, SourceEvent::ReceiveError) => (
            CollectorState::Running,
            CollectorAction::Receive,
        ),
        (CollectorState::Running, SourceEvent::Forwarded) => (
            CollectorState::Running,
            CollectorAction::Receive,
        ),
        _ => (CollectorState::Stopped, CollectorAction::Stop),
    }
}

/// One step of the collector, for an event as the audit facility gives it:
/// a record comes as raw bytes, and is read as text before it is forwarded.
pub fn collect_events(state: CollectorState, event: SourceEvent<Vec<u8>>) -> (next: (
    CollectorState,
    CollectorAction,
))
    ensures
        (next.0, next.1@) == transition(state, decoded(event)),
        state is Running ==> (event matches SourceEvent::Record(bytes) ==> (valid_utf8(bytes@)
            ==> next.1@ == CollectorActionView::Forward(decode_utf8(bytes@)))),
{
    let event = match event {
        SourceEvent::ConnectFailed => SourceEvent::ConnectFailed,
        SourceEvent::Connected => SourceEvent::Connected,
        SourceEvent::Record(bytes) => SourceEvent::Record(decode_lossy(&bytes)),
        SourceEvent::ReceiveError => SourceEvent::ReceiveError,
        SourceEvent::Forwarded => SourceEvent::Forwarded,
        SourceEvent::SinkClosed => SourceEvent::SinkClosed,
        SourceEvent::SourceClosed => SourceEvent::SourceClosed,
    };
    collector_step(state, event)
}

} // verus!
