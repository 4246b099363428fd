//! Normalisation: the schemas are tried in a fixed order, and the first one
//! that a record matches decides the event.

use vstd::prelude::*;
use super::linux_parser::{audit_event_of, parse_audit_message};
use super::models::{EventPayload, EventPayloadView, SysmonEvent, SysmonEventView};

verus! {

/// The event that a record normalises to. `windows` is what reading the
/// record against the Windows schema gave, if it matched. That schema comes
/// first; the Linux schema is consulted only where it did not match.
pub open spec fn normalized(windows: Option<SysmonEventView>, raw: Seq<char>) -> Option<
    EventPayloadView,
> {
    match windows {
        Some(event) => Some(EventPayloadView::Windows(event)),
        None => match audit_event_of(raw) {
            Some(event) => Some(EventPayloadView::Linux(event)),
            None => None,
        },
    }
}

/// An optional Windows event as plain values.
pub open spec fn windows_view(windows: Option<SysmonEvent>) -> Option<SysmonEventView> {
    match windows {
        Some(event) => Some(event@),
        None => None,
    }
}

/// An optional event as plain values.
pub open spec fn payload_view(payload: Option<EventPayload>) -> Option<EventPayloadView> {
    match payload {
        Some(event) => Some(event@),
        None => None,
    }
}

/// Normalises one raw record.
///
/// `windows` is the outcome of reading `event_data` against the Windows
/// schema: the event, or `None` where the record does not match it. A record
/// that matches it becomes that very event, whatever the Linux schema would
/// make of it. Any other record goes through the Linux schema. A record
/// that matches neither is dropped: the result is `None`.
pub fn process_event(windows: Option<SysmonEvent>, event_data: &str) -> (payload: Option<
    EventPayload,
>)
    ensures
        windows matches Some(event) ==> payload == Some(EventPayload::Windows(event)),
        payload_view(payload) == normalized(windows_view(windows), event_data@),
{
    match windows {
        Some(event) => Some(EventPayload::Windows(event)),
        None => match parse_audit_message(event_data) {
            Some(event) => Some(EventPayload::Linux(event)),
            None => None,
        },
    }
}

/// The Windows schema comes first: a record that matches it normalises to
/// its Windows event, whatever the record holds and whatever the Linux
/// schema would make of it.
pub proof fn lemma_windows_schema_first(event: SysmonEventView, raw: Seq<char>)
    ensures
        normalized(Some(event), raw) == Some(EventPayloadView::Windows(event)),
{
}

/// A record that matches neither schema normalises to nothing, and a record
/// that normalises to nothing matches neither.
pub proof fn lemma_dropped_iff_no_schema(windows: Option<SysmonEventView>, raw: Seq<char>)
    ensures
        normalized(windows, raw) is None <==> windows is None && audit_event_of(raw) is None,
{
}

} // verus!
