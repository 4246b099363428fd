//! The structured events that normalisation produces.

use vstd::prelude::*;
use super::fields::{text_of, FieldMap};

verus! {

/// One name/value pair of a Windows event's data section.
#[derive(Debug, Clone, PartialEq, Eq)]
pub struct DataPair {
    pub name: String,
    pub value: String,
}

impl View for DataPair {
    type V = (Seq<char>, Seq<char>);

    open spec fn view(&self) -> (Seq<char>, Seq<char>) {
        (self.name@, self.value@)
    }
}

/// The data section of a Windows event: its pairs, in document order.
#[derive(Debug, Clone, PartialEq, Eq)]
pub struct EventData {
    pub data: Vec<DataPair>,
}

impl View for EventData {
    type V = Seq<(Seq<char>, Seq<char>)>;

    open spec fn view(&self) -> Seq<(Seq<char>, Seq<char>)> {
        self.data@.map_values(|pair: DataPair| pair@)
    }
}

/// The provider that logged a Windows event.
#[derive(Debug, Clone, PartialEq, Eq)]
pub struct Provider {
    pub name: String,
}

/// When a Windows event was created.
#[derive(Debug, Clone, PartialEq, Eq)]
pub struct TimeCreated {
    pub system_time: String,
}

/// The system section of a Windows event.
#[derive(Debug, Clone, PartialEq, Eq)]
pub struct System {
    pub provider: Provider,
    pub event_id: u32,
    pub time_created: TimeCreated,
    pub computer: String,
}

/// A Windows Sysmon event.
#[derive(Debug, Clone, PartialEq, Eq)]
pub struct SysmonEvent {
    pub system: System,
    pub event_data: EventData,
}

/// A `SysmonEvent` as plain values.
pub ghost struct SysmonEventView {
    pub provider: Seq<char>,
    pub event_id: u32,
    pub time_created: Seq<char>,
    pub computer: Seq<char>,
    pub data: Seq<(Seq<char>, Seq<char>)>,
}

impl View for SysmonEvent {
    type V = SysmonEventView;

    open spec fn view(&self) -> SysmonEventView {
        SysmonEventView {
            provider: self.system.provider.name@,
            event_id: self.system.event_id,
            time_created: self.system.time_created.system_time@,
            computer: self.system.computer@,
            data: self.event_data@,
        }
    }
}

/// A Linux audit event: the record's timestamp, the well-known fields that
/// it carried, and every other `key=value` pair of it.
#[derive(Debug)]
pub struct LinuxAuditEvent {
    pub timestamp: String,
    pub uid: Option<String>,
    pub gid: Option<String>,
    pub pid: Option<String>,
    pub comm: Option<String>,
    pub exe: Option<String>,
    pub syscall: Option<String>,
    pub success: Option<String>,
    pub other_fields: FieldMap,
}

/// A `LinuxAuditEvent` as plain values.
pub ghost struct LinuxAuditEventView {
    pub timestamp: Seq<char>,
    pub uid: Option<Seq<char>>,
    pub gid: Option<Seq<char>>,
    pub pid: Option<Seq<char>>,
    pub comm: Option<Seq<char>>,
    pub exe: Option<Seq<char>>,
    pub syscall: Option<Seq<char>>,
    pub success: Option<Seq<char>>,
    pub other_fields: Map<Seq<char>, Seq<char>>,
}

impl View for LinuxAuditEvent {
    type V = LinuxAuditEventView;

    open spec fn view(&self) -> LinuxAuditEventView {
        LinuxAuditEventView {
            timestamp: self.timestamp@,
            uid: text_of(self.uid),
            gid: text_of(self.gid),
            pid: text_of(self.pid),
            comm: text_of(self.comm),
            exe: text_of(self.exe),
            syscall: text_of(self.syscall),
            success: text_of(self.success),
            other_fields: self.other_fields@,
        }
    }
}

impl Default for LinuxAuditEvent {
    /// The event without content: an empty timestamp, no well-known field,
    /// and nothing in the extension map.
    fn default() -> (event: LinuxAuditEvent)
        ensures
            event@ == (LinuxAuditEventView {
                timestamp: Seq::<char>::empty(),
                uid: None,
                gid: None,
                pid: None,
                comm: None,
                exe: None,
                syscall: None,
                success: None,
                other_fields: Map::<Seq<char>, Seq<char>>::empty(),
            }),
    {
        LinuxAuditEvent {
            timestamp: String::new(),
            uid: None,
            gid: None,
            pid: None,
            comm: None,
            exe: None,
            syscall: None,
            success: None,
            other_fields: FieldMap::new(),
        }
    }
}

/// A normalised event, tagged by the schema that it matched.
#[derive(Debug)]
pub enum EventPayload {
    Windows(SysmonEvent),
    Linux(LinuxAuditEvent),
}

/// An `EventPayload` as plain values.
pub ghost enum EventPayloadView {
    Windows(SysmonEventView),
    Linux(LinuxAuditEventView),
}

impl View for EventPayload {
    type V = EventPayloadView;

    open spec fn view(&self) -> EventPayloadView {
        match self {
            EventPayload::Windows(event) => EventPayloadView::Windows(event@),
            EventPayload::Linux(event) => EventPayloadView::Linux(event@),
        }
    }
}

impl EventPayload {
    /// The tag under which the event goes over the wire and into the spool.
    pub fn event_source(&self) -> (tag: &'static str)
        ensures
            tag@ == (match self {
                EventPayload::Windows(_) => "windows_sysmon"@,
                EventPayload::Linux(_) => "linux_auditd"@,
            }),
    {
        match self {
            EventPayload::Windows(_) => "windows_sysmon",
            EventPayload::Linux(_) => "linux_auditd",
        }
    }
}

} // verus!
