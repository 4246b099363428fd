//! The delivery channel: where an event is sent, when a send counts as
//! delivered, and what goes into the spool when it does not.

use vstd::prelude::*;
use vstd::string::StringExecFns;
use crate::processor::fields::text_of;

verus! {

/// The directory that holds the spool, relative to where the agent runs.
pub const QUEUE_DIR: &'static str = "agent/queue";

/// What came of one attempt to send an event.
#[derive(Debug, Clone, Copy, PartialEq, Eq, Structural)]
pub enum SendAttempt {
    /// The collector answered with this status code.
    Status(u16),
    /// No answer: the request failed or timed out.
    Failed,
}

/// Whether a status code reports success: the codes 200 to 299.
pub open spec fn is_success_status(status: u16) -> bool {
    200 <= status < 300
}

impl SendAttempt {
    /// Whether the attempt delivered the event: only an answer with a
    /// success status does.
    pub open spec fn accepted(self) -> bool {
        match self {
            SendAttempt::Status(status) => is_success_status(status),
            SendAttempt::Failed => false,
        }
    }

    /// Whether the attempt delivered the event.
    pub fn is_accepted(&self) -> (b: bool)
        ensures
            b == self.accepted(),
    {
        match self {
            SendAttempt::Status(status) => 200 <= *status && *status < 300,
            SendAttempt::Failed => false,
        }
    }
}

/// One file of the spool: its name within the spool directory, and the
/// serialised event that it holds.
#[derive(Debug, Clone, PartialEq, Eq)]
pub struct SpoolFile {
    pub name: String,
    pub contents: String,
}

/// A `SpoolFile` as plain values.
pub ghost struct SpoolFileView {
    pub name: Seq<char>,
    pub contents: Seq<char>,
}

impl View for SpoolFile {
    type V = SpoolFileView;

    open spec fn view(&self) -> SpoolFileView {
        SpoolFileView { name: self.name@, contents: self.contents@ }
    }
}

/// How a delivery ended.
#[derive(Debug, Clone, PartialEq, Eq)]
pub enum Delivery {
    /// The collector accepted the event.
    Delivered,
    /// The collector did not. The event goes to the spool as the given file;
    /// where it could not be serialised there is no file, and the event is
    /// lost.
    Spooled(Option<SpoolFile>),
}

/// The spool as a map from file names to file contents.
pub type Spool = Map<Seq<char>, Seq<char>>;

impl Delivery {
    /// The spool after the delivery, given the spool before it.
    pub open spec fn spool_after(self, spool: Spool) -> Spool {
        match self {
            Delivery::Spooled(Some(file)) => spool.insert(file.name@, file.contents@),
            _ => spool,
        }
    }
}

/// Whether `c` is a digit of lower-case hexadecimal notation.
pub open spec fn is_lower_hex(c: char) -> bool {
    ('0' <= c <= '9') || ('a' <= c <= 'f')
}

/// The shape of an entry identifier: 36 characters, hyphens at the places 8,
/// 13, 18 and 23, lower-case hexadecimal digits elsewhere, the digit at
/// place 14 being `4`.
pub open spec fn is_entry_id(id: Seq<char>) -> bool {
    &&& id.len() == 36
    &&& forall|i: int|
        0 <= i < 36 ==> if i == 8 || i == 13 || i == 18 || i == 23 {
            id[i] == '-'
        } else {
            is_lower_hex(#[trigger] id[i])
        }
    &&& id[14] == '4'
}

/// The name of the spool file for the entry `id`.
pub open spec fn spool_name(id: Seq<char>) -> Seq<char> {
    id + ".json"@
}

/// Whether `name` is the spool file name of some entry identifier.
pub open spec fn is_spool_name(name: Seq<char>) -> bool {
    name.len() >= 36 && is_entry_id(name.take(36)) && name == spool_name(name.take(36))
}

/// The spool file that an undelivered event goes to: none where the event
/// could not be serialised.
pub open spec fn spool_file_of(id: Seq<char>, serialized: Option<Seq<char>>) -> Option<
    SpoolFileView,
> {
    match serialized {
        Some(json) => Some(SpoolFileView { name: spool_name(id), contents: json }),
        None => None,
    }
}

/// An optional spool file as plain values.
pub open spec fn file_view(file: Option<SpoolFile>) -> Option<SpoolFileView> {
    match file {
        Some(f) => Some(f@),
        None => None,
    }
}

/// Draws a fresh entry identifier: `uuid::Uuid::new_v4()`, written out by
/// its `Display` form.
///
/// The identifier is random, so the contract states its shape only: the
/// hyphenated lower-case form of a version 4 UUID. The draw aborts where the
/// operating system cannot supply random bytes.
#[verifier::external_body]
fn fresh_entry_id() -> (id: String)
    ensures
        is_entry_id(id@),
{
    uuid::Uuid::new_v4().to_string()
}

/// The address that events are posted to.
pub fn ingest_url(server_url: &str) -> (url: String)
    ensures
        url@ == server_url@ + "/ingest"@,
{
    let mut url = server_url.to_owned();
    url.append("/ingest");
    url
}

/// The name of the spool file for the entry `id`.
pub fn spool_file_name(id: &str) -> (name: String)
    ensures
        name@ == spool_name(id@),
{
    let mut name = id.to_owned();
    name.append(".json");
    name
}

/// The spool file for an undelivered event under the entry identifier `id`.
/// `serialized` is the event's serialised form, or `None` where serialising
/// it failed: then nothing is written.
pub fn spool_entry(id: &str, serialized: Option<String>) -> (file: Option<SpoolFile>)
    ensures
        file_view(file) == spool_file_of(id@, text_of(serialized)),
{
    match serialized {
        Some(contents) => Some(SpoolFile { name: spool_file_name(id), contents }),
        None => None,
    }
}

/// The spool file for an undelivered event, under a fresh identifier.
///
/// Whatever identifier is drawn, the file holds exactly the serialised
/// event, under a name of the form `<identifier>.json`. Where serialising
/// failed there is no file.
///
/// # Panics
///
/// The identifier is drawn from the operating system's random source. Where
/// the system gives no random bytes, the draw panics.
pub fn save_event_to_queue(serialized: Option<String>) -> (file: Option<SpoolFile>)
    ensures
        serialized is None ==> file is None,
        serialized matches Some(json) ==> file matches Some(f) && f.contents@ == json@
            && is_spool_name(f.name@),
{
    let id = fresh_entry_id();
    let file = spool_entry(id.as_str(), serialized);
    proof {
        if file is Some {
            assert(file->0.name@.take(36) =~= id@);
        }
    }
    file
}

/// Settles one delivery.
///
/// `attempt` is what came of posting the event to `ingest_url`, and
/// `serialized` the event's serialised form. An accepted attempt is a
/// delivery. Every other attempt sends the event to the spool, as
/// `save_event_to_queue` says.
///
/// # Panics
///
/// An attempt that was not accepted draws an identifier for the spool file
/// from the operating system's random source. Where the system gives no
/// random bytes, the draw panics.
pub fn send_event(attempt: SendAttempt, serialized: Option<String>) -> (delivery: Delivery)
    ensures
        attempt.accepted() <==> delivery is Delivered,
        !attempt.accepted() && serialized is None ==> delivery matches Delivery::Spooled(None),
        !attempt.accepted() ==> (serialized matches Some(json) ==> delivery matches Delivery::Spooled(
            Some(f),
        ) && f.contents@ == json@ && is_spool_name(f.name@)),
{
    if attempt.is_accepted() {
        Delivery::Delivered
    } else {
        Delivery::Spooled(save_event_to_queue(serialized))
    }
}

/// A delivery changes the spool by at most one file. One that was accepted
/// leaves the spool as it was. One that was not, of an event that could be
/// serialised, adds exactly one file, which holds the serialised event, and
/// touches no other.
pub proof fn lemma_failed_delivery_spools_one_file(spool: Spool, delivery: Delivery)
    ensures
        delivery is Delivered ==> delivery.spool_after(spool) == spool,
        delivery matches Delivery::Spooled(Some(file)) ==> {
            let after = delivery.spool_after(spool);
            &&& after.dom() == spool.dom().insert(file.name@)
            &&& after[file.name@] == file.contents@
            &&& forall|name: Seq<char>|
                spool.contains_key(name) && name != file.name@ ==> after[name] == spool[name]
        },
{
}

} // verus!
