//! Replay of the spool: every entry is read, decoded and sent again, and
//! leaves the spool only once the collector has accepted it.

use vstd::prelude::*;
use crate::communicator::{Delivery, SendAttempt, Spool};

verus! {

/// Seconds between two replay passes.
pub const REPLAY_INTERVAL_SECS: u64 = 60;

/// What happened last to a spool entry during a replay pass.
#[derive(Debug, Clone, Copy, PartialEq, Eq, Structural)]
pub enum ReplayEvent {
    /// The entry was found in the spool.
    Listed,
    /// Reading the entry succeeded or failed.
    Read(bool),
    /// Decoding what was read succeeded or failed.
    Decoded(bool),
    /// The event was sent again, and was delivered or not.
    Sent(bool),
}

/// What to do next with a spool entry.
#[derive(Debug, Clone, Copy, PartialEq, Eq, Structural)]
pub enum ReplayAction {
    /// Read the entry.
    Read,
    /// Decode what was read.
    Decode,
    /// Send the decoded event through the delivery channel.
    Send,
    /// Delete the entry: it has been delivered.
    Remove,
    /// Leave the entry as it is, for the next pass.
    Leave,
}

/// The replay protocol for one entry. Each step that succeeds leads to the
/// next one; a step that fails leaves the entry in place. Only a delivery
/// removes it.
pub open spec fn next_action(event: ReplayEvent) -> ReplayAction {
    match event {
        ReplayEvent::Listed => ReplayAction::Read,
        ReplayEvent::Read(true) => ReplayAction::Decode,
        ReplayEvent::Decoded(true) => ReplayAction::Send,
        ReplayEvent::Sent(true) => ReplayAction::Remove,
        _ => ReplayAction::Leave,
    }
}

/// The names of the entries that could be listed, in order.
pub open spec fn present(entries: Seq<Option<String>>) -> Seq<Seq<char>>
    decreases entries.len(),
{
    if entries.len() == 0 {
        Seq::empty()
    } else {
        match entries.last() {
            Some(name) => present(entries.drop_last()).push(name@),
            None => present(entries.drop_last()),
        }
    }
}

/// The names that a replay pass visits, for a listing of the spool. A
/// listing that failed gives none, and an entry that could not be listed is
/// passed over.
pub open spec fn listed_entries(listing: Option<Vec<Option<String>>>) -> Seq<Seq<char>> {
    match listing {
        Some(entries) => present(entries@),
        None => Seq::empty(),
    }
}

/// A sequence of strings as plain values.
pub open spec fn texts(names: Seq<String>) -> Seq<Seq<char>> {
    names.map_values(|name: String| name@)
}

/// The spool after `action` was carried out on the entry `name`.
pub open spec fn spool_after_entry(spool: Spool, name: Seq<char>, action: ReplayAction) -> Spool {
    if action is Remove {
        spool.remove(name)
    } else {
        spool
    }
}

/// The spool after the entry `name` was read, decoded and sent again, with
/// `delivery` as the outcome of the send: the send goes through the delivery
/// channel, so one that fails spools the event once more, under a new name.
pub open spec fn spool_after_resend(spool: Spool, name: Seq<char>, delivery: Delivery) -> Spool {
    spool_after_entry(
        delivery.spool_after(spool),
        name,
        next_action(ReplayEvent::Sent(delivery is Delivered)),
    )
}

/// What a pass over `names` removes from the spool, where `delivered` holds
/// the entries that were read, decoded and accepted by the collector.
pub open spec fn spool_after_pass(spool: Spool, names: Seq<Seq<char>>, delivered: Set<Seq<char>>) -> Spool
    decreases names.len(),
{
    if names.len() == 0 {
        spool
    } else {
        spool_after_entry(
            spool_after_pass(spool, names.drop_last(), delivered),
            names.last(),
            next_action(ReplayEvent::Sent(delivered.contains(names.last()))),
        )
    }
}

/// Decides the next step for one spool entry.
pub fn process_queued_file(event: ReplayEvent) -> (action: ReplayAction)
    ensures
        action == next_action(event),
{
    match event {
        ReplayEvent::Listed => ReplayAction::Read,
        ReplayEvent::Read(true) => ReplayAction::Decode,
        ReplayEvent::Decoded(true) => ReplayAction::Send,
        ReplayEvent::Sent(true) => ReplayAction::Remove,
        _ => ReplayAction::Leave,
    }
}

/// The entries that one replay pass visits, in the order of the listing.
///
/// `listing` is what listing the spool directory gave: `None` where the
/// directory could not be listed, and `None` in place of an entry that could
/// not be.
pub fn process_queue(listing: Option<Vec<Option<String>>>) -> (names: Vec<String>)
    ensures
        texts(names@) == listed_entries(listing),
{
    let mut names: Vec<String> = Vec::new();
    match &listing {
        Some(entries) => {
            let mut i: usize = 0;
            assert(texts(names@) =~= present(entries@.take(0)));
            while i < entries.len()
                invariant
                    i <= entries@.len(),
                    texts(names@) == present(entries@.take(i as int)),
                decreases entries@.len() - i,
            {
                proof {
                    assert(entries@.take(i + 1).drop_last() =~= entries@.take(i as int));
                }
                match &entries[i] {
                    Some(name) => {
                        names.push(name.clone());
                        assert(texts(names@) =~= present(entries@.take(i as int)).push(name@));
                    },
                    None => {},
                }
                i += 1;
            }
            assert(entries@.take(i as int) =~= entries@);
        },
        None => {
            assert(texts(names@) =~= Seq::<Seq<char>>::empty());
        },
    }
    names
}

/// A pass over no entries changes nothing, and a listing without entries
/// gives a pass over none: replaying an empty spool is a no-op.
pub proof fn lemma_replay_of_nothing(spool: Spool, delivered: Set<Seq<char>>)
    ensures
        listed_entries(None) == Seq::<Seq<char>>::empty(),
        present(Seq::empty()) == Seq::<Seq<char>>::empty(),
        spool_after_pass(spool, Seq::empty(), delivered) == spool,
{
}

/// A pass removes exactly the visited entries that were delivered.
pub proof fn lemma_pass_removes_delivered(
    spool: Spool,
    names: Seq<Seq<char>>,
    delivered: Set<Seq<char>>,
)
    ensures
        spool_after_pass(spool, names, delivered) == spool.remove_keys(
            names.to_set().intersect(delivered),
        ),
    decreases names.len(),
{
    if names.len() == 0 {
        assert(names.to_set().intersect(delivered) =~= Set::<Seq<char>>::empty());
        assert(spool.remove_keys(Set::<Seq<char>>::empty()) =~= spool);
    } else {
        lemma_pass_removes_delivered(spool, names.drop_last(), delivered);
        let before = names.drop_last().to_set().intersect(delivered);
        let after = names.to_set().intersect(delivered);
        assert forall|name: Seq<char>| after.contains(name) <==> (before.contains(name) || (name
            == names.last() && delivered.contains(name))) by {
            if names.contains(name) {
                let i = choose|i: int| 0 <= i < names.len() && names[i] == name;
                if i < names.len() - 1 {
                    assert(names.drop_last()[i] == name);
                }
            }
            if names.drop_last().contains(name) {
                let i = choose|i: int| 0 <= i < names.drop_last().len() && names.drop_last()[i] == name;
                assert(names[i] == name);
            }
            assert(names[names.len() - 1] == names.last());
        }
        assert(spool_after_pass(spool, names, delivered) =~= spool.remove_keys(after));
    }
}

/// At least once: an event whose first send fails is in the spool, with its
/// serialised form intact, until a replay pass visits it with a send that
/// the collector accepts; that pass walks the entry through every step and
/// removes it.
pub proof fn lemma_at_least_once(
    spool: Spool,
    first: SendAttempt,
    delivery: Delivery,
    second: SendAttempt,
    names: Seq<Seq<char>>,
    delivered: Set<Seq<char>>,
)
    requires
        !first.accepted(),
        delivery matches Delivery::Spooled(Some(_)),
        second.accepted(),
        names.contains(delivery->Spooled_0->0.name@),
        delivered.contains(delivery->Spooled_0->0.name@) <==> second.accepted(),
    ensures
        ({
            let file = delivery->Spooled_0->0;
            let held = delivery.spool_after(spool);
            &&& held.contains_key(file.name@)
            &&& held[file.name@] == file.contents@
            &&& next_action(ReplayEvent::Listed) == ReplayAction::Read
            &&& next_action(ReplayEvent::Read(true)) == ReplayAction::Decode
            &&& next_action(ReplayEvent::Decoded(true)) == ReplayAction::Send
            &&& next_action(ReplayEvent::Sent(second.accepted())) == ReplayAction::Remove
            &&& !spool_after_pass(held, names, delivered).contains_key(file.name@)
        }),
{
    lemma_pass_removes_delivered(delivery.spool_after(spool), names, delivered);
}

/// Sending an entry again either delivers it, and then it leaves the spool
/// and nothing else changes; or fails, and then the entry stays as it was,
/// beside the copy that the failed send has spooled.
pub proof fn lemma_resend(spool: Spool, name: Seq<char>, delivery: Delivery)
    requires
        spool.contains_key(name),
        delivery matches Delivery::Spooled(Some(file)) ==> file.name@ != name,
    ensures
        delivery is Delivered ==> spool_after_resend(spool, name, delivery) == spool.remove(name),
        !(delivery is Delivered) ==> spool_after_resend(spool, name, delivery).contains_key(name)
            && spool_after_resend(spool, name, delivery)[name] == spool[name],
        delivery matches Delivery::Spooled(Some(file)) ==> spool_after_resend(
            spool,
            name,
            delivery,
        ) == spool.insert(file.name@, file.contents@),
        delivery matches Delivery::Spooled(None) ==> spool_after_resend(spool, name, delivery)
            == spool,
{
}

/// An entry whose replay does not end in a delivery stays in the spool,
/// unchanged.
pub proof fn lemma_undelivered_stays(
    spool: Spool,
    name: Seq<char>,
    names: Seq<Seq<char>>,
    delivered: Set<Seq<char>>,
)
    requires
        spool.contains_key(name),
        !delivered.contains(name),
    ensures
        spool_after_pass(spool, names, delivered).contains_key(name),
        spool_after_pass(spool, names, delivered)[name] == spool[name],
{
    lemma_pass_removes_delivered(spool, names, delivered);
}

} // verus!
