//! The Linux schema: an audit record as white-space separated `key=value`
//! tokens behind an `audit(<timestamp>:<serial>):` marker.

use vstd::prelude::*;
use super::fields::{lookup, FieldMap};
use super::models::{LinuxAuditEvent, LinuxAuditEventView};
use super::text::{
    find_char, find_space, first_index, is_space, is_whitespace, lemma_first_index,
    lemma_first_index_is, lemma_word_len, to_chars, trim_quote_bounds, trim_quotes, word_len,
};

verus! {

/// The text that opens the marker of an audit record: `audit(`.
pub open spec fn marker() -> Seq<char> {
    seq!['a', 'u', 'd', 'i', 't', '(']
}

/// Whether `audit(` stands in `raw` at the index `i`.
pub open spec fn marker_at(raw: Seq<char>, i: int) -> bool {
    0 <= i && i + 6 <= raw.len() && raw.subrange(i, i + 6) == marker()
}

/// Index at which `audit(` first stands in `raw`; `raw.len()` where it does
/// not stand in it at all.
pub open spec fn marker_start(raw: Seq<char>) -> int
    decreases raw.len(),
{
    if raw.len() == 0 || marker_at(raw, 0) {
        0
    } else {
        1 + marker_start(raw.skip(1))
    }
}

/// The timestamp of a record: the text between the first `audit(` and the
/// first `:` after it. A record that holds no `audit(`, or no `:` after it,
/// has the timestamp `unknown`.
pub open spec fn timestamp_of(raw: Seq<char>) -> Seq<char> {
    let rest = raw.skip(marker_start(raw) + 6);
    let colon = first_index(rest, ':');
    if marker_start(raw) < raw.len() && colon < rest.len() {
        rest.take(colon)
    } else {
        "unknown"@
    }
}

/// The maximal runs of characters of `s` that hold no white space, in order.
pub open spec fn split_whitespace(s: Seq<char>) -> Seq<Seq<char>>
    decreases s.len(),
{
    if s.len() == 0 {
        Seq::empty()
    } else if is_space(s[0]) {
        split_whitespace(s.skip(1))
    } else {
        let n = word_len(s);
        proof {
            lemma_word_len(s);
            lemma_word_len(s.skip(1));
        }
        seq![s.take(n)] + split_whitespace(s.skip(n))
    }
}

/// The pair that a token stands for: what precedes its first `=`, and what
/// follows it without the quotes at either end. A token without `=` stands
/// for none.
pub open spec fn key_value(token: Seq<char>) -> Option<(Seq<char>, Seq<char>)> {
    let eq = first_index(token, '=');
    if eq < token.len() {
        Some((token.take(eq), trim_quotes(token.skip(eq + 1))))
    } else {
        None
    }
}

/// `m` after one more token: a token that stands for a pair binds its key,
/// over whatever the key was bound to.
pub open spec fn absorb(m: Map<Seq<char>, Seq<char>>, token: Seq<char>) -> Map<
    Seq<char>,
    Seq<char>,
> {
    match key_value(token) {
        Some((key, value)) => m.insert(key, value),
        None => m,
    }
}

/// The bindings that a sequence of tokens leaves, the later token winning.
pub open spec fn gather(tokens: Seq<Seq<char>>) -> Map<Seq<char>, Seq<char>>
    decreases tokens.len(),
{
    if tokens.len() == 0 {
        Map::empty()
    } else {
        absorb(gather(tokens.drop_last()), tokens.last())
    }
}

/// The `key=value` pairs of a record.
pub open spec fn fields_of(raw: Seq<char>) -> Map<Seq<char>, Seq<char>> {
    gather(split_whitespace(raw))
}

/// The keys that an event holds in fields of their own.
pub open spec fn known_keys() -> Set<Seq<char>> {
    set!["uid"@, "gid"@, "pid"@, "comm"@, "exe"@, "syscall"@, "success"@]
}

/// The event that a record stands for: none where the record holds no
/// `key=value` token.
pub open spec fn audit_event_of(raw: Seq<char>) -> Option<LinuxAuditEventView> {
    let fields = fields_of(raw);
    if fields == Map::<Seq<char>, Seq<char>>::empty() {
        None
    } else {
        Some(
            LinuxAuditEventView {
                timestamp: timestamp_of(raw),
                uid: lookup(fields, "uid"@),
                gid: lookup(fields, "gid"@),
                pid: lookup(fields, "pid"@),
                comm: lookup(fields, "comm"@),
                exe: lookup(fields, "exe"@),
                syscall: lookup(fields, "syscall"@),
                success: lookup(fields, "success"@),
                other_fields: fields.remove_keys(known_keys()),
            },
        )
    }
}

/// The seven well-known keys are pairwise different.
pub proof fn lemma_known_keys_differ()
    ensures
        "uid"@ != "gid"@ && "uid"@ != "pid"@ && "uid"@ != "comm"@ && "uid"@ != "exe"@,
        "uid"@ != "syscall"@ && "uid"@ != "success"@,
        "gid"@ != "pid"@ && "gid"@ != "comm"@ && "gid"@ != "exe"@,
        "gid"@ != "syscall"@ && "gid"@ != "success"@,
        "pid"@ != "comm"@ && "pid"@ != "exe"@ && "pid"@ != "syscall"@ && "pid"@ != "success"@,
        "comm"@ != "exe"@ && "comm"@ != "syscall"@ && "comm"@ != "success"@,
        "exe"@ != "syscall"@ && "exe"@ != "success"@,
        "syscall"@ != "success"@,
{
    reveal_strlit("uid");
    reveal_strlit("gid");
    reveal_strlit("pid");
    reveal_strlit("comm");
    reveal_strlit("exe");
    reveal_strlit("syscall");
    reveal_strlit("success");
    assert("uid"@.len() == 3 && "uid"@[0] == 'u');
    assert("gid"@.len() == 3 && "gid"@[0] == 'g');
    assert("pid"@.len() == 3 && "pid"@[0] == 'p');
    assert("exe"@.len() == 3 && "exe"@[0] == 'e');
    assert("comm"@.len() == 4);
    assert("syscall"@.len() == 7 && "syscall"@[1] == 'y');
    assert("success"@.len() == 7 && "success"@[1] == 'u');
}

/// A word: one character or more, none of them white space.
pub open spec fn is_word(token: Seq<char>) -> bool {
    token.len() > 0 && forall|j: int| 0 <= j < token.len() ==> !is_space(token[j])
}

/// Every token is a word.
pub proof fn lemma_tokens_are_words(s: Seq<char>)
    ensures
        forall|i: int| 0 <= i < split_whitespace(s).len() ==> is_word(#[trigger] split_whitespace(s)[i]),
    decreases s.len(),
{
    if s.len() == 0 {
        assert(split_whitespace(s).len() == 0);
    } else if is_space(s[0]) {
        lemma_tokens_are_words(s.skip(1));
        assert(split_whitespace(s) == split_whitespace(s.skip(1)));
    } else {
        let n = word_len(s);
        lemma_word_len(s);
        lemma_word_len(s.skip(1));
        lemma_tokens_are_words(s.skip(n));
        assert(split_whitespace(s) == seq![s.take(n)] + split_whitespace(s.skip(n)));
        let first = s.take(n);
        let rest = split_whitespace(s.skip(n));
        assert(is_word(first));
        assert forall|i: int| 0 <= i < split_whitespace(s).len() implies is_word(
            #[trigger] split_whitespace(s)[i],
        ) by {
            if i == 0 {
                assert(split_whitespace(s)[0] == first);
            } else {
                assert(split_whitespace(s)[i] == rest[i - 1]);
            }
        }
    }
}

/// `audit(` stands at `i` exactly when its six characters do.
pub proof fn lemma_marker_at(raw: Seq<char>, i: int)
    ensures
        marker_at(raw, i) <==> 0 <= i && i + 6 <= raw.len() && raw[i] == 'a' && raw[i + 1] == 'u'
            && raw[i + 2] == 'd' && raw[i + 3] == 'i' && raw[i + 4] == 't' && raw[i + 5] == '(',
{
    if 0 <= i && i + 6 <= raw.len() {
        let part = raw.subrange(i, i + 6);
        assert(part[0] == raw[i] && part[1] == raw[i + 1] && part[2] == raw[i + 2]);
        assert(part[3] == raw[i + 3] && part[4] == raw[i + 4] && part[5] == raw[i + 5]);
        if raw[i] == 'a' && raw[i + 1] == 'u' && raw[i + 2] == 'd' && raw[i + 3] == 'i' && raw[i
            + 4] == 't' && raw[i + 5] == '(' {
            assert(part =~= marker());
        }
    }
}

/// `marker_start` is where `audit(` first stands, and it stands nowhere
/// before.
pub proof fn lemma_marker_start(raw: Seq<char>)
    ensures
        0 <= marker_start(raw) <= raw.len(),
        marker_start(raw) < raw.len() ==> marker_at(raw, marker_start(raw)),
        forall|i: int| 0 <= i < marker_start(raw) ==> !marker_at(raw, i),
    decreases raw.len(),
{
    if raw.len() == 0 || marker_at(raw, 0) {
    } else {
        let tail = raw.skip(1);
        lemma_marker_start(tail);
        let p = marker_start(tail);
        if p < tail.len() {
            assert(tail.subrange(p, p + 6) =~= raw.subrange(p + 1, p + 7));
        }
        assert forall|i: int| 0 <= i < 1 + p implies !marker_at(raw, i) by {
            if i > 0 && i + 6 <= raw.len() {
                assert(tail.subrange(i - 1, i + 5) =~= raw.subrange(i, i + 6));
                assert(!marker_at(tail, i - 1));
            }
        }
    }
}

/// An index at which `audit(` stands, or that ends `raw`, and before which
/// it stands nowhere, is `marker_start`.
pub proof fn lemma_marker_start_is(raw: Seq<char>, at: int)
    requires
        0 <= at <= raw.len(),
        forall|i: int| 0 <= i < at ==> !marker_at(raw, i),
        at < raw.len() ==> marker_at(raw, at),
    ensures
        marker_start(raw) == at,
{
    lemma_marker_start(raw);
    let p = marker_start(raw);
    if p < at {
        assert(!marker_at(raw, p));
    } else if at < p {
        assert(!marker_at(raw, at));
    }
}

/// The timestamp of a record with a marker: where the record is
/// `<before>audit(<timestamp>:<rest>`, with no `(` in what stands before the
/// marker and no `:` in the timestamp, its timestamp is that timestamp.
pub proof fn lemma_timestamp_of_marker(before: Seq<char>, timestamp: Seq<char>, rest: Seq<char>)
    requires
        !before.contains('('),
        !timestamp.contains(':'),
    ensures
        timestamp_of(before + marker() + timestamp + seq![':'] + rest) == timestamp,
{
    let raw = before + marker() + timestamp + seq![':'] + rest;
    let at = before.len() as int;
    assert forall|i: int| 0 <= i < at implies !marker_at(raw, i) by {
        lemma_marker_at(raw, i);
        if i + 6 <= raw.len() {
            if i + 5 < at {
                assert(before.contains(before[i + 5]));
            } else {
                assert(raw[i + 5] == marker()[i + 5 - at]);
            }
        }
    }
    assert(raw.subrange(at, at + 6) =~= marker());
    lemma_marker_start_is(raw, at);
    let tail = raw.skip(at + 6);
    let colon = timestamp.len() as int;
    assert forall|i: int| 0 <= i < colon implies tail[i] != ':' by {
        assert(timestamp.contains(timestamp[i]));
    }
    assert(tail[colon] == ':');
    lemma_first_index_is(tail, ':', colon);
    assert(tail.take(colon) =~= timestamp);
}

/// A record in which `audit(` stands nowhere has the timestamp `unknown`,
/// whatever parentheses and colons it holds. So has a record in which no `:`
/// follows the first `audit(`.
pub proof fn lemma_timestamp_unknown(raw: Seq<char>)
    ensures
        (forall|i: int| !marker_at(raw, i)) ==> timestamp_of(raw) == "unknown"@,
        !raw.skip(marker_start(raw) + 6).contains(':') ==> timestamp_of(raw) == "unknown"@,
{
    lemma_marker_start(raw);
    let tail = raw.skip(marker_start(raw) + 6);
    lemma_first_index(tail, ':');
    let colon = first_index(tail, ':');
    if marker_start(raw) < raw.len() && colon < tail.len() {
        assert(tail.contains(tail[colon]));
    }
}

/// A token stands for a pair exactly when it holds a `=`.
pub proof fn lemma_pair_iff_equals_sign(token: Seq<char>)
    ensures
        key_value(token) is Some <==> token.contains('='),
{
    lemma_first_index(token, '=');
    let eq = first_index(token, '=');
    if eq < token.len() {
        assert(token[eq] == '=');
    }
}

/// Tokens leave no binding exactly when none of them stands for a pair.
pub proof fn lemma_gather_is_empty(tokens: Seq<Seq<char>>)
    ensures
        gather(tokens) == Map::<Seq<char>, Seq<char>>::empty() <==> forall|i: int|
            0 <= i < tokens.len() ==> key_value(#[trigger] tokens[i]) is None,
    decreases tokens.len(),
{
    if tokens.len() > 0 {
        let head = tokens.drop_last();
        lemma_gather_is_empty(head);
        match key_value(tokens.last()) {
            Some((key, value)) => {
                assert(gather(tokens).contains_key(key));
                assert(key_value(tokens[tokens.len() - 1]) is Some);
            },
            None => {
                if gather(head) == Map::<Seq<char>, Seq<char>>::empty() {
                    assert forall|i: int| 0 <= i < tokens.len() implies key_value(
                        #[trigger] tokens[i],
                    ) is None by {
                        if i < tokens.len() - 1 {
                            assert(head[i] == tokens[i]);
                        }
                    }
                } else {
                    let i = choose|i: int| 0 <= i < head.len() && !(key_value(#[trigger] head[i]) is None);
                    assert(tokens[i] == head[i]);
                }
            },
        }
    }
}

/// A record without a `key=value` token is no event: the parser answers
/// `None` exactly when no token of the record holds a `=`. And no event is
/// empty: one of its well-known fields is there, or its extension map binds
/// something.
pub proof fn lemma_no_pairs_no_event(raw: Seq<char>)
    ensures
        audit_event_of(raw) is None <==> forall|i: int|
            0 <= i < split_whitespace(raw).len() ==> !(#[trigger] split_whitespace(raw)[i]).contains(
                '=',
            ),
        audit_event_of(raw) matches Some(event) ==> event.uid is Some || event.gid is Some
            || event.pid is Some || event.comm is Some || event.exe is Some || event.syscall is Some
            || event.success is Some || event.other_fields != Map::<Seq<char>, Seq<char>>::empty(),
{
    let tokens = split_whitespace(raw);
    lemma_gather_is_empty(tokens);
    assert forall|i: int| 0 <= i < tokens.len() implies (key_value(#[trigger] tokens[i]) is None
        <==> !tokens[i].contains('=')) by {
        lemma_pair_iff_equals_sign(tokens[i]);
    }
    let fields = fields_of(raw);
    if fields != Map::<Seq<char>, Seq<char>>::empty() {
        assert(!(fields =~= Map::<Seq<char>, Seq<char>>::empty()));
        let key = choose|key: Seq<char>| fields.contains_key(key);
        if !known_keys().contains(key) {
            assert(fields.remove_keys(known_keys()).contains_key(key));
        }
    }
}

/// Searches a record for `audit(`: the index at which it first stands, or
/// the record's length.
fn find_marker(chars: &Vec<char>) -> (at: usize)
    ensures
        at == marker_start(chars@),
        at <= chars@.len(),
        at < chars@.len() ==> at + 6 <= chars@.len(),
{
    let n = chars.len();
    let limit: usize = if n >= 6 { n - 5 } else { 0 };
    let mut i: usize = 0;
    while i < limit
        invariant
            i <= limit,
            n == chars@.len(),
            limit == (if n >= 6 { n - 5 } else { 0 }),
            forall|j: int| 0 <= j < i ==> !marker_at(chars@, j),
        decreases limit - i,
    {
        proof {
            lemma_marker_at(chars@, i as int);
        }
        if chars[i] == 'a' && chars[i + 1] == 'u' && chars[i + 2] == 'd' && chars[i + 3] == 'i'
            && chars[i + 4] == 't' && chars[i + 5] == '(' {
            proof {
                lemma_marker_start_is(chars@, i as int);
            }
            return i;
        }
        i += 1;
    }
    proof {
        lemma_marker_start_is(chars@, n as int);
    }
    n
}

/// Reads the timestamp out of a record.
fn extract_timestamp(raw_data: &str, chars: &Vec<char>) -> (timestamp: String)
    requires
        chars@ == raw_data@,
    ensures
        timestamp@ == timestamp_of(raw_data@),
{
    let n = chars.len();
    let at = find_marker(chars);
    if at < n {
        let from = at + 6;
        let colon = find_char(chars, from, n, ':');
        proof {
            assert(raw_data@.skip(from as int) =~= chars@.subrange(from as int, n as int));
        }
        if colon < n - from {
            proof {
                assert(raw_data@.skip(from as int).take(colon as int) =~= raw_data@.subrange(
                    from as int,
                    from + colon,
                ));
            }
            return raw_data.substring_char(from, from + colon).to_owned();
        }
    }
    "unknown".to_owned()
}

/// Collects the `key=value` pairs of a record.
fn collect_fields(raw_data: &str, chars: &Vec<char>) -> (fields: FieldMap)
    requires
        chars@ == raw_data@,
    ensures
        fields@ == fields_of(raw_data@),
{
    let mut fields = FieldMap::new();
    let n = chars.len();
    let mut i: usize = 0;
    let ghost mut done: Seq<Seq<char>> = Seq::empty();
    proof {
        assert(raw_data@.skip(0) =~= raw_data@);
        assert(done + split_whitespace(raw_data@) =~= split_whitespace(raw_data@));
    }
    while i < n
        invariant
            i <= n == chars@.len(),
            chars@ == raw_data@,
            split_whitespace(raw_data@) == done + split_whitespace(raw_data@.skip(i as int)),
            fields@ == gather(done),
        decreases n - i,
    {
        let ghost rest = raw_data@.skip(i as int);
        if is_whitespace(chars[i]) {
            proof {
                assert(rest.skip(1) =~= raw_data@.skip(i + 1));
            }
            i += 1;
        } else {
            let len = find_space(chars, i);
            let end = i + len;
            let ghost token = rest.take(len as int);
            proof {
                lemma_word_len(rest);
                assert(rest.skip(len as int) =~= raw_data@.skip(end as int));
                assert(token =~= chars@.subrange(i as int, end as int));
                assert(split_whitespace(raw_data@) =~= done.push(token) + split_whitespace(
                    raw_data@.skip(end as int),
                ));
                assert(done.push(token).drop_last() =~= done);
            }
            let eq = find_char(chars, i, end, '=');
            if eq < len {
                let key = raw_data.substring_char(i, i + eq).to_owned();
                let (lo, hi) = trim_quote_bounds(chars, i + eq + 1, end);
                let value = raw_data.substring_char(lo, hi).to_owned();
                proof {
                    assert(token.take(eq as int) =~= raw_data@.subrange(i as int, i + eq));
                    assert(token.skip(eq + 1) =~= chars@.subrange(i + eq + 1, end as int));
                }
                fields.insert(key, value);
            }
            proof {
                done = done.push(token);
            }
            i = end;
        }
    }
    proof {
        assert(raw_data@.skip(n as int) =~= Seq::<char>::empty());
        assert(done + Seq::<Seq<char>>::empty() =~= done);
    }
    fields
}

/// Parses a raw audit record against the Linux schema.
///
/// Returns the event that the record stands for, and `None` where the record
/// holds no `key=value` token.
pub fn parse_audit_message(raw_data: &str) -> (event: Option<LinuxAuditEvent>)
    ensures
        match event {
            Some(e) => audit_event_of(raw_data@) == Some(e@),
            None => audit_event_of(raw_data@) is None,
        },
{
    let chars = to_chars(raw_data);
    let timestamp = extract_timestamp(raw_data, &chars);
    let mut fields = collect_fields(raw_data, &chars);
    if fields.is_empty() {
        return None;
    }
    proof {
        lemma_known_keys_differ();
    }
    let ghost all = fields@;
    let uid = fields.remove("uid");
    let gid = fields.remove("gid");
    let pid = fields.remove("pid");
    let comm = fields.remove("comm");
    let exe = fields.remove("exe");
    let syscall = fields.remove("syscall");
    let success = fields.remove("success");
    proof {
        assert(fields@ =~= all.remove_keys(known_keys()));
    }
    Some(
        LinuxAuditEvent {
            timestamp,
            uid,
            gid,
            pid,
            comm,
            exe,
            syscall,
            success,
            other_fields: fields,
        },
    )
}

} // verus!
