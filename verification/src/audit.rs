//! The audit feed: one JSON object per line, each the record of one request
//! that the source store served.
//!
//! A record is an object with three string members, `verb`, `path` and
//! `outcome`. A fourth string member, `value`, carries the payload of a
//! write; it may be missing. Members beyond these are ignored. A line that
//! lacks one of the three, or holds something other than a string there,
//! stands for no record and is passed over.

use crate::event::{ChangeEvent, ChangeEventView};
use crate::json::{json_parsed, parse, read_string, string_member};
use crate::path::{bare, is_under, under, under_bare_prefix};
use crate::text::same;
use vstd::prelude::*;

verus! {

/// What a request asked the store to do.
#[derive(Clone, Copy, Debug, PartialEq, Eq, Structural)]
pub enum Verb {
    Read,
    Write,
    Delete,
    Other,
}

/// How the store answered a request.
#[derive(Clone, Copy, Debug, PartialEq, Eq, Structural)]
pub enum Outcome {
    Success,
    Error,
}

/// One record of the audit feed.
#[derive(Clone, Debug, PartialEq, Eq)]
pub struct AuditRecord {
    pub verb: Verb,
    pub path: String,
    pub outcome: Outcome,
    /// The payload of the request; empty where the record carries none.
    pub value: String,
}

/// An audit record as contracts see it.
pub struct AuditRecordView {
    pub verb: Verb,
    pub path: Seq<char>,
    pub outcome: Outcome,
    pub value: Seq<char>,
}

impl View for AuditRecord {
    type V = AuditRecordView;

    open spec fn view(&self) -> AuditRecordView {
        AuditRecordView {
            verb: self.verb,
            path: self.path@,
            outcome: self.outcome,
            value: self.value@,
        }
    }
}

impl DeepView for AuditRecord {
    type V = AuditRecordView;

    open spec fn deep_view(&self) -> AuditRecordView {
        self@
    }
}

/// The verb that a record's `verb` member names. Every name but the three
/// known ones is some other verb.
pub open spec fn verb_named(name: Seq<char>) -> Verb {
    if name == "read"@ {
        Verb::Read
    } else if name == "write"@ {
        Verb::Write
    } else if name == "delete"@ {
        Verb::Delete
    } else {
        Verb::Other
    }
}

/// The outcome that a record's `outcome` member names, if it names one.
pub open spec fn outcome_named(name: Seq<char>) -> Option<Outcome> {
    if name == "success"@ {
        Some(Outcome::Success)
    } else if name == "error"@ {
        Some(Outcome::Error)
    } else {
        None
    }
}

/// The four members of a line that a record is made of, each as it was
/// found: `None` where the line has no member of that name, or holds
/// something other than a string there.
#[derive(Clone, Debug, PartialEq, Eq)]
pub struct Members {
    pub verb: Option<String>,
    pub path: Option<String>,
    pub outcome: Option<String>,
    pub value: Option<String>,
}

/// The members of a line as contracts see them.
pub struct MembersView {
    pub verb: Option<Seq<char>>,
    pub path: Option<Seq<char>>,
    pub outcome: Option<Seq<char>>,
    pub value: Option<Seq<char>>,
}

impl View for Members {
    type V = MembersView;

    open spec fn view(&self) -> MembersView {
        MembersView {
            verb: self.verb.deep_view(),
            path: self.path.deep_view(),
            outcome: self.outcome.deep_view(),
            value: self.value.deep_view(),
        }
    }
}

impl DeepView for Members {
    type V = MembersView;

    open spec fn deep_view(&self) -> MembersView {
        self@
    }
}

/// The members that a line holds: those of the JSON object that it parses
/// to. A line that is not JSON holds none.
pub open spec fn members_in(line: Seq<char>) -> Option<MembersView> {
    match json_parsed(line) {
        Some(document) => Some(
            MembersView {
                verb: string_member(document, "verb"@),
                path: string_member(document, "path"@),
                outcome: string_member(document, "outcome"@),
                value: string_member(document, "value"@),
            },
        ),
        None => None,
    }
}

/// The record that the members of a line stand for. The verb, the path and
/// the outcome are required, and the outcome has to be one of the two known
/// ones; without them the members stand for no record. The payload is not
/// required: where it is missing, the record carries the empty payload.
pub open spec fn record_from(members: MembersView) -> Option<AuditRecordView> {
    match (members.verb, members.path, members.outcome) {
        (Some(verb), Some(path), Some(outcome)) => match outcome_named(outcome) {
            Some(outcome) => Some(
                AuditRecordView {
                    verb: verb_named(verb),
                    path,
                    outcome,
                    value: match members.value {
                        Some(value) => value,
                        None => Seq::empty(),
                    },
                },
            ),
            None => None,
        },
        _ => None,
    }
}

/// The record that a line stands for, if it stands for one.
pub open spec fn record_in(line: Seq<char>) -> Option<AuditRecordView> {
    match members_in(line) {
        Some(members) => record_from(members),
        None => None,
    }
}

/// The change that a record reports: a write or a delete that succeeded on a
/// path under the watched prefix. Every other record reports none.
pub open spec fn event_of(record: AuditRecordView, watched: Seq<char>) -> Option<ChangeEventView> {
    if record.outcome == Outcome::Success && under(record.path, watched) {
        match record.verb {
            Verb::Write => Some(ChangeEventView::Put { path: record.path, value: record.value }),
            Verb::Delete => Some(ChangeEventView::Delete { path: record.path }),
            _ => None,
        }
    } else {
        None
    }
}

/// The change that one line of the feed reports, if any.
pub open spec fn translation(line: Seq<char>, watched: Seq<char>) -> Option<ChangeEventView> {
    match record_in(line) {
        Some(record) => event_of(record, watched),
        None => None,
    }
}

/// The changes that a run of lines reports, in the order of the lines.
pub open spec fn translations(lines: Seq<Seq<char>>, watched: Seq<char>) -> Seq<ChangeEventView>
    decreases lines.len(),
{
    if lines.len() == 0 {
        Seq::empty()
    } else {
        let before = translations(lines.drop_last(), watched);
        match translation(lines.last(), watched) {
            Some(event) => before.push(event),
            None => before,
        }
    }
}

impl Verb {
    /// The verb that `name` stands for.
    pub fn named(name: &str) -> (r: Verb)
        ensures
            r == verb_named(name@),
    {
        if same(name, "read") {
            Verb::Read
        } else if same(name, "write") {
            Verb::Write
        } else if same(name, "delete") {
            Verb::Delete
        } else {
            Verb::Other
        }
    }
}

impl Outcome {
    /// The outcome that `name` stands for, if it stands for one.
    pub fn named(name: &str) -> (r: Option<Outcome>)
        ensures
            r == outcome_named(name@),
    {
        if same(name, "success") {
            Some(Outcome::Success)
        } else if same(name, "error") {
            Some(Outcome::Error)
        } else {
            None
        }
    }
}

/// Reads the four members that a record is made of out of one line. A line
/// that is not JSON gives nothing.
pub fn read_members(line: &str) -> (r: Option<Members>)
    ensures
        r.deep_view() == members_in(line@),
{
    match parse(line) {
        Some(document) => Some(
            Members {
                verb: read_string(&document, "verb"),
                path: read_string(&document, "path"),
                outcome: read_string(&document, "outcome"),
                value: read_string(&document, "value"),
            },
        ),
        None => None,
    }
}

impl AuditRecord {
    /// Makes a record of the members of a line. The verb may be any text;
    /// the outcome has to be one of the two known ones. A missing payload
    /// is the empty payload.
    pub fn from_members(members: Members) -> (r: Option<AuditRecord>)
        ensures
            r.deep_view() == record_from(members@),
    {
        let Members { verb, path, outcome, value } = members;
        match (verb, path, outcome) {
            (Some(verb), Some(path), Some(outcome)) => match Outcome::named(outcome.as_str()) {
                Some(outcome) => Some(
                    AuditRecord {
                        verb: Verb::named(verb.as_str()),
                        path,
                        outcome,
                        value: match value {
                            Some(value) => value,
                            None => String::new(),
                        },
                    },
                ),
                None => None,
            },
            _ => None,
        }
    }
}

/// Reads the record that a line stands for. A line that is not JSON, that
/// lacks one of the three required members or holds one that is not a
/// string, or that names no known outcome, stands for none.
pub fn decode_line(line: &str) -> (r: Option<AuditRecord>)
    ensures
        r.deep_view() == record_in(line@),
{
    match read_members(line) {
        Some(members) => AuditRecord::from_members(members),
        None => None,
    }
}

/// Turns a record into the change it reports. A successful write under the
/// watched prefix gives a `Put` of the record's path and payload, a
/// successful delete under it a `Delete` of the path; any other record gives
/// nothing. No event is ever made for a path outside the watched prefix.
pub fn translate_record(record: AuditRecord, watched: &str) -> (r: Option<ChangeEvent>)
    ensures
        r.deep_view() == event_of(record@, watched@),
        r matches Some(event) ==> under(event@.path(), watched@),
{
    let AuditRecord { verb, path, outcome, value } = record;
    match outcome {
        Outcome::Success => {
            if is_under(path.as_str(), watched) {
                match verb {
                    Verb::Write => Some(ChangeEvent::Put { path, value }),
                    Verb::Delete => Some(ChangeEvent::Delete { path }),
                    _ => None,
                }
            } else {
                None
            }
        },
        Outcome::Error => None,
    }
}

/// Turns one line of the feed into the change it reports. A line that does
/// not parse, or that is no record, gives nothing, as does a record that
/// reports no change.
pub fn translate(line: &str, watched: &str) -> (r: Option<ChangeEvent>)
    ensures
        r.deep_view() == translation(line@, watched@),
        r matches Some(event) ==> under(event@.path(), watched@),
{
    match decode_line(line) {
        Some(record) => translate_record(record, watched),
        None => None,
    }
}

/// Turns a run of lines into the changes they report, in the order of the
/// lines. A line that gives nothing leaves no trace and does not end the run.
pub fn ingest(lines: &Vec<String>, watched: &str) -> (events: Vec<ChangeEvent>)
    ensures
        events.deep_view() == translations(lines.deep_view(), watched@),
        forall|i: int| 0 <= i < events.len() ==> under(#[trigger] events[i]@.path(), watched@),
{
    let mut events: Vec<ChangeEvent> = Vec::new();
    let mut done: usize = 0;
    while done < lines.len()
        invariant
            done <= lines.len(),
            events.deep_view() == translations(lines.deep_view().take(done as int), watched@),
            forall|i: int| 0 <= i < events.len() ==> under(#[trigger] events[i]@.path(), watched@),
        decreases lines.len() - done,
    {
        let ghost before = events.deep_view();
        let ghost seen = lines.deep_view().take(done as int + 1);
        assert(seen.drop_last() =~= lines.deep_view().take(done as int));
        assert(seen.last() == lines[done as int]@);
        match translate(lines[done].as_str(), watched) {
            Some(event) => {
                events.push(event);
                assert(events.deep_view() =~= before.push(event@));
            },
            None => {},
        }
        done = done + 1;
    }
    assert(lines.deep_view().take(done as int) =~= lines.deep_view());
    events
}

/// A record yields an event exactly when it is a write or a delete that
/// succeeded under the watched prefix, and the event then matches the record:
/// a `Put` of its path and payload for a write, a `Delete` of its path for a
/// delete.
pub proof fn translation_is_exact(record: AuditRecordView, watched: Seq<char>)
    ensures
        event_of(record, watched) is Some <==> (record.verb == Verb::Write || record.verb
            == Verb::Delete) && record.outcome == Outcome::Success && under(record.path, watched),
        event_of(record, watched) is Some && record.verb == Verb::Write ==> event_of(
            record,
            watched,
        ) == Some(ChangeEventView::Put { path: record.path, value: record.value }),
        event_of(record, watched) is Some && record.verb == Verb::Delete ==> event_of(
            record,
            watched,
        ) == Some(ChangeEventView::Delete { path: record.path }),
{
}

/// For a watched prefix `P` written without a trailing `/`, a record yields
/// an event exactly when it is a write or a delete that succeeded at a path
/// `P/x` with `x` not empty, and the path of the event is then that path.
/// Nothing is made for `P` itself, nor for a path that only begins with the
/// text of `P`.
pub proof fn events_lie_below_the_prefix(record: AuditRecordView, watched: Seq<char>)
    requires
        bare(watched),
    ensures
        event_of(record, watched) is Some <==> (record.verb == Verb::Write || record.verb
            == Verb::Delete) && record.outcome == Outcome::Success && exists|x: Seq<char>|
            x.len() > 0 && record.path == watched + seq!['/'] + x,
        event_of(record, watched) matches Some(event) ==> exists|x: Seq<char>|
            x.len() > 0 && event.path() == watched + seq!['/'] + x,
{
    under_bare_prefix(record.path, watched);
}

/// The changes of two runs of lines, one after the other, are the changes of
/// the first followed by those of the second: what one line gives does not
/// depend on the lines around it.
pub proof fn translations_concat(first: Seq<Seq<char>>, second: Seq<Seq<char>>, watched: Seq<char>)
    ensures
        translations(first + second, watched) == translations(first, watched) + translations(
            second,
            watched,
        ),
    decreases second.len(),
{
    if second.len() == 0 {
        assert(first + second =~= first);
        assert(translations(first, watched) + translations(second, watched) =~= translations(
            first,
            watched,
        ));
    } else {
        translations_concat(first, second.drop_last(), watched);
        assert((first + second).drop_last() =~= first + second.drop_last());
        assert((first + second).last() == second.last());
        let before = translations(second.drop_last(), watched);
        match translation(second.last(), watched) {
            Some(event) => {
                assert((translations(first, watched) + before).push(event) =~= translations(
                    first,
                    watched,
                ) + before.push(event));
            },
            None => {},
        }
    }
}

/// A line that reports no change, be it for want of JSON, of a record or of
/// a change worth reporting, is as good as absent: the run gives what the
/// lines around it give.
pub proof fn silent_line_is_skipped(
    first: Seq<Seq<char>>,
    line: Seq<char>,
    second: Seq<Seq<char>>,
    watched: Seq<char>,
)
    requires
        translation(line, watched) is None,
    ensures
        translations(first + seq![line] + second, watched) == translations(
            first + second,
            watched,
        ),
{
    assert(seq![line].drop_last() =~= Seq::<Seq<char>>::empty());
    assert(seq![line].last() == line);
    assert(translations(seq![line].drop_last(), watched) =~= Seq::<ChangeEventView>::empty());
    assert(translations(seq![line], watched) =~= Seq::<ChangeEventView>::empty());
    translations_concat(first, seq![line], watched);
    translations_concat(first + seq![line], second, watched);
    translations_concat(first, second, watched);
    assert(translations(first, watched) + Seq::<ChangeEventView>::empty() =~= translations(
        first,
        watched,
    ));
}

} // verus!
