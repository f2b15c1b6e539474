//! The reconciliation scan: a walk over everything the source holds under
//! the watched prefix, which yields a `Put` for every secret it finds.
//!
//! The scan makes no call itself. It says what to ask of the source next, is
//! told the answer, and moves on. Folders are walked depth first, children in
//! the order of the listing. A scan never yields a `Delete`: it only learns
//! what is there.

use crate::event::{ChangeEvent, ChangeEventView};
use crate::path::{is_folder_name, join, joined, joined_stays_under, names_folder, under};
use std::collections::VecDeque;
use vstd::prelude::*;
use vstd::string::*;

verus! {

/// A path that the scan still has to visit.
pub enum Entry {
    /// A folder, to be listed.
    Folder(String),
    /// A secret, to be read.
    Leaf(String),
}

/// An entry as contracts see it.
pub enum EntryView {
    Folder(Seq<char>),
    Leaf(Seq<char>),
}

impl EntryView {
    /// The path of the entry.
    pub open spec fn path(self) -> Seq<char> {
        match self {
            EntryView::Folder(path) => path,
            EntryView::Leaf(path) => path,
        }
    }
}

impl View for Entry {
    type V = EntryView;

    open spec fn view(&self) -> EntryView {
        match self {
            Entry::Folder(path) => EntryView::Folder(path@),
            Entry::Leaf(path) => EntryView::Leaf(path@),
        }
    }
}

impl DeepView for Entry {
    type V = EntryView;

    open spec fn deep_view(&self) -> EntryView {
        self@
    }
}

/// What the scan asks of the source.
#[derive(Clone, Debug, PartialEq, Eq)]
pub enum Probe {
    /// List the children of the folder at `path`.
    List { path: String },
    /// Read the secret at `path`.
    Read { path: String },
    /// Nothing: the scan is over.
    Done,
}

/// A probe as contracts see it.
pub enum ProbeView {
    List { path: Seq<char> },
    Read { path: Seq<char> },
    Done,
}

impl View for Probe {
    type V = ProbeView;

    open spec fn view(&self) -> ProbeView {
        match self {
            Probe::List { path } => ProbeView::List { path: path@ },
            Probe::Read { path } => ProbeView::Read { path: path@ },
            Probe::Done => ProbeView::Done,
        }
    }
}

/// What the source answered.
#[derive(Clone, Debug, PartialEq, Eq)]
pub enum Reply {
    /// The child names of the folder that was listed. A name that ends in
    /// `/` is a folder.
    Children(Vec<String>),
    /// The value of the secret that was read.
    Value(String),
    /// The call failed.
    Failed,
}

/// A reply as contracts see it.
pub enum ReplyView {
    Children(Seq<Seq<char>>),
    Value(Seq<char>),
    Failed,
}

impl View for Reply {
    type V = ReplyView;

    open spec fn view(&self) -> ReplyView {
        match self {
            Reply::Children(names) => ReplyView::Children(names.deep_view()),
            Reply::Value(value) => ReplyView::Value(value@),
            Reply::Failed => ReplyView::Failed,
        }
    }
}

/// The entry that the child `name` of `folder` stands for.
pub open spec fn entry_of(folder: Seq<char>, name: Seq<char>) -> EntryView {
    if names_folder(name) {
        EntryView::Folder(joined(folder, name))
    } else {
        EntryView::Leaf(joined(folder, name))
    }
}

/// The entries that a listing of `folder` stands for, in the order of the
/// listing. An empty name names nothing and is passed over.
pub open spec fn entries_of(folder: Seq<char>, names: Seq<Seq<char>>) -> Seq<EntryView>
    decreases names.len(),
{
    if names.len() == 0 {
        Seq::empty()
    } else if names[0].len() == 0 {
        entries_of(folder, names.drop_first())
    } else {
        seq![entry_of(folder, names[0])] + entries_of(folder, names.drop_first())
    }
}

/// Whether an entry is in its place in a scan of `watched`: a folder is the
/// watched prefix itself or lies under it, a secret lies under it.
pub open spec fn in_place(entry: EntryView, watched: Seq<char>) -> bool {
    match entry {
        EntryView::Folder(path) => path == watched || under(path, watched),
        EntryView::Leaf(path) => under(path, watched),
    }
}

/// What to ask for, given the entries that wait.
pub open spec fn probe_of(pending: Seq<EntryView>) -> ProbeView {
    if pending.len() == 0 {
        ProbeView::Done
    } else {
        match pending[0] {
            EntryView::Folder(path) => ProbeView::List { path },
            EntryView::Leaf(path) => ProbeView::Read { path },
        }
    }
}

/// The entries that wait once `reply` has answered the probe for the first
/// of `pending`. The children of a listed folder take the folder's place, a
/// secret that was read is done with. A failure, or an answer of the wrong
/// kind, ends the scan: nothing waits any more.
pub open spec fn pending_after(pending: Seq<EntryView>, reply: ReplyView) -> Seq<EntryView> {
    if pending.len() == 0 {
        pending
    } else {
        match (pending[0], reply) {
            (EntryView::Folder(folder), ReplyView::Children(names)) => entries_of(folder, names)
                + pending.drop_first(),
            (EntryView::Leaf(_), ReplyView::Value(_)) => pending.drop_first(),
            _ => Seq::empty(),
        }
    }
}

/// The event that `reply` gives rise to: a `Put` where it brings the value of
/// the secret that was asked for, and nothing otherwise.
pub open spec fn yield_of(pending: Seq<EntryView>, reply: ReplyView) -> Option<ChangeEventView> {
    if pending.len() == 0 {
        None
    } else {
        match (pending[0], reply) {
            (EntryView::Leaf(path), ReplyView::Value(value)) => Some(
                ChangeEventView::Put { path, value },
            ),
            _ => None,
        }
    }
}

/// One scan of the watched prefix: the prefix, and the entries that wait to
/// be visited. Every entry is the watched folder itself or lies under it.
pub struct Scan {
    watched: String,
    pending: VecDeque<Entry>,
}

/// A scan as contracts see it. The entry at index 0 is visited next.
pub struct ScanView {
    pub watched: Seq<char>,
    pub pending: Seq<EntryView>,
}

impl View for Scan {
    type V = ScanView;

    closed spec fn view(&self) -> ScanView {
        ScanView { watched: self.watched@, pending: self.pending.deep_view() }
    }
}

impl Scan {
    #[verifier::type_invariant]
    spec fn stays_in_place(&self) -> bool {
        forall|i: int|
            0 <= i < self.pending@.len() ==> in_place((#[trigger] self.pending@[i])@, self.watched@)
    }

    /// A scan that has the watched prefix itself to list and nothing else.
    pub fn begin(watched: &str) -> (scan: Scan)
        ensures
            scan@ == (ScanView { watched: watched@, pending: seq![EntryView::Folder(watched@)] }),
    {
        let mut pending = VecDeque::new();
        pending.push_back(Entry::Folder(String::from_str(watched)));
        let scan = Scan { watched: String::from_str(watched), pending };
        assert(scan.pending.deep_view() =~= seq![EntryView::Folder(watched@)]);
        scan
    }

    /// Whether nothing waits to be visited.
    pub fn finished(&self) -> (r: bool)
        ensures
            r == (self@.pending.len() == 0),
    {
        self.pending.len() == 0
    }

    /// What to ask of the source next. A folder to list is the watched prefix
    /// itself or lies under it; a secret to read lies under it.
    pub fn probe(&self) -> (r: Probe)
        ensures
            r@ == probe_of(self@.pending),
            r matches Probe::List { path } ==> path@ == self@.watched || under(
                path@,
                self@.watched,
            ),
            r matches Probe::Read { path } ==> under(path@, self@.watched),
    {
        proof {
            use_type_invariant(self);
        }
        if self.pending.len() == 0 {
            Probe::Done
        } else {
            match &self.pending[0] {
                Entry::Folder(path) => Probe::List { path: path.clone() },
                Entry::Leaf(path) => Probe::Read { path: path.clone() },
            }
        }
    }

    /// Takes in the answer to the last probe and yields the event it gives
    /// rise to, if any. The event is always a `Put` for a path under the
    /// watched prefix.
    pub fn advance(&mut self, reply: Reply) -> (r: Option<ChangeEvent>)
        ensures
            final(self)@ == (ScanView {
                pending: pending_after(old(self)@.pending, reply@),
                ..old(self)@
            }),
            r.deep_view() == yield_of(old(self)@.pending, reply@),
            r matches Some(event) ==> event is Put && under(event@.path(), old(self)@.watched),
    {
        proof {
            use_type_invariant(&*self);
        }
        let ghost before = self.pending.deep_view();
        let mut pending = VecDeque::new();
        core::mem::swap(&mut self.pending, &mut pending);
        let first = pending.pop_front();
        assert(first is Some ==> pending.deep_view() =~= before.drop_first());
        let mut yielded = None;
        match (first, reply) {
            (None, _) => {
                assert(pending.deep_view() =~= before);
            },
            (Some(Entry::Folder(folder)), Reply::Children(names)) => {
                let ghost rest = pending.deep_view();
                let mut i: usize = names.len();
                assert(names.deep_view().skip(i as int) =~= Seq::<Seq<char>>::empty());
                while i > 0
                    invariant
                        i <= names.len(),
                        folder@ == self.watched@ || under(folder@, self.watched@),
                        pending.deep_view() == entries_of(
                            folder@,
                            names.deep_view().skip(i as int),
                        ) + rest,
                        forall|k: int|
                            0 <= k < pending@.len() ==> in_place(
                                (#[trigger] pending@[k])@,
                                self.watched@,
                            ),
                    decreases i,
                {
                    i = i - 1;
                    let ghost old_pending = pending@;
                    let ghost old_view = pending.deep_view();
                    let ghost tail = names.deep_view().skip(i as int);
                    assert(tail[0] == names[i as int]@);
                    assert(tail.drop_first() =~= names.deep_view().skip(i as int + 1));
                    let name = names[i].as_str();
                    if !name.is_empty() {
                        let path = join(folder.as_str(), name);
                        proof {
                            joined_stays_under(folder@, name@, self.watched@);
                        }
                        let entry = if is_folder_name(name) {
                            Entry::Folder(path)
                        } else {
                            Entry::Leaf(path)
                        };
                        pending.push_front(entry);
                        assert(pending.deep_view() =~= seq![entry@] + old_view) by {
                            assert forall|k: int| 0 < k < pending@.len() implies pending@[k]
                                == old_pending[k - 1] by {}
                        }
                        assert(pending.deep_view() =~= entries_of(folder@, tail) + rest);
                        assert forall|k: int| 0 <= k < pending@.len() implies in_place(
                            (#[trigger] pending@[k])@,
                            self.watched@,
                        ) by {
                            if k > 0 {
                                assert(pending@[k] == old_pending[k - 1]);
                            }
                        }
                    }
                }
                assert(names.deep_view().skip(0) =~= names.deep_view());
            },
            (Some(Entry::Leaf(path)), Reply::Value(value)) => {
                yielded = Some(ChangeEvent::Put { path, value });
            },
            _ => {
                pending = VecDeque::new();
                assert(pending.deep_view() =~= Seq::<EntryView>::empty());
            },
        }
        core::mem::swap(&mut self.pending, &mut pending);
        yielded
    }
}

/// The source as the laws see it: the child names of each folder and the
/// value of each secret, by path.
pub struct SourceView {
    pub folders: Map<Seq<char>, Seq<Seq<char>>>,
    pub secrets: Map<Seq<char>, Seq<char>>,
}

/// What the source answers to a probe. It fails on a path it does not hold.
pub open spec fn answer_of(source: SourceView, probe: ProbeView) -> ReplyView {
    match probe {
        ProbeView::List { path } => if source.folders.contains_key(path) {
            ReplyView::Children(source.folders[path])
        } else {
            ReplyView::Failed
        },
        ProbeView::Read { path } => if source.secrets.contains_key(path) {
            ReplyView::Value(source.secrets[path])
        } else {
            ReplyView::Failed
        },
        ProbeView::Done => ReplyView::Failed,
    }
}

/// The entries that wait once the source has answered `steps` probes in a
/// row, beginning with the one for the first of `pending`.
pub open spec fn pending_after_steps(
    source: SourceView,
    pending: Seq<EntryView>,
    steps: nat,
) -> Seq<EntryView>
    decreases steps,
{
    if steps == 0 {
        pending
    } else {
        pending_after_steps(
            source,
            pending_after(pending, answer_of(source, probe_of(pending))),
            (steps - 1) as nat,
        )
    }
}

/// The events that those `steps` answers give rise to, in order.
pub open spec fn yields_of_steps(
    source: SourceView,
    pending: Seq<EntryView>,
    steps: nat,
) -> Seq<ChangeEventView>
    decreases steps,
{
    if steps == 0 {
        Seq::empty()
    } else {
        let reply = answer_of(source, probe_of(pending));
        let first = match yield_of(pending, reply) {
            Some(event) => seq![event],
            None => Seq::empty(),
        };
        first + yields_of_steps(source, pending_after(pending, reply), (steps - 1) as nat)
    }
}

/// Whether the source holds everything at and below `entries`, no more than
/// `depth` folders deep: every secret has a value, every folder a listing.
pub open spec fn holds_all(source: SourceView, entries: Seq<EntryView>, depth: nat) -> bool
    decreases depth, entries.len(),
{
    if entries.len() == 0 {
        true
    } else {
        &&& match entries[0] {
            EntryView::Leaf(path) => source.secrets.contains_key(path),
            EntryView::Folder(path) => depth > 0 && source.folders.contains_key(path) && holds_all(
                source,
                entries_of(path, source.folders[path]),
                (depth - 1) as nat,
            ),
        }
        &&& holds_all(source, entries.drop_first(), depth)
    }
}

/// A `Put` for every secret at and below `entries`, with the value that the
/// source holds for it. The secrets come depth first: all that lies below an
/// entry comes before what lies below the next.
pub open spec fn leaves_below(
    source: SourceView,
    entries: Seq<EntryView>,
    depth: nat,
) -> Seq<ChangeEventView>
    decreases depth, entries.len(),
{
    if entries.len() == 0 {
        Seq::empty()
    } else {
        let first = match entries[0] {
            EntryView::Leaf(path) => seq![
                ChangeEventView::Put { path, value: source.secrets[path] },
            ],
            EntryView::Folder(path) => if depth == 0 {
                Seq::empty()
            } else {
                leaves_below(source, entries_of(path, source.folders[path]), (depth - 1) as nat)
            },
        };
        first + leaves_below(source, entries.drop_first(), depth)
    }
}

/// The number of probes that it takes to visit everything at and below
/// `entries`: one for each secret and one for each folder.
pub open spec fn probes_below(source: SourceView, entries: Seq<EntryView>, depth: nat) -> nat
    decreases depth, entries.len(),
{
    if entries.len() == 0 {
        0
    } else {
        let first = match entries[0] {
            EntryView::Leaf(_) => 1nat,
            EntryView::Folder(path) => if depth == 0 {
                1nat
            } else {
                1 + probes_below(source, entries_of(path, source.folders[path]), (depth - 1) as nat)
            },
        };
        first + probes_below(source, entries.drop_first(), depth)
    }
}

/// Answering `a + b` probes is answering `a` and then `b`.
pub proof fn steps_compose(source: SourceView, pending: Seq<EntryView>, a: nat, b: nat)
    ensures
        pending_after_steps(source, pending, a + b) == pending_after_steps(
            source,
            pending_after_steps(source, pending, a),
            b,
        ),
        yields_of_steps(source, pending, a + b) == yields_of_steps(source, pending, a)
            + yields_of_steps(source, pending_after_steps(source, pending, a), b),
    decreases a,
{
    if a == 0 {
        assert(yields_of_steps(source, pending, 0) + yields_of_steps(source, pending, b)
            =~= yields_of_steps(source, pending, b));
    } else {
        let reply = answer_of(source, probe_of(pending));
        let next = pending_after(pending, reply);
        steps_compose(source, next, (a - 1) as nat, b);
        let first = match yield_of(pending, reply) {
            Some(event) => seq![event],
            None => Seq::empty(),
        };
        assert((a + b - 1) as nat == (a - 1) as nat + b);
        assert(first + (yields_of_steps(source, next, (a - 1) as nat) + yields_of_steps(
            source,
            pending_after_steps(source, next, (a - 1) as nat),
            b,
        )) =~= (first + yields_of_steps(source, next, (a - 1) as nat)) + yields_of_steps(
            source,
            pending_after_steps(source, next, (a - 1) as nat),
            b,
        ));
    }
}

/// A scan finds every secret. Where the source holds all that lies at and
/// below `entries`, a scan that has `entries` to visit before `rest` asks
/// one probe for each folder and each secret below them, yields in that time
/// exactly one `Put` for each of the secrets, depth first and with the value
/// that the source holds, and is then left with `rest`.
pub proof fn scan_finds_every_leaf(
    source: SourceView,
    entries: Seq<EntryView>,
    rest: Seq<EntryView>,
    depth: nat,
)
    requires
        holds_all(source, entries, depth),
    ensures
        pending_after_steps(source, entries + rest, probes_below(source, entries, depth)) == rest,
        yields_of_steps(source, entries + rest, probes_below(source, entries, depth))
            == leaves_below(source, entries, depth),
    decreases depth, entries.len(),
{
    let pending = entries + rest;
    if entries.len() == 0 {
        assert(pending =~= rest);
    } else {
        let tail = entries.drop_first();
        assert(pending[0] == entries[0]);
        assert(pending.drop_first() =~= tail + rest);
        let reply = answer_of(source, probe_of(pending));
        let next = pending_after(pending, reply);
        let tail_steps = probes_below(source, tail, depth);
        scan_finds_every_leaf(source, tail, rest, depth);
        match entries[0] {
            EntryView::Leaf(path) => {
                assert(next == tail + rest);
                assert((1 + tail_steps - 1) as nat == tail_steps);
            },
            EntryView::Folder(path) => {
                let children = entries_of(path, source.folders[path]);
                let child_steps = probes_below(source, children, (depth - 1) as nat);
                assert(next =~= children + (tail + rest));
                scan_finds_every_leaf(source, children, tail + rest, (depth - 1) as nat);
                steps_compose(source, next, child_steps, tail_steps);
                assert((1 + child_steps + tail_steps - 1) as nat == child_steps + tail_steps);
                assert(Seq::<ChangeEventView>::empty() + (leaves_below(
                    source,
                    children,
                    (depth - 1) as nat,
                ) + leaves_below(source, tail, depth)) =~= leaves_below(
                    source,
                    children,
                    (depth - 1) as nat,
                ) + leaves_below(source, tail, depth));
            },
        }
    }
}

/// One scan of a source that holds its whole tree under the watched prefix
/// yields one `Put` for every secret of the tree and then has nothing left to
/// visit.
pub proof fn whole_scan_finds_every_leaf(source: SourceView, watched: Seq<char>, depth: nat)
    requires
        holds_all(source, seq![EntryView::Folder(watched)], depth),
    ensures
        ({
            let begin = seq![EntryView::Folder(watched)];
            let probes = probes_below(source, begin, depth);
            &&& pending_after_steps(source, begin, probes).len() == 0
            &&& yields_of_steps(source, begin, probes) == leaves_below(source, begin, depth)
        }),
{
    let begin = seq![EntryView::Folder(watched)];
    scan_finds_every_leaf(source, begin, Seq::empty(), depth);
    assert(begin + Seq::<EntryView>::empty() =~= begin);
}

/// A listing or a read that fails ends the scan on the spot: nothing waits
/// any more, and the failed answer yields no event.
pub proof fn failure_ends_the_scan(pending: Seq<EntryView>)
    ensures
        pending_after(pending, ReplyView::Failed).len() == 0,
        yield_of(pending, ReplyView::Failed) is None,
{
}

} // verus!
