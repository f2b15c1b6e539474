//! Secret paths: which paths lie in the subtree of a prefix, how a path is
//! carried from the watched prefix to the destination prefix, and how a
//! listing's child names extend the path of the folder that was listed.
//!
//! A prefix names a folder. It may be written with or without a trailing
//! `/`; the empty prefix names the root.

use crate::text::{ends_with_char, starts_with};
use vstd::prelude::*;
use vstd::string::*;

verus! {

/// A prefix written as it is in the common case: not empty, and without a
/// trailing `/`.
pub open spec fn bare(prefix: Seq<char>) -> bool {
    prefix.len() > 0 && prefix.last() != '/'
}

/// The text that every path below the folder `prefix` begins with: the
/// prefix followed by one `/`, unless it is empty or already ends in one.
pub open spec fn stem(prefix: Seq<char>) -> Seq<char> {
    if bare(prefix) {
        prefix + seq!['/']
    } else {
        prefix
    }
}

/// `path` lies under `prefix`: it is the path of something inside the folder
/// that `prefix` names. For a bare prefix `P` these are the paths `P/x` with
/// `x` not empty, and no others: neither `P` itself, nor a sibling whose name
/// only begins like `P`.
pub open spec fn under(path: Seq<char>, prefix: Seq<char>) -> bool {
    stem(prefix).is_prefix_of(path) && path.len() > stem(prefix).len()
}

/// `path` with its leading `watched` replaced by `destination`; the rest of
/// the path is kept as it is. The two prefixes are meant to be written
/// alike: what is rewritten from a bare watched prefix lies under the
/// destination prefix.
pub open spec fn rewritten(path: Seq<char>, watched: Seq<char>, destination: Seq<char>) -> Seq<
    char,
>
    recommends
        under(path, watched),
{
    destination + path.skip(watched.len() as int)
}

/// A child name that stands for a folder: a listing marks one with a
/// trailing `/`.
pub open spec fn names_folder(name: Seq<char>) -> bool {
    name.len() > 0 && name.last() == '/'
}

/// The path of the child `name` of the folder `folder`. One `/` stands
/// between the two, unless `folder` is empty or already ends in one.
pub open spec fn joined(folder: Seq<char>, name: Seq<char>) -> Seq<char> {
    stem(folder) + name
}

/// Whether `path` lies under `prefix`.
pub fn is_under(path: &str, prefix: &str) -> (r: bool)
    ensures
        r == under(path@, prefix@),
{
    let n: usize = prefix.unicode_len();
    let len: usize = path.unicode_len();
    if !starts_with(path, prefix) {
        proof {
            if under(path@, prefix@) {
                under_begins_with(path@, prefix@);
            }
        }
        return false;
    }
    if n == 0 || ends_with_char(prefix, '/') {
        len > n
    } else if len > n && len - n > 1 {
        let at_cut = path.get_char(n);
        proof {
            let cut = prefix@ + seq!['/'];
            if at_cut == '/' {
                assert(path@.subrange(0, n + 1) =~= cut) by {
                    assert forall|i: int| 0 <= i < n + 1 implies path@.subrange(0, n + 1)[i]
                        == cut[i] by {
                        if i < n {
                            assert(path@.subrange(0, n as int)[i] == prefix@[i]);
                        }
                    }
                }
            } else if cut.is_prefix_of(path@) {
                assert(path@.subrange(0, n + 1)[n as int] == cut[n as int]);
            }
        }
        at_cut == '/'
    } else {
        false
    }
}

/// Carries a path that lies under the watched prefix to the destination
/// prefix.
pub(crate) fn carry(path: &str, watched: &str, destination: &str) -> (r: String)
    requires
        under(path@, watched@),
    ensures
        r@ == rewritten(path@, watched@, destination@),
{
    proof {
        under_begins_with(path@, watched@);
    }
    let rest = path.substring_char(watched.unicode_len(), path.unicode_len());
    String::from_str(destination).concat(rest)
}

/// Carries `path` from the watched prefix to the destination prefix. A path
/// that does not lie under the watched prefix has no counterpart.
pub fn rewrite(path: &str, watched: &str, destination: &str) -> (r: Option<String>)
    ensures
        r.deep_view() == if under(path@, watched@) {
            Some(rewritten(path@, watched@, destination@))
        } else {
            None
        },
{
    if is_under(path, watched) {
        Some(carry(path, watched, destination))
    } else {
        None
    }
}

/// Whether a child name of a listing stands for a folder.
pub fn is_folder_name(name: &str) -> (r: bool)
    ensures
        r == names_folder(name@),
{
    ends_with_char(name, '/')
}

/// The path of the child `name` of the folder `folder`.
pub fn join(folder: &str, name: &str) -> (r: String)
    ensures
        r@ == joined(folder@, name@),
{
    let mut path = String::from_str(folder);
    if !(folder.unicode_len() == 0 || ends_with_char(folder, '/')) {
        proof {
            reveal_strlit("/");
            assert("/"@ =~= seq!['/']);
        }
        path.append("/");
    }
    path.append(name);
    path
}

/// A path under a prefix begins with the text of the prefix and is longer.
pub proof fn under_begins_with(path: Seq<char>, prefix: Seq<char>)
    requires
        under(path, prefix),
    ensures
        prefix.is_prefix_of(path),
        path.len() > prefix.len(),
{
    let s = stem(prefix);
    assert(path.subrange(0, prefix.len() as int) =~= prefix) by {
        assert forall|i: int| 0 <= i < prefix.len() implies path[i] == prefix[i] by {
            assert(path.subrange(0, s.len() as int)[i] == s[i]);
        }
    }
}

/// The paths under a bare prefix `P` are exactly the paths `P/x` with `x` not
/// empty.
pub proof fn under_bare_prefix(path: Seq<char>, prefix: Seq<char>)
    requires
        bare(prefix),
    ensures
        under(path, prefix) <==> exists|x: Seq<char>|
            x.len() > 0 && path == prefix + seq!['/'] + x,
{
    let cut = prefix + seq!['/'];
    if under(path, prefix) {
        let x = path.skip(cut.len() as int);
        assert(path =~= cut.subrange(0, cut.len() as int) + x) by {
            assert(path.subrange(0, cut.len() as int) =~= cut);
            assert forall|i: int| 0 <= i < path.len() implies path[i] == (cut + x)[i] by {
                if i < cut.len() {
                    assert(path.subrange(0, cut.len() as int)[i] == cut[i]);
                }
            }
            assert(cut.subrange(0, cut.len() as int) =~= cut);
        }
        assert(path == prefix + seq!['/'] + x);
        assert(x.len() > 0);
    }
    if exists|x: Seq<char>| x.len() > 0 && path == prefix + seq!['/'] + x {
        let x = choose|x: Seq<char>| x.len() > 0 && path == prefix + seq!['/'] + x;
        assert(path.subrange(0, cut.len() as int) =~= cut);
    }
}

/// Neither the prefix itself nor a path that only begins with its text lies
/// under a bare prefix: what follows the prefix has to begin with `/`.
pub proof fn siblings_are_outside(prefix: Seq<char>, rest: Seq<char>)
    requires
        bare(prefix),
        rest.len() == 0 || rest[0] != '/',
    ensures
        !under(prefix + rest, prefix),
{
    let cut = prefix + seq!['/'];
    let path = prefix + rest;
    if cut.is_prefix_of(path) {
        assert(path.subrange(0, cut.len() as int)[prefix.len() as int] == cut[prefix.len() as int]);
    }
}

/// The path `P/x` lies under the watched prefix `P`, whatever `P` is, and is
/// rewritten to `D/x` for the destination prefix `D`.
pub proof fn rewrite_keeps_segments(watched: Seq<char>, destination: Seq<char>, x: Seq<char>)
    requires
        x.len() > 0,
    ensures
        under(watched + seq!['/'] + x, watched),
        rewritten(watched + seq!['/'] + x, watched, destination) == destination + seq!['/'] + x,
{
    let path = watched + seq!['/'] + x;
    assert(path.subrange(0, stem(watched).len() as int) =~= stem(watched));
    assert(path.skip(watched.len() as int) =~= seq!['/'] + x);
    assert(destination + seq!['/'] + x =~= destination + (seq!['/'] + x));
}

/// Rewriting swaps the prefix and leaves the rest untouched: a path under
/// the watched prefix that is the prefix followed by `rest` becomes the
/// destination prefix followed by `rest`.
pub proof fn rewrite_swaps_prefix(watched: Seq<char>, destination: Seq<char>, rest: Seq<char>)
    requires
        under(watched + rest, watched),
    ensures
        rewritten(watched + rest, watched, destination) == destination + rest,
{
    assert((watched + rest).skip(watched.len() as int) =~= rest);
}

/// Two paths under the watched prefix that are rewritten to the same
/// destination path are the same path.
pub proof fn rewrite_is_injective(
    a: Seq<char>,
    b: Seq<char>,
    watched: Seq<char>,
    destination: Seq<char>,
)
    requires
        under(a, watched),
        under(b, watched),
        rewritten(a, watched, destination) == rewritten(b, watched, destination),
    ensures
        a == b,
{
    under_begins_with(a, watched);
    under_begins_with(b, watched);
    let n = watched.len() as int;
    let d = destination.len() as int;
    let ra = rewritten(a, watched, destination);
    let rb = rewritten(b, watched, destination);
    assert(ra.len() == d + a.len() - n);
    assert(rb.len() == d + b.len() - n);
    assert(a.len() == b.len());
    assert forall|i: int| 0 <= i < a.len() implies a[i] == b[i] by {
        if i < n {
            assert(a[i] == a.subrange(0, n)[i]);
            assert(b[i] == b.subrange(0, n)[i]);
        } else {
            assert(a[i] == a.skip(n)[i - n]);
            assert(b[i] == b.skip(n)[i - n]);
            assert(ra[d + i - n] == a.skip(n)[i - n]);
            assert(rb[d + i - n] == b.skip(n)[i - n]);
        }
    }
    assert(a =~= b);
}

/// What is rewritten begins with the destination prefix. Where the watched
/// prefix is bare, it lies under the destination prefix, however that one is
/// written.
pub proof fn rewritten_lies_in_destination(
    path: Seq<char>,
    watched: Seq<char>,
    destination: Seq<char>,
)
    requires
        under(path, watched),
    ensures
        destination.is_prefix_of(rewritten(path, watched, destination)),
        bare(watched) ==> under(rewritten(path, watched, destination), destination),
{
    let to = rewritten(path, watched, destination);
    let d = destination.len() as int;
    let n = watched.len() as int;
    under_begins_with(path, watched);
    assert(to.subrange(0, d) =~= destination);
    if bare(watched) {
        let cut = watched + seq!['/'];
        assert(path[n] == '/') by {
            assert(path.subrange(0, n + 1)[n] == cut[n]);
        }
        assert(to[d] == path.skip(n)[0]);
        assert(to.subrange(0, stem(destination).len() as int) =~= stem(destination));
    }
}

/// The path of a named child lies under every prefix that its folder is or
/// lies under.
pub proof fn joined_stays_under(folder: Seq<char>, name: Seq<char>, prefix: Seq<char>)
    requires
        folder == prefix || under(folder, prefix),
        name.len() > 0,
    ensures
        under(joined(folder, name), prefix),
{
    let s = stem(prefix);
    let child = joined(folder, name);
    if folder != prefix {
        assert(child.subrange(0, s.len() as int) =~= folder.subrange(0, s.len() as int));
    } else {
        assert(child.subrange(0, s.len() as int) =~= s);
    }
}

} // verus!
