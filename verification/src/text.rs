//! Operations on text. Paths are compared and cut by characters, never by
//! bytes, so every contract here speaks of the `Seq<char>` view of a string.

use vstd::prelude::*;
use vstd::string::*;
use vstd::std_specs::iter::IteratorSpec;

verus! {

/// Whether `text` begins with `prefix`.
pub fn starts_with(text: &str, prefix: &str) -> (r: bool)
    ensures
        r == prefix@.is_prefix_of(text@),
{
    let mut have = text.chars();
    let mut want = prefix.chars();
    let ghost mut seen: int = 0;
    loop
        invariant
            0 <= seen <= prefix@.len(),
            seen <= text@.len(),
            have.remaining() == text@.skip(seen),
            want.remaining() == prefix@.skip(seen),
            prefix@.take(seen) == text@.take(seen),
        decreases prefix@.len() - seen,
    {
        match want.next() {
            None => {
                assert(prefix@.take(seen) == prefix@);
                assert(text@.take(seen) == text@.subrange(0, prefix@.len() as int));
                return true;
            },
            Some(w) => {
                match have.next() {
                    None => {
                        return false;
                    },
                    Some(h) => {
                        if h != w {
                            assert(prefix@.is_prefix_of(text@) ==> text@.subrange(
                                0,
                                prefix@.len() as int,
                            )[seen] == prefix@[seen]);
                            return false;
                        }
                        assert(prefix@.take(seen + 1) == prefix@.take(seen).push(w));
                        assert(text@.take(seen + 1) == text@.take(seen).push(h));
                    },
                }
            },
        }
        proof {
            seen = seen + 1;
        }
    }
}

/// Whether two texts hold the same characters.
pub fn same(a: &str, b: &str) -> (r: bool)
    ensures
        r == (a@ == b@),
{
    let r = starts_with(a, b) && starts_with(b, a);
    proof {
        if r {
            assert(a@ =~= b@);
        }
    }
    r
}

/// Whether the last character of `text` is `mark`.
pub fn ends_with_char(text: &str, mark: char) -> (r: bool)
    ensures
        r == (text@.len() > 0 && text@.last() == mark),
{
    let len: usize = text.unicode_len();
    len > 0 && text.get_char(len - 1) == mark
}

} // verus!
