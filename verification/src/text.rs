//! Small text helpers: character extraction from string slices, substring
//! containment, and case folding.

use vstd::prelude::*;
use vstd::string::StrSliceExecFns;

verus! {

/// The characters of a string slice as a vector, so that line content can
/// be indexed and scanned by character rather than by byte.
pub fn line_chars(s: &str) -> (v: Vec<char>)
    ensures
        v@ == s@,
{
    let n = s.unicode_len();
    let mut v: Vec<char> = Vec::new();
    for i in 0..n
        invariant
            n == s@.len(),
            v@ == s@.take(i as int),
    {
        v.push(s.get_char(i));
        proof {
            assert(v@ =~= s@.take(i + 1));
        }
    }
    proof {
        assert(v@ =~= s@);
    }
    v
}

/// `needle` occurs in `hay` starting at position `at`.
pub open spec fn occurs_at(hay: Seq<char>, needle: Seq<char>, at: int) -> bool {
    &&& 0 <= at
    &&& at + needle.len() <= hay.len()
    &&& hay.subrange(at, at + needle.len()) == needle
}

/// `needle` is a contiguous substring of `hay`.
pub open spec fn contains_sub(hay: Seq<char>, needle: Seq<char>) -> bool {
    exists|at: int| occurs_at(hay, needle, at)
}

/// Substring search by scanning every start position.
pub fn contains_chars(hay: &Vec<char>, needle: &Vec<char>) -> (r: bool)
    ensures
        r == contains_sub(hay@, needle@),
{
    if needle.len() > hay.len() {
        proof {
            assert(forall|at: int| !occurs_at(hay@, needle@, at));
        }
        return false;
    }
    let last_start = hay.len() - needle.len();
    let mut at: usize = 0;
    loop
        invariant
            at <= last_start + 1,
            last_start == hay.len() - needle.len(),
            needle.len() <= hay.len(),
            forall|p: int| 0 <= p < at ==> !occurs_at(hay@, needle@, p),
        decreases last_start + 1 - at,
    {
        if at > last_start {
            proof {
                assert(forall|p: int| p > last_start ==> !occurs_at(hay@, needle@, p));
            }
            return false;
        }
        let mut i: usize = 0;
        let mut is_match = true;
        while i < needle.len() && is_match
            invariant
                i <= needle.len(),
                at + needle.len() <= hay.len(),
                is_match == (hay@.subrange(at as int, at + i) =~= needle@.take(i as int)),
            decreases needle.len() - i,
        {
            if hay[at + i] != needle[i] {
                is_match = false;
                proof {
                    assert(hay@.subrange(at as int, at + i + 1)[i as int] != needle@.take(i + 1)[
                        i as int
                    ]);
                }
            } else {
                proof {
                    assert(hay@.subrange(at as int, at + i + 1) =~= hay@.subrange(
                        at as int,
                        at + i,
                    ).push(hay@[at + i]));
                    assert(needle@.take(i + 1) =~= needle@.take(i as int).push(needle@[i as int]));
                }
            }
            i = i + 1;
        }
        if is_match {
            proof {
                assert(needle@.take(needle@.len() as int) =~= needle@);
                assert(occurs_at(hay@, needle@, at as int));
            }
            return true;
        }
        proof {
            if occurs_at(hay@, needle@, at as int) {
                assert(hay@.subrange(at as int, at + i) =~= needle@.take(i as int)) by {
                    assert forall|j: int| 0 <= j < i implies hay@.subrange(at as int, at + i)[j]
                        == needle@.take(i as int)[j] by {
                        assert(hay@.subrange(at as int, at + needle@.len())[j] == needle@[j]);
                    }
                };
                assert(false);
            }
        }
        at = at + 1;
    }
}

/// What `str::to_lowercase` returns for the given characters; named here so
/// contracts can speak of the folded text without restating Unicode case
/// mapping.
pub uninterp spec fn lower_of(s: Seq<char>) -> Seq<char>;

/// Relies on str::to_lowercase: the result depends on the characters alone.
#[verifier::external_body]
pub(crate) fn to_lowercase(s: &str) -> (r: String)
    ensures
        r@ == lower_of(s@),
{
    s.to_lowercase()
}

} // verus!
