//! Semantic version comparison for the auto-updater.
//!
//! A version string is split on `.`; each piece that parses as an unsigned
//! 32-bit decimal number (optionally signed with a leading `+`, as the
//! standard integer parser accepts) contributes a component, other pieces
//! are skipped; the first three components, missing ones read as zero, are
//! compared lexicographically.

use vstd::prelude::*;
use crate::text::line_chars;

verus! {

pub open spec fn is_ascii_digit_char(c: char) -> bool {
    48 <= c as u32 <= 57
}

pub open spec fn digit_val(c: char) -> int {
    c as u32 - 48
}

/// The value of a string of decimal digits, most significant first.
pub open spec fn dec_val(d: Seq<char>) -> int
    decreases d.len(),
{
    if d.len() == 0 {
        0
    } else {
        dec_val(d.drop_last()) * 10 + digit_val(d.last())
    }
}

/// Split on `.`, processed left to right with the accumulated current
/// piece; empty pieces are kept, as the standard splitter keeps them.
pub open spec fn split_acc(s: Seq<char>, cur: Seq<char>) -> Seq<Seq<char>>
    decreases s.len(),
{
    if s.len() == 0 {
        seq![cur]
    } else if s[0] == '.' {
        seq![cur] + split_acc(s.drop_first(), seq![])
    } else {
        split_acc(s.drop_first(), cur.push(s[0]))
    }
}

pub open spec fn split_dots(s: Seq<char>) -> Seq<Seq<char>> {
    split_acc(s, seq![])
}

/// The digits of a piece: everything after an optional leading `+`.
pub open spec fn piece_digits(p: Seq<char>) -> Seq<char> {
    if p.len() > 0 && p[0] == '+' {
        p.drop_first()
    } else {
        p
    }
}

/// The piece parses as a `u32`: at least one character, all digits after
/// the optional sign, value in range.
pub open spec fn parseable_u32(p: Seq<char>) -> bool {
    let d = piece_digits(p);
    &&& d.len() > 0
    &&& (forall|i: int| 0 <= i < d.len() ==> is_ascii_digit_char(#[trigger] d[i]))
    &&& dec_val(d) <= u32::MAX as int
}

pub open spec fn piece_val(p: Seq<char>) -> int {
    dec_val(piece_digits(p))
}

/// The numeric components of the split pieces, unparseable pieces skipped.
pub open spec fn numeric_parts(pieces: Seq<Seq<char>>) -> Seq<int>
    decreases pieces.len(),
{
    if pieces.len() == 0 {
        seq![]
    } else {
        let rest = numeric_parts(pieces.drop_first());
        if parseable_u32(pieces.first()) {
            seq![piece_val(pieces.first())] + rest
        } else {
            rest
        }
    }
}

/// The numeric components of a version string.
pub open spec fn version_parts(s: Seq<char>) -> Seq<int> {
    numeric_parts(split_dots(s))
}

/// Component `i`, a missing one reading as zero.
pub open spec fn part_or_zero(ps: Seq<int>, i: int) -> int {
    if 0 <= i < ps.len() {
        ps[i]
    } else {
        0
    }
}

/// `latest` is strictly newer than `current`: lexicographically greater on
/// the first three numeric components.
pub open spec fn spec_is_newer_version(current: Seq<char>, latest: Seq<char>) -> bool {
    let c = version_parts(current);
    let l = version_parts(latest);
    ||| part_or_zero(l, 0) > part_or_zero(c, 0)
    ||| (part_or_zero(l, 0) == part_or_zero(c, 0) && part_or_zero(l, 1) > part_or_zero(c, 1))
    ||| (part_or_zero(l, 0) == part_or_zero(c, 0) && part_or_zero(l, 1) == part_or_zero(c, 1)
        && part_or_zero(l, 2) > part_or_zero(c, 2))
}

/// The value of a digit string never shrinks as digits are appended.
proof fn lemma_dec_val_nonneg(d: Seq<char>)
    requires
        forall|i: int| 0 <= i < d.len() ==> is_ascii_digit_char(#[trigger] d[i]),
    ensures
        dec_val(d) >= 0,
    decreases d.len(),
{
    if d.len() > 0 {
        lemma_dec_val_nonneg(d.drop_last());
    }
}

/// A proper prefix of a digit string has a value no greater than the whole.
proof fn lemma_dec_val_prefix(d: Seq<char>, k: int)
    requires
        forall|i: int| 0 <= i < d.len() ==> is_ascii_digit_char(#[trigger] d[i]),
        0 <= k <= d.len(),
    ensures
        dec_val(d.take(k)) <= dec_val(d),
    decreases d.len() - k,
{
    if k == d.len() {
        assert(d.take(k) =~= d);
    } else {
        lemma_dec_val_prefix(d, k + 1);
        let p = d.take(k + 1);
        assert(p.drop_last() =~= d.take(k));
        assert(p.last() == d[k]);
        lemma_dec_val_nonneg(d.take(k));
        assert(dec_val(d.take(k)) * 10 >= dec_val(d.take(k))) by (nonlinear_arith)
            requires dec_val(d.take(k)) >= 0,
        ;
    }
}

/// Parse a piece as the standard `u32` parser would: `None` exactly when
/// the piece is empty, holds a non-digit after the optional `+`, or
/// overflows.
fn parse_piece(piece: &Vec<char>) -> (r: Option<u32>)
    ensures
        r is Some <==> parseable_u32(piece@),
        r matches Some(v) ==> v as int == piece_val(piece@),
{
    let ghost d = piece_digits(piece@);
    let start: usize = if piece.len() > 0 && piece[0] == '+' {
        1
    } else {
        0
    };
    proof {
        assert(d =~= piece@.skip(start as int));
    }
    if piece.len() == start {
        return None;
    }
    let mut val: u32 = 0;
    let mut i: usize = start;
    while i < piece.len()
        invariant
            start <= i <= piece.len(),
            start < piece.len(),
            d == piece_digits(piece@),
            d =~= piece@.skip(start as int),
            forall|j: int| 0 <= j < i - start ==> is_ascii_digit_char(#[trigger] d[j]),
            val as int == dec_val(d.take(i - start)),
        decreases piece.len() - i,
    {
        let c = piece[i];
        let code = c as u32;
        if code < 48 || code > 57 {
            proof {
                assert(d[i - start] == piece@[i as int]);
                assert(!is_ascii_digit_char(d[i - start]));
            }
            return None;
        }
        let digit = code - 48;
        proof {
            assert(is_ascii_digit_char(piece@[i as int]));
            assert(d[i - start] == piece@[i as int]);
        }
        if val > (u32::MAX - digit) / 10 {
            proof {
                let k = i - start;
                assert(d.take(k + 1).drop_last() =~= d.take(k));
                assert(d.take(k + 1).last() == d[k]);
                assert(dec_val(d.take(k + 1)) > u32::MAX as int) by (nonlinear_arith)
                    requires
                        dec_val(d.take(k + 1)) == dec_val(d.take(k)) * 10 + digit_val(d[k]),
                        dec_val(d.take(k)) == val as int,
                        digit_val(d[k]) == digit as int,
                        val > (u32::MAX - digit) / 10,
                        0 <= digit <= 9,
                ;
                if parseable_u32(piece@) {
                    lemma_dec_val_prefix(d, k + 1);
                }
            }
            return None;
        }
        proof {
            let k = i - start;
            assert(d.take(k + 1).drop_last() =~= d.take(k));
            assert(d.take(k + 1).last() == d[k]);
            assert(val * 10 + digit <= u32::MAX) by (nonlinear_arith)
                requires
                    val <= (u32::MAX - digit) / 10,
                    0 <= digit <= 9,
            ;
        }
        val = val * 10 + digit;
        i = i + 1;
    }
    proof {
        assert(d.take(d.len() as int) =~= d);
    }
    Some(val)
}

/// The numeric components of a version string, left to right.
fn collect_parts(chars: &Vec<char>) -> (parts: Vec<u32>)
    ensures
        parts@.map_values(|v: u32| v as int) == version_parts(chars@),
{
    let mut pieces: Vec<Vec<char>> = Vec::new();
    let mut cur: Vec<char> = Vec::new();
    let n = chars.len();
    proof {
        assert(chars@.skip(0) =~= chars@);
        assert(pieces@.map_values(|p: Vec<char>| p@) =~= Seq::<Seq<char>>::empty());
        assert(Seq::<Seq<char>>::empty() + split_acc(chars@, seq![]) =~= split_acc(
            chars@,
            seq![],
        ));
    }
    for i in 0..n
        invariant
            n == chars@.len(),
            split_dots(chars@) == pieces@.map_values(|p: Vec<char>| p@) + split_acc(
                chars@.skip(i as int),
                cur@,
            ),
    {
        proof {
            assert(chars@.skip(i as int).drop_first() =~= chars@.skip(i + 1));
            assert(chars@.skip(i as int)[0] == chars@[i as int]);
        }
        if chars[i] == '.' {
            let ghost old_pieces = pieces@;
            pieces.push(cur);
            cur = Vec::new();
            proof {
                assert(pieces@.map_values(|p: Vec<char>| p@) =~= old_pieces.map_values(
                    |p: Vec<char>| p@,
                ).push(pieces@.last()@));
            }
        } else {
            let c = chars[i];
            cur.push(c);
        }
    }
    let ghost old_pieces = pieces@;
    pieces.push(cur);
    proof {
        assert(chars@.skip(n as int) =~= Seq::<char>::empty());
        assert(pieces@.map_values(|p: Vec<char>| p@) =~= old_pieces.map_values(|p: Vec<char>| p@)
            + seq![pieces@.last()@]);
        assert(pieces@.map_values(|p: Vec<char>| p@) == split_dots(chars@));
    }
    let ghost pview = pieces@.map_values(|p: Vec<char>| p@);
    let mut parts: Vec<u32> = Vec::new();
    let m = pieces.len();
    proof {
        assert(pview.skip(0) =~= pview);
        assert(parts@.map_values(|v: u32| v as int) =~= Seq::<int>::empty());
        assert(Seq::<int>::empty() + numeric_parts(pview) =~= numeric_parts(pview));
    }
    for i in 0..m
        invariant
            m == pieces@.len(),
            pview == pieces@.map_values(|p: Vec<char>| p@),
            version_parts(chars@) == parts@.map_values(|v: u32| v as int) + numeric_parts(
                pview.skip(i as int),
            ),
    {
        proof {
            assert(pview.skip(i as int).drop_first() =~= pview.skip(i + 1));
            assert(pview.skip(i as int).first() == pview[i as int]);
            assert(pview[i as int] == pieces@[i as int]@);
        }
        match parse_piece(&pieces[i]) {
            Some(v) => {
                let ghost old_parts = parts@;
                parts.push(v);
                proof {
                    assert(parts@.map_values(|v: u32| v as int) =~= old_parts.map_values(
                        |v: u32| v as int,
                    ) + seq![v as int]);
                }
            },
            None => {},
        }
    }
    proof {
        assert(pview.skip(m as int) =~= Seq::<Seq<char>>::empty());
        assert(parts@.map_values(|v: u32| v as int) + numeric_parts(pview.skip(m as int))
            =~= parts@.map_values(|v: u32| v as int));
    }
    parts
}

/// Component `i` of a parsed part list, defaulting to zero.
fn part_at(parts: &Vec<u32>, i: usize) -> (r: u32)
    ensures
        r as int == part_or_zero(parts@.map_values(|v: u32| v as int), i as int),
{
    if i < parts.len() {
        parts[i]
    } else {
        0
    }
}

/// Compare two version strings; `true` exactly when `latest` is strictly
/// newer than `current` on the first three numeric components.
pub fn is_newer(current: &str, latest: &str) -> (r: bool)
    ensures
        r == spec_is_newer_version(current@, latest@),
{
    let current_chars = line_chars(current);
    let latest_chars = line_chars(latest);
    let current_parts = collect_parts(&current_chars);
    let latest_parts = collect_parts(&latest_chars);
    let c0 = part_at(&current_parts, 0);
    let c1 = part_at(&current_parts, 1);
    let c2 = part_at(&current_parts, 2);
    let l0 = part_at(&latest_parts, 0);
    let l1 = part_at(&latest_parts, 1);
    let l2 = part_at(&latest_parts, 2);
    if l0 > c0 {
        true
    } else if l0 < c0 {
        false
    } else if l1 > c1 {
        true
    } else if l1 < c1 {
        false
    } else {
        l2 > c2
    }
}

} // verus!
