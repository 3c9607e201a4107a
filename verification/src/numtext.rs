//! Decimal text, both ways: rendering counters as ASCII digits and
//! reading unsigned numbers out of ASCII text.
//!
//! Everything works on plain bytes, so the contracts speak of byte
//! sequences; the surrounding program hands strings in and out as UTF-8.

use vstd::prelude::*;

verus! {

/// The decimal representation of `n`, most significant digit first.
pub open spec fn dec_rep(n: nat) -> Seq<u8>
    decreases n,
{
    if n < 10 {
        seq![(48 + n) as u8]
    } else {
        dec_rep(n / 10) + seq![(48 + n % 10) as u8]
    }
}

/// An ASCII decimal digit.
pub open spec fn is_dec_digit(b: u8) -> bool {
    48 <= b <= 57
}

/// The number that a sequence of decimal digits denotes.
pub open spec fn dec_val(s: Seq<u8>) -> int
    decreases s.len(),
{
    if s.len() == 0 {
        0
    } else {
        dec_val(s.drop_last()) * 10 + (s.last() - 48)
    }
}

/// A sequence made of decimal digits only.
pub open spec fn all_dec_digits(s: Seq<u8>) -> bool {
    forall|i: int| 0 <= i < s.len() ==> is_dec_digit(#[trigger] s[i])
}

/// The digit text that stands for `n`, of any unsigned size.
pub fn u128_to_dec(n: u128) -> (v: Vec<u8>)
    ensures
        v@ == dec_rep(n as nat),
    decreases n,
{
    if n < 10 {
        let mut v: Vec<u8> = Vec::new();
        v.push(48 + n as u8);
        proof {
            assert(v@ =~= dec_rep(n as nat));
        }
        v
    } else {
        let mut v = u128_to_dec(n / 10);
        v.push(48 + (n % 10) as u8);
        proof {
            assert(v@ =~= dec_rep(n as nat));
        }
        v
    }
}

/// The text shown for a frame-rate reading `v` in
/// milli-frames-per-second: the whole part, a dot, the tenths digit
/// (truncated), and the unit.
pub open spec fn fps_text_spec(v: int) -> Seq<u8> {
    dec_rep((v / 1000) as nat) + seq![
        46u8,
        (48 + (v % 1000) / 100) as u8,
        32u8,
        102u8,
        112u8,
        115u8,
    ]
}

/// Render a frame-rate reading with one decimal digit, as in
/// `2.5 fps` for a reading of 2500.
pub fn format_fps(v: u128) -> (r: Vec<u8>)
    ensures
        r@ == fps_text_spec(v as int),
{
    let mut r = u128_to_dec(v / 1000);
    r.push(46);
    r.push(48 + ((v % 1000) / 100) as u8);
    r.push(32);
    r.push(102);
    r.push(112);
    r.push(115);
    proof {
        assert(r@ =~= fps_text_spec(v as int));
    }
    r
}

/// The number in a digit string never shrinks when digits are appended:
/// any digit prefix denotes at most what the whole denotes.
proof fn lemma_dec_val_prefix(s: Seq<u8>, i: int)
    requires
        all_dec_digits(s),
        0 <= i <= s.len(),
    ensures
        0 <= dec_val(s.take(i)) <= dec_val(s),
    decreases s.len() - i,
{
    if i == s.len() {
        assert(s.take(i) =~= s);
        lemma_dec_val_nonneg(s);
    } else {
        lemma_dec_val_prefix(s, i + 1);
        let t = s.take(i + 1);
        assert(t.drop_last() =~= s.take(i));
        assert(t.last() == s[i]);
        lemma_dec_val_nonneg(s.take(i));
        assert(dec_val(t) == dec_val(s.take(i)) * 10 + (s[i] - 48));
        assert(dec_val(s.take(i)) <= dec_val(s.take(i)) * 10);
    }
}

/// A digit string denotes a non-negative number.
proof fn lemma_dec_val_nonneg(s: Seq<u8>)
    requires
        all_dec_digits(s),
    ensures
        dec_val(s) >= 0,
    decreases s.len(),
{
    if s.len() > 0 {
        assert(all_dec_digits(s.drop_last()));
        lemma_dec_val_nonneg(s.drop_last());
    }
}

/// The digits of a number text: everything after an optional leading
/// plus sign.
pub open spec fn num_body(s: Seq<u8>) -> Seq<u8> {
    if s.len() > 0 && s[0] == 43 {
        s.drop_first()
    } else {
        s
    }
}

/// Whether `s` is text that denotes the unsigned number `v`: one or
/// more decimal digits, after an optional leading plus sign.
pub open spec fn denotes_u64(s: Seq<u8>, v: int) -> bool {
    num_body(s).len() > 0 && all_dec_digits(num_body(s)) && dec_val(num_body(s)) == v
}

/// Read an unsigned decimal number, with an optional leading plus sign.
///
/// Returns the denoted value exactly when the text is well-formed and
/// the value fits; returns nothing on empty text, a stray character, or
/// a value past the limit.
pub fn parse_u64(s: &[u8]) -> (r: Option<u64>)
    ensures
        match r {
            Some(v) => denotes_u64(s@, v as int),
            None => forall|v: int| 0 <= v <= u64::MAX ==> !denotes_u64(s@, v),
        },
{
    let n: usize = s.len();
    let start: usize = if n > 0 && s[0] == 43 {
        1
    } else {
        0
    };
    let ghost t = num_body(s@);
    proof {
        assert(t =~= s@.subrange(start as int, n as int));
    }
    if start >= n {
        // no digits at all
        return None;
    }
    let mut acc: u64 = 0;
    let mut i: usize = start;
    while i < n
        invariant
            start <= i <= n,
            n == s@.len(),
            t == num_body(s@),
            t == s@.subrange(start as int, n as int),
            t.len() == n - start,
            all_dec_digits(t.take(i - start)),
            acc == dec_val(t.take(i - start)),
        decreases n - i,
    {
        let b = s[i];
        if b < 48 || b > 57 {
            proof {
                assert(t[i - start] == b);
                assert(!all_dec_digits(t));
            }
            return None;
        }
        let d: u64 = (b - 48) as u64;
        if acc > (u64::MAX - d) / 10 {
            // the value would pass the limit; so does every longer prefix
            proof {
                let p = t.take(i - start + 1);
                assert(p.drop_last() =~= t.take(i - start));
                assert(p.last() == t[i - start]);
                assert(dec_val(p) == acc * 10 + d);
                assert(acc * 10 + d > u64::MAX) by (nonlinear_arith)
                    requires
                        acc > (u64::MAX - d) / 10,
                        0 <= d <= 9,
                        acc >= 0,
                ;
                if t.len() > 0 && all_dec_digits(t) {
                    lemma_dec_val_prefix(t, i - start + 1);
                }
            }
            return None;
        }
        proof {
            assert(acc * 10 + d <= u64::MAX) by (nonlinear_arith)
                requires
                    acc <= (u64::MAX - d) / 10,
                    0 <= d <= 9,
                    acc >= 0,
            ;
            let p = t.take(i - start + 1);
            assert(p.drop_last() =~= t.take(i - start));
            assert(p.last() == t[i - start]);
        }
        acc = acc * 10 + d;
        i = i + 1;
    }
    proof {
        assert(t.take(n - start) =~= t);
    }
    Some(acc)
}

} // verus!
