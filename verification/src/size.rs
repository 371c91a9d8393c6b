use vstd::prelude::*;

verus! {

/// Whether `b` is an ASCII decimal digit.
pub open spec fn is_dec_digit(b: u8) -> bool {
    0x30 <= b <= 0x39
}

/// Whether every byte of `s` is an ASCII decimal digit.
pub open spec fn all_digits(s: Seq<u8>) -> bool {
    forall|i: int| 0 <= i < s.len() ==> is_dec_digit(#[trigger] s[i])
}

/// The value of `s` read as a base-ten numeral, most significant digit first.
pub open spec fn dec_val(s: Seq<u8>) -> int
    decreases s.len(),
{
    if s.len() == 0 {
        0
    } else {
        dec_val(s.drop_last()) * 10 + (s.last() - 0x30)
    }
}

/// The expected total size that a response's size header denotes: the numeric
/// value when the header is present, non-empty, all digits, and fits in a
/// `u64`; zero (meaning "unknown") in every other case, the absent header
/// included.
pub open spec fn size_indicator(h: Option<Seq<u8>>) -> u64 {
    match h {
        Option::None => 0u64,
        Option::Some(s) => {
            if s.len() > 0 && all_digits(s) && dec_val(s) <= u64::MAX {
                dec_val(s) as u64
            } else {
                0u64
            }
        },
    }
}

/// The view of an optional header value as an optional byte sequence.
pub open spec fn opt_bytes(h: Option<&[u8]>) -> Option<Seq<u8>> {
    match h {
        Option::None => Option::None,
        Option::Some(s) => Option::Some(s@),
    }
}

/// A numeral's value is never negative.
proof fn lemma_dec_val_nonneg(s: Seq<u8>)
    requires
        all_digits(s),
    ensures
        dec_val(s) >= 0,
    decreases s.len(),
{
    if s.len() > 0 {
        assert(all_digits(s.drop_last()));
        lemma_dec_val_nonneg(s.drop_last());
    }
}

/// Extending a numeral by one digit multiplies its value by ten and adds the
/// digit, so a prefix never denotes more than the whole.
proof fn lemma_dec_val_prefix(s: Seq<u8>, i: int)
    requires
        all_digits(s),
        0 <= i <= s.len(),
    ensures
        dec_val(s.take(i)) <= dec_val(s),
    decreases s.len() - i,
{
    if i == s.len() {
        assert(s.take(i) =~= s);
    } else {
        lemma_dec_val_prefix(s, i + 1);
        assert(s.take(i + 1).drop_last() =~= s.take(i));
        assert(s.take(i + 1).last() == s[i]);
        assert(all_digits(s.take(i)));
        lemma_dec_val_nonneg(s.take(i));
        assert(dec_val(s.take(i + 1)) == dec_val(s.take(i)) * 10 + (s[i] - 0x30));
    }
}

/// Reads a byte slice as a base-ten `u64`.  Returns `None` when the slice is
/// empty, holds a non-digit, or denotes a value above `u64::MAX`.
fn parse_dec_u64(s: &[u8]) -> (r: Option<u64>)
    ensures
        r is Some <==> (s@.len() > 0 && all_digits(s@) && dec_val(s@) <= u64::MAX),
        r is Some ==> r->0 == dec_val(s@),
{
    if s.len() == 0 {
        return None;
    }
    let mut acc: u64 = 0;
    let mut i: usize = 0;
    while i < s.len()
        invariant
            0 <= i <= s@.len(),
            all_digits(s@.take(i as int)),
            acc == dec_val(s@.take(i as int)),
        decreases s@.len() - i,
    {
        let b = s[i];
        if b < 0x30 || b > 0x39 {
            assert(!is_dec_digit(s@[i as int]));
            return None;
        }
        let d: u64 = (b - 0x30) as u64;
        proof {
            assert(s@.take(i + 1).drop_last() =~= s@.take(i as int));
            assert(s@.take(i + 1).last() == s@[i as int]);
            assert(all_digits(s@.take(i + 1)));
            assert(dec_val(s@.take(i + 1)) == acc * 10 + d);
        }
        if acc > (u64::MAX - d) / 10 {
            proof {
                assert(acc * 10 + d > u64::MAX) by (nonlinear_arith)
                    requires
                        acc > (u64::MAX - d) / 10,
                        d <= 9,
                        (u64::MAX - d) / 10 * 10 + (u64::MAX - d) % 10 == u64::MAX - d,
                        0 <= (u64::MAX - d) % 10 < 10,
                ;
                if all_digits(s@) {
                    lemma_dec_val_prefix(s@, i + 1);
                }
            }
            return None;
        }
        proof {
            assert(acc * 10 + d <= u64::MAX) by (nonlinear_arith)
                requires
                    acc <= (u64::MAX - d) / 10,
                    (u64::MAX - d) / 10 * 10 <= u64::MAX - d,
            ;
        }
        acc = acc * 10 + d;
        i = i + 1;
    }
    proof {
        assert(s@.take(i as int) =~= s@);
    }
    Some(acc)
}

/// Reads the expected total size out of an optional size header: the numeric
/// value where the header is a well-formed decimal that fits, zero
/// ("unknown") where it is absent, empty, non-numeric, or too large.
pub fn expected_total(header: Option<&[u8]>) -> (r: u64)
    ensures
        r == size_indicator(opt_bytes(header)),
{
    match header {
        None => 0,
        Some(s) => {
            match parse_dec_u64(s) {
                Some(v) => v,
                None => 0,
            }
        },
    }
}

} // verus!
