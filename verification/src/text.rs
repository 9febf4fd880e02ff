//! Byte- and string-level helpers: prefix tests, decimal parsing and
//! decimal rendering, with exact specifications.

use vstd::prelude::*;
use vstd::string::StringSliceAdditionalSpecFns;
use vstd::string::StringExecFns;

verus! {

/// `p` is a prefix of `s`.
pub open spec fn seq_starts_with<A>(s: Seq<A>, p: Seq<A>) -> bool {
    p.len() <= s.len() && (forall|i: int| 0 <= i < p.len() ==> s[i] == p[i])
}

/// Byte-slice prefix test.
pub fn bytes_starts_with(s: &[u8], p: &[u8]) -> (r: bool)
    ensures
        r == seq_starts_with(s@, p@),
{
    if p.len() > s.len() {
        return false;
    }
    let mut i: usize = 0;
    while i < p.len()
        invariant
            0 <= i <= p@.len(),
            p@.len() <= s@.len(),
            forall|j: int| 0 <= j < i ==> s@[j] == p@[j],
        decreases p@.len() - i,
    {
        if s[i] != p[i] {
            return false;
        }
        i = i + 1;
    }
    true
}

/// Prefix test on the UTF-8 bytes of two string slices.
pub fn str_starts_with(s: &str, p: &str) -> (r: bool)
    ensures
        r == seq_starts_with(s.spec_bytes(), p.spec_bytes()),
{
    bytes_starts_with(s.as_bytes(), p.as_bytes())
}

/// The byte is an ASCII decimal digit.
pub open spec fn is_digit_byte(b: u8) -> bool {
    48 <= b <= 57
}

/// Every byte of the sequence is an ASCII decimal digit.
pub open spec fn all_digit_bytes(bs: Seq<u8>) -> bool {
    forall|i: int| 0 <= i < bs.len() ==> is_digit_byte(#[trigger] bs[i])
}

/// The number denoted by a sequence of ASCII digits, most significant first.
pub open spec fn digits_value(bs: Seq<u8>) -> int
    decreases bs.len(),
{
    if bs.len() == 0 {
        0
    } else {
        digits_value(bs.drop_last()) * 10 + (bs.last() - 48)
    }
}

pub proof fn lemma_digits_value_nonneg(bs: Seq<u8>)
    requires
        all_digit_bytes(bs),
    ensures
        digits_value(bs) >= 0,
    decreases bs.len(),
{
    if bs.len() > 0 {
        assert(all_digit_bytes(bs.drop_last())) by {
            assert(forall|i: int|
                0 <= i < bs.len() - 1 ==> bs.drop_last()[i] == #[trigger] bs[i]);
        }
        lemma_digits_value_nonneg(bs.drop_last());
    }
}

/// A digit prefix never denotes more than the whole digit string.
pub proof fn lemma_digits_value_take_le(bs: Seq<u8>, k: int)
    requires
        all_digit_bytes(bs),
        0 <= k <= bs.len(),
    ensures
        digits_value(bs.take(k)) <= digits_value(bs),
    decreases bs.len() - k,
{
    if k < bs.len() {
        lemma_digits_value_take_le(bs, k + 1);
        assert(bs.take(k + 1).drop_last() =~= bs.take(k));
        assert(bs.take(k + 1).last() == bs[k]);
        lemma_digits_value_nonneg(bs.take(k));
        assert(digits_value(bs.take(k)) <= digits_value(bs.take(k)) * 10 + (bs[k] - 48));
    } else {
        assert(bs.take(k) =~= bs);
    }
}

/// What `str::parse::<usize>` accepts: an optional leading `+`, then at
/// least one ASCII digit, denoting a value that fits in `usize`.
pub open spec fn spec_parse_usize(bs: Seq<u8>) -> Option<usize> {
    let ds = if bs.len() > 0 && bs[0] == 43u8 {
        bs.drop_first()
    } else {
        bs
    };
    if ds.len() > 0 && all_digit_bytes(ds) && digits_value(ds) <= usize::MAX {
        Some(digits_value(ds) as usize)
    } else {
        None
    }
}

/// Parses an unsigned decimal number as `str::parse::<usize>` does:
/// an optional leading `+`, then decimal digits; `None` on any other
/// character, on an empty number and on overflow.
pub fn parse_usize(s: &str) -> (r: Option<usize>)
    ensures
        r == spec_parse_usize(s.spec_bytes()),
{
    let bs = s.as_bytes();
    let ghost whole = s.spec_bytes();
    let mut i: usize = 0;
    if bs.len() > 0 && bs[0] == 43u8 {
        i = 1;
    }
    let ghost off = i as int;
    let ghost ds = if whole.len() > 0 && whole[0] == 43u8 {
        whole.drop_first()
    } else {
        whole
    };
    proof {
        assert(ds =~= whole.subrange(off, whole.len() as int));
    }
    if i >= bs.len() {
        return None;
    }
    let mut acc: usize = 0;
    while i < bs.len()
        invariant
            0 <= off <= i <= whole.len(),
            bs@ == whole,
            whole == s.spec_bytes(),
            off == if whole.len() > 0 && whole[0] == 43u8 { 1int } else { 0int },
            ds == if whole.len() > 0 && whole[0] == 43u8 { whole.drop_first() } else { whole },
            ds == whole.subrange(off, whole.len() as int),
            forall|j: int| off <= j < i ==> is_digit_byte(#[trigger] whole[j]),
            acc == digits_value(whole.subrange(off, i as int)),
        decreases whole.len() - i,
    {
        let b = bs[i];
        if b < 48 || b > 57 {
            proof {
                assert(whole.subrange(off, whole.len() as int)[i - off] == whole[i as int]);
                assert(!is_digit_byte(ds[i - off]));
                assert(!all_digit_bytes(ds));
            }
            return None;
        }
        let d = (b - 48) as usize;
        proof {
            assert(whole.subrange(off, i + 1).drop_last() =~= whole.subrange(off, i as int));
            assert(whole.subrange(off, i + 1).last() == whole[i as int]);
        }
        let next = match acc.checked_mul(10) {
            Some(v) => v.checked_add(d),
            None => None,
        };
        match next {
            Some(v) => {
                acc = v;
            },
            None => {
                proof {
                    if all_digit_bytes(ds) {
                        assert(forall|j: int|
                            0 <= j < ds.len() ==> ds[j] == #[trigger] whole[j + off]);
                        lemma_digits_value_take_le(ds, i - off + 1);
                        assert(ds.take(i - off + 1) =~= whole.subrange(off, i + 1));
                    }
                }
                return None;
            },
        }
        i = i + 1;
    }
    proof {
        assert(whole.subrange(off, i as int) =~= ds);
        assert(forall|j: int| 0 <= j < ds.len() ==> is_digit_byte(#[trigger] ds[j]));
    }
    Some(acc)
}

/// The decimal digit character for a value below ten.
pub open spec fn spec_digit_char(d: int) -> char {
    if d == 0 {
        '0'
    } else if d == 1 {
        '1'
    } else if d == 2 {
        '2'
    } else if d == 3 {
        '3'
    } else if d == 4 {
        '4'
    } else if d == 5 {
        '5'
    } else if d == 6 {
        '6'
    } else if d == 7 {
        '7'
    } else if d == 8 {
        '8'
    } else {
        '9'
    }
}

/// The decimal rendering of a natural number, as a character sequence,
/// without leading zeroes (`0` itself renders as `"0"`).
pub open spec fn spec_udec(n: int) -> Seq<char>
    decreases n,
{
    if n < 10 {
        seq![spec_digit_char(n)]
    } else {
        spec_udec(n / 10).push(spec_digit_char(n % 10))
    }
}

fn digit_str(d: u8) -> (r: &'static str)
    requires
        d < 10,
    ensures
        r@ =~= seq![spec_digit_char(d as int)],
{
    proof {
        reveal_strlit("0");
        reveal_strlit("1");
        reveal_strlit("2");
        reveal_strlit("3");
        reveal_strlit("4");
        reveal_strlit("5");
        reveal_strlit("6");
        reveal_strlit("7");
        reveal_strlit("8");
        reveal_strlit("9");
    }
    if d == 0 {
        "0"
    } else if d == 1 {
        "1"
    } else if d == 2 {
        "2"
    } else if d == 3 {
        "3"
    } else if d == 4 {
        "4"
    } else if d == 5 {
        "5"
    } else if d == 6 {
        "6"
    } else if d == 7 {
        "7"
    } else if d == 8 {
        "8"
    } else {
        "9"
    }
}

/// Renders a status code (or any small number) in decimal.
pub fn u16_to_dec(n: u16) -> (r: String)
    ensures
        r@ == spec_udec(n as int),
    decreases n,
{
    if n < 10 {
        digit_str(n as u8).to_owned()
    } else {
        let mut s = u16_to_dec(n / 10);
        s.append(digit_str((n % 10) as u8));
        proof {
            assert(s@ =~= spec_udec((n / 10) as int).push(spec_digit_char((n % 10) as int)));
        }
        s
    }
}

/// Decimal renderings are distinct for distinct numbers.
pub proof fn lemma_udec_injective(a: int, b: int)
    requires
        a >= 0,
        b >= 0,
        spec_udec(a) == spec_udec(b),
    ensures
        a == b,
    decreases a,
{
    lemma_udec_len(a);
    lemma_udec_len(b);
    if a < 10 && b < 10 {
        assert(spec_udec(a) == seq![spec_digit_char(a)]);
        assert(spec_udec(b) == seq![spec_digit_char(b)]);
        assert(seq![spec_digit_char(a)][0] == spec_digit_char(a));
        assert(seq![spec_digit_char(b)][0] == spec_digit_char(b));
        assert(spec_digit_char(a) == spec_digit_char(b));
    } else if a >= 10 && b >= 10 {
        assert(spec_udec(a).last() == spec_digit_char(a % 10));
        assert(spec_udec(b).last() == spec_digit_char(b % 10));
        assert(a % 10 == b % 10);
        assert(spec_udec(a).drop_last() =~= spec_udec(a / 10));
        assert(spec_udec(b).drop_last() =~= spec_udec(b / 10));
        lemma_udec_injective(a / 10, b / 10);
    } else if a < 10 {
        assert(spec_udec(b).len() >= 2);
        assert(false);
    } else {
        assert(spec_udec(a).len() >= 2);
        assert(false);
    }
}

pub proof fn lemma_udec_len(n: int)
    requires
        n >= 0,
    ensures
        spec_udec(n).len() >= 1,
        n >= 10 ==> spec_udec(n).len() >= 2,
    decreases n,
{
    if n >= 10 {
        lemma_udec_len(n / 10);
    }
}

} // verus!
