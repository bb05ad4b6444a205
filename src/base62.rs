//! Base-62 text form of numeric identifiers.
use vstd::prelude::*;

verus! {

/// Why a text could not be read as a base-62 number.
#[derive(Clone, Copy, Debug, PartialEq, Eq, Structural)]
pub enum DecodingError {
    /// A character outside `0-9`, `A-Z`, `a-z`.
    InvalidBase62(char),
    /// The number does not fit in 64 bits.
    Overflow,
}

/// Digit value of a base-62 character: `0-9`, then `A-Z`, then `a-z`.
pub open spec fn digit_of(c: char) -> Option<nat> {
    if '0' <= c && c <= '9' {
        Some((c as nat - '0' as nat) as nat)
    } else if 'A' <= c && c <= 'Z' {
        Some((10 + c as nat - 'A' as nat) as nat)
    } else if 'a' <= c && c <= 'z' {
        Some((36 + c as nat - 'a' as nat) as nat)
    } else {
        None
    }
}

/// Every character is a base-62 digit.
pub open spec fn is_base62(s: Seq<char>) -> bool {
    forall|i: int| 0 <= i < s.len() ==> (#[trigger] digit_of(s[i])) is Some
}

/// The number a base-62 text denotes, most significant digit first.
pub open spec fn base62_value(s: Seq<char>) -> nat
    decreases s.len(),
{
    if s.len() == 0 {
        0
    } else {
        base62_value(s.drop_last()) * 62 + digit_of(s.last()).unwrap_or(0)
    }
}

/// Reads `string` as a base-62 number, as identifiers are written in URLs.
pub fn parse_base62(string: &str) -> (r: Result<u64, DecodingError>)
    ensures
        r is Ok <==> is_base62(string@) && base62_value(string@) <= u64::MAX,
        r is Ok ==> r->Ok_0 == base62_value(string@),
        r == Err::<u64, DecodingError>(DecodingError::Overflow) ==> exists|k: int|
            0 <= k <= string@.len() && is_base62(#[trigger] string@.subrange(0, k))
                && base62_value(string@.subrange(0, k)) > u64::MAX,
        (r matches Err(DecodingError::InvalidBase62(c)) ==> exists|k: int|
            0 <= k < string@.len() && is_base62(#[trigger] string@.subrange(0, k))
                && base62_value(string@.subrange(0, k)) <= u64::MAX
                && digit_of(string@[k]) is None && string@[k] == c),
{
    let len = string.unicode_len();
    let mut num: u64 = 0;
    let mut i: usize = 0;
    while i < len
        invariant
            len == string@.len(),
            i <= len,
            is_base62(string@.subrange(0, i as int)),
            num == base62_value(string@.subrange(0, i as int)),
        decreases len - i,
    {
        let c = string.get_char(i);
        let ghost pre = string@.subrange(0, i as int);
        let ghost next = string@.subrange(0, i + 1);
        assert(next.drop_last() =~= pre);
        assert(next.last() == c);
        let d: u64;
        if '0' <= c && c <= '9' {
            d = (c as u32 - '0' as u32) as u64;
        } else if 'A' <= c && c <= 'Z' {
            d = (10 + (c as u32 - 'A' as u32)) as u64;
        } else if 'a' <= c && c <= 'z' {
            d = (36 + (c as u32 - 'a' as u32)) as u64;
        } else {
            proof {
                lemma_not_all_digits(string@, i as int);
            }
            return Err(DecodingError::InvalidBase62(c));
        }
        assert(digit_of(c) == Some(d as nat));
        if num > (u64::MAX - d) / 62 {
            assert(num * 62 + d > u64::MAX) by (nonlinear_arith)
                requires
                    num > (u64::MAX - d) / 62,
                    d < 62,
            ;
            proof {
                lemma_prefix_overflow(string@, (i + 1) as int);
            }
            return Err(DecodingError::Overflow);
        }
        assert(num * 62 + d <= u64::MAX) by (nonlinear_arith)
            requires
                num <= (u64::MAX - d) / 62,
                d < 62,
        ;
        num = num * 62 + d;
        assert(is_base62(next)) by {
            assert forall|j: int| 0 <= j < next.len() implies (#[trigger] digit_of(next[j])) is Some by {
                if j < i {
                    assert(next[j] == pre[j]);
                }
            }
        }
        i = i + 1;
    }
    assert(string@.subrange(0, len as int) =~= string@);
    Ok(num)
}

/// Base-62 text of `n`, most significant digit first, without leading zeros.
pub open spec fn base62_text(n: nat) -> Seq<char>
    decreases n,
{
    let d = (n % 62) as int;
    let digit = "0123456789ABCDEFGHIJKLMNOPQRSTUVWXYZabcdefghijklmnopqrstuvwxyz"@.subrange(d, d + 1);
    if n < 62 {
        digit
    } else {
        base62_text(n / 62) + digit
    }
}

/// Writes `n` in base 62, as identifiers appear in URLs and paths.
pub fn to_base62(n: u64) -> (r: String)
    ensures
        r@ == base62_text(n as nat),
    decreases n,
{
    let alphabet = "0123456789ABCDEFGHIJKLMNOPQRSTUVWXYZabcdefghijklmnopqrstuvwxyz";
    proof {
        reveal_strlit("0123456789ABCDEFGHIJKLMNOPQRSTUVWXYZabcdefghijklmnopqrstuvwxyz");
    }
    let d = (n % 62) as usize;
    let digit = alphabet.substring_char(d, d + 1);
    if n < 62 {
        String::from_str(digit)
    } else {
        to_base62(n / 62).concat(digit)
    }
}

proof fn lemma_not_all_digits(s: Seq<char>, i: int)
    requires
        0 <= i < s.len(),
        digit_of(s[i]) is None,
    ensures
        !is_base62(s),
{
    assert(digit_of(s[i]) is None);
}

/// Once a prefix overflows, every longer text overflows too.
proof fn lemma_value_grows(s: Seq<char>, k: int)
    requires
        0 <= k <= s.len(),
    ensures
        base62_value(s.subrange(0, k)) <= base62_value(s),
    decreases s.len() - k,
{
    if k < s.len() {
        lemma_value_grows(s.drop_last(), k);
        assert(s.drop_last().subrange(0, k) =~= s.subrange(0, k));
    } else {
        assert(s.subrange(0, k) =~= s);
    }
}

proof fn lemma_prefix_overflow(s: Seq<char>, k: int)
    requires
        0 <= k <= s.len(),
        base62_value(s.subrange(0, k)) > u64::MAX,
    ensures
        !(is_base62(s) && base62_value(s) <= u64::MAX),
{
    lemma_value_grows(s, k);
}

} // verus!
