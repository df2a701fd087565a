//! The quantity decoder: extracting a `0x`-prefixed hexadecimal quantity
//! from a raw JSON-RPC response and converting it to a `u64`.

use vstd::prelude::*;
use vstd::string::*;
use crate::error::RpcError;

verus! {

/// Whether `c` is an ASCII hexadecimal digit.
pub open spec fn is_hex_digit(c: char) -> bool {
    ||| '0' as u32 <= c as u32 <= '9' as u32
    ||| 'a' as u32 <= c as u32 <= 'f' as u32
    ||| 'A' as u32 <= c as u32 <= 'F' as u32
}

/// The numeric value of a hexadecimal digit.
pub open spec fn hex_digit_value(c: char) -> int {
    if '0' as u32 <= c as u32 <= '9' as u32 {
        c as u32 - '0' as u32
    } else if 'a' as u32 <= c as u32 <= 'f' as u32 {
        c as u32 - 'a' as u32 + 10
    } else if 'A' as u32 <= c as u32 <= 'F' as u32 {
        c as u32 - 'A' as u32 + 10
    } else {
        0
    }
}

/// The value of a sequence of hexadecimal digits, most significant first.
pub open spec fn hex_value(s: Seq<char>) -> int
    decreases s.len(),
{
    if s.len() == 0 {
        0
    } else {
        16 * hex_value(s.drop_last()) + hex_digit_value(s.last())
    }
}

/// Whether every character of `s` is a hexadecimal digit.
pub open spec fn all_hex_digits(s: Seq<char>) -> bool {
    forall|i: int| 0 <= i < s.len() ==> is_hex_digit(#[trigger] s[i])
}

/// `s` with every literal quote character removed (a stray quote left over
/// from extraction is tolerated).
pub open spec fn strip_quotes(s: Seq<char>) -> Seq<char> {
    s.filter(|c: char| c != '"')
}

/// `s` without a leading `0x`, if it has one.
pub open spec fn strip_hex_prefix(s: Seq<char>) -> Seq<char> {
    if s.len() >= 2 && s[0] == '0' && s[1] == 'x' {
        s.subrange(2, s.len() as int)
    } else {
        s
    }
}

/// The digits that remain of `s` once quotes and the `0x` prefix are gone.
pub open spec fn hex_core(s: Seq<char>) -> Seq<char> {
    strip_hex_prefix(strip_quotes(s))
}

/// Whether `s` decodes: a non-empty run of hexadecimal digits whose value
/// fits in a `u64`.
pub open spec fn hex_valid(s: Seq<char>) -> bool {
    &&& hex_core(s).len() > 0
    &&& all_hex_digits(hex_core(s))
    &&& hex_value(hex_core(s)) <= u64::MAX
}

/// What `hex_to_decimal` returns on `s`.
pub open spec fn hex_decode_result(s: Seq<char>) -> Result<u64, RpcError> {
    if hex_valid(s) {
        Ok(hex_value(hex_core(s)) as u64)
    } else {
        Err(RpcError::ParseError)
    }
}

/// What the fixed-window path extracts from raw response text `s`.
pub open spec fn fixed_window_result(s: Seq<char>) -> Result<Seq<char>, RpcError> {
    if s.len() < 36 {
        Err(RpcError::OutOfBounds)
    } else {
        Ok(s.subrange(34, s.len() - 2))
    }
}

/// What decoding a scalar-quantity response comes to: fixed-window
/// extraction followed by hexadecimal conversion.
pub open spec fn block_number_result(s: Seq<char>) -> Result<u64, RpcError> {
    if s.len() < 36 {
        Err(RpcError::OutOfBounds)
    } else {
        hex_decode_result(s.subrange(34, s.len() - 2))
    }
}

proof fn lemma_strip_quotes_step(s: Seq<char>, i: int)
    requires
        0 <= i < s.len(),
    ensures
        strip_quotes(s.take(i + 1)) == strip_quotes(s.take(i)) + (if s[i] != '"' {
            seq![s[i]]
        } else {
            Seq::<char>::empty()
        }),
    decreases s.len(),
{
    let pred = |c: char| c != '"';
    reveal_with_fuel(Seq::<_>::filter, 2);
    assert(s.take(i + 1).drop_last() =~= s.take(i));
    assert(s.take(i + 1).last() == s[i]);
    if pred(s[i]) {
        assert(s.take(i + 1).filter(pred) == s.take(i).filter(pred).push(s[i]));
        assert(s.take(i).filter(pred).push(s[i]) =~= s.take(i).filter(pred) + seq![s[i]]);
    } else {
        assert(s.take(i + 1).filter(pred) == s.take(i).filter(pred));
        assert(s.take(i).filter(pred) =~= s.take(i).filter(pred) + Seq::<char>::empty());
    }
}

proof fn lemma_hex_value_nonneg(s: Seq<char>)
    ensures
        hex_value(s) >= 0,
    decreases s.len(),
{
    if s.len() > 0 {
        lemma_hex_value_nonneg(s.drop_last());
    }
}

/// Appending digits never shrinks the value: the value of a prefix is a
/// lower bound on the value of the whole.
proof fn lemma_hex_value_prefix_bound(s: Seq<char>, k: int)
    requires
        0 <= k <= s.len(),
    ensures
        hex_value(s) >= hex_value(s.take(k)),
    decreases s.len() - k,
{
    if k == s.len() {
        assert(s.take(k) =~= s);
    } else {
        lemma_hex_value_prefix_bound(s, k + 1);
        assert(s.take(k + 1).drop_last() =~= s.take(k));
        lemma_hex_value_nonneg(s.take(k));
        assert(hex_value(s.take(k + 1)) == 16 * hex_value(s.take(k)) + hex_digit_value(
            s.take(k + 1).last(),
        ));
    }
}

/// Strip any quote characters from the text, strip a leading `0x` prefix if
/// present, and parse the remainder as an unsigned base-16 integer.
///
/// Returns `ParseError` exactly when no digits remain, a remaining character
/// is not a hexadecimal digit, or the value does not fit in a `u64`.
pub fn hex_to_decimal(hex_string: &str) -> (r: Result<u64, RpcError>)
    ensures
        r == hex_decode_result(hex_string@),
{
    let ghost s = hex_string@;
    let n = hex_string.unicode_len();
    let mut q: Vec<char> = Vec::new();
    let mut i: usize = 0;
    while i < n
        invariant
            i <= n,
            n == s.len(),
            s == hex_string@,
            q@ == strip_quotes(s.take(i as int)),
        decreases n - i,
    {
        let c = hex_string.get_char(i);
        proof {
            lemma_strip_quotes_step(s, i as int);
        }
        if c != '"' {
            q.push(c);
        }
        i += 1;
    }
    proof {
        assert(s.take(n as int) =~= s);
    }
    // q now holds the text with quotes removed; skip a leading `0x`.
    let start: usize = if q.len() >= 2 && q[0] == '0' && q[1] == 'x' {
        2
    } else {
        0
    };
    let ghost core = hex_core(s);
    proof {
        if start == 0 {
            assert(q@.subrange(0, q@.len() as int) =~= q@);
        }
        assert(core == q@.subrange(start as int, q@.len() as int));
    }
    if q.len() == start {
        return Err(RpcError::ParseError);
    }
    let mut acc: u64 = 0;
    let mut j: usize = start;
    while j < q.len()
        invariant
            start <= j <= q@.len(),
            core == q@.subrange(start as int, q@.len() as int),
            core == hex_core(s),
            s == hex_string@,
            core.len() == q@.len() - start,
            all_hex_digits(core.take(j - start)),
            acc == hex_value(core.take(j - start)),
        decreases q@.len() - j,
    {
        let c = q[j];
        let ghost k = j - start;
        proof {
            assert(core[k] == c);
            assert(core.take(k + 1).drop_last() =~= core.take(k));
            assert(core.take(k + 1).last() == c);
        }
        let u = c as u32;
        let d: u64 = if u >= 48 && u <= 57 {
            (u - 48) as u64
        } else if u >= 97 && u <= 102 {
            (u - 87) as u64
        } else if u >= 65 && u <= 70 {
            (u - 55) as u64
        } else {
            // A character that is not a hexadecimal digit: the text is invalid.
            assert(!is_hex_digit(c));
            assert(!all_hex_digits(core));
            return Err(RpcError::ParseError);
        };
        assert(is_hex_digit(c) && d == hex_digit_value(c));
        if acc >= 0x1000_0000_0000_0000u64 {
            // Another digit would carry the value past u64::MAX.
            proof {
                assert(hex_value(core.take(k + 1)) == 16 * acc + hex_digit_value(c));
                assert(hex_value(core.take(k + 1)) > u64::MAX);
                lemma_hex_value_prefix_bound(core, k + 1);
                assert(hex_value(core) > u64::MAX);
            }
            return Err(RpcError::ParseError);
        }
        acc = acc * 16 + d;
        j += 1;
    }
    proof {
        assert(core.take(core.len() as int) =~= core);
    }
    Ok(acc)
}

/// The brittle fixed-window extraction used for scalar quantities: fail with
/// `OutOfBounds` when the text is shorter than 36 characters, otherwise take
/// the characters from offset 34 up to two before the end.
///
/// For a canonical, whitespace-free response of the exact shape
/// `{"jsonrpc":"2.0","id":1,"result":"0xHEX"}` this yields exactly the
/// `0x`-prefixed hex string; any other shape yields garbage, not an error.
pub fn format_hex(hex: &str) -> (r: Result<&str, RpcError>)
    ensures
        match r {
            Ok(sub) => fixed_window_result(hex@) == Ok::<Seq<char>, RpcError>(sub@),
            Err(e) => fixed_window_result(hex@) == Err::<Seq<char>, RpcError>(e),
        },
{
    let n = hex.unicode_len();
    if n < 36 {
        return Err(RpcError::OutOfBounds);
    }
    Ok(hex.substring_char(34, n - 2))
}

/// Decode a scalar-quantity response: fixed-window extraction, then
/// hexadecimal conversion.
pub fn decode_block_number(rx: &str) -> (r: Result<u64, RpcError>)
    ensures
        r == block_number_result(rx@),
{
    match format_hex(rx) {
        Ok(h) => hex_to_decimal(h),
        Err(e) => Err(e),
    }
}

} // verus!
