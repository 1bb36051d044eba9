//! Field Scanner: primitive fixed-width token extraction.
//!
//! All scanning is position-based over the character sequence of the packet:
//! a scanner takes the packet and a starting position, and on success returns
//! the position just past the characters it consumed. No partial width is
//! ever accepted, and consumed characters are never re-examined.

use vstd::prelude::*;

use crate::error::DecodeError;

verus! {

/// The character that marks an optional field as intentionally absent.
pub const SENTINEL: char = '-';

/// An ASCII decimal digit.
pub open spec fn is_packet_digit(c: char) -> bool {
    '0' as int <= c as int <= '9' as int
}

/// Numeric value of an ASCII decimal digit.
pub open spec fn digit_val(c: char) -> int {
    c as int - '0' as int
}

/// The character class of text fields: ASCII letters and digits, the space
/// used for trailing padding, and the asterisk.
pub open spec fn is_name_char(c: char) -> bool {
    ||| 'a' as int <= c as int <= 'z' as int
    ||| 'A' as int <= c as int <= 'Z' as int
    ||| is_packet_digit(c)
    ||| c == ' '
    ||| c == '*'
}

pub open spec fn all_digits(q: Seq<char>) -> bool {
    forall|i: int| 0 <= i < q.len() ==> is_packet_digit(#[trigger] q[i])
}

pub open spec fn all_name_chars(q: Seq<char>) -> bool {
    forall|i: int| 0 <= i < q.len() ==> is_name_char(#[trigger] q[i])
}

/// The unsigned value of a digit run, folded left to right
/// (`value = value * 10 + digit`).
pub open spec fn digits_val(q: Seq<char>) -> int
    decreases q.len(),
{
    if q.len() == 0 {
        0
    } else {
        digits_val(q.drop_last()) * 10 + digit_val(q.last())
    }
}

/// Ten to the `n`th power: the exclusive upper bound of an `n`-digit run.
pub open spec fn pow10(n: nat) -> int
    decreases n,
{
    if n == 0 {
        1
    } else {
        10 * pow10((n - 1) as nat)
    }
}

/// `q` with its trailing padding spaces removed.
pub open spec fn trim_spaces(q: Seq<char>) -> Seq<char>
    decreases q.len(),
{
    if q.len() > 0 && q.last() == ' ' {
        trim_spaces(q.drop_last())
    } else {
        q
    }
}

/// A fixed-width scan of `n` characters of some class starting at `pos`
/// succeeds exactly when the whole window is available and every character
/// is in class. These two predicates state that for the digit class.
pub open spec fn digits_ok(s: Seq<char>, pos: int, n: int) -> bool {
    pos + n <= s.len() && all_digits(s.subrange(pos, pos + n))
}

/// The error of a failed digit scan. Scanning is left to right, so a
/// character outside the class is hit before the input runs out.
pub open spec fn digits_err(s: Seq<char>, pos: int, n: int) -> DecodeError {
    if exists|i: int| pos <= i < s.len() && i < pos + n && !is_packet_digit(#[trigger] s[i]) {
        DecodeError::MalformedField
    } else {
        DecodeError::TruncatedInput
    }
}

/// As `digits_ok`, for the text-field character class.
pub open spec fn names_ok(s: Seq<char>, pos: int, n: int) -> bool {
    pos + n <= s.len() && all_name_chars(s.subrange(pos, pos + n))
}

/// As `digits_err`, for the text-field character class.
pub open spec fn names_err(s: Seq<char>, pos: int, n: int) -> DecodeError {
    if exists|i: int| pos <= i < s.len() && i < pos + n && !is_name_char(#[trigger] s[i]) {
        DecodeError::MalformedField
    } else {
        DecodeError::TruncatedInput
    }
}

/// An `n`-digit run is worth less than ten to the `n`.
pub proof fn lemma_digits_val_bound(q: Seq<char>)
    requires
        all_digits(q),
    ensures
        0 <= digits_val(q) < pow10(q.len()),
    decreases q.len(),
{
    if q.len() > 0 {
        assert(all_digits(q.drop_last())) by {
            assert(forall|i: int|
                0 <= i < q.len() - 1 ==> q.drop_last()[i] == #[trigger] q[i]);
        }
        lemma_digits_val_bound(q.drop_last());
    }
}

pub proof fn lemma_pow10_pos(n: nat)
    ensures
        pow10(n) >= 1,
    decreases n,
{
    if n > 0 {
        lemma_pow10_pos((n - 1) as nat);
    }
}

pub proof fn lemma_pow10_increases(m: nat, n: nat)
    requires
        m <= n,
    ensures
        pow10(m) <= pow10(n),
    decreases n,
{
    lemma_pow10_pos(m);
    if m < n {
        lemma_pow10_increases(m, (n - 1) as nat);
        lemma_pow10_pos((n - 1) as nat);
    }
}

/// Consumes exactly one character unconditionally; used for separator
/// discovery and for single-character enumerated codes.
pub fn scan_char(s: &str, pos: usize) -> (r: Result<char, DecodeError>)
    ensures
        pos < s@.len() ==> r == Ok::<char, DecodeError>(s@[pos as int]),
        pos >= s@.len() ==> r == Err::<char, DecodeError>(DecodeError::TruncatedInput),
{
    let len = s.unicode_len();
    scan_char_core(s, len, pos)
}

/// Core of `scan_char`, taking the input's length counted once by the
/// caller, so that one decode never re-walks the input.
pub(crate) fn scan_char_core(s: &str, len: usize, pos: usize) -> (r: Result<char, DecodeError>)
    requires
        len == s@.len(),
    ensures
        pos < s@.len() ==> r == Ok::<char, DecodeError>(s@[pos as int]),
        pos >= s@.len() ==> r == Err::<char, DecodeError>(DecodeError::TruncatedInput),
{
    if pos < len {
        Ok(s.get_char(pos))
    } else {
        Err(DecodeError::TruncatedInput)
    }
}

/// Consumes one character, required to be an ASCII decimal digit.
pub fn digit(s: &str, pos: usize) -> (r: Result<char, DecodeError>)
    ensures
        pos < s@.len() && is_packet_digit(s@[pos as int]) ==> r == Ok::<
            char,
            DecodeError,
        >(s@[pos as int]),
        pos < s@.len() && !is_packet_digit(s@[pos as int]) ==> r == Err::<
            char,
            DecodeError,
        >(DecodeError::MalformedField),
        pos >= s@.len() ==> r == Err::<char, DecodeError>(DecodeError::TruncatedInput),
{
    if pos < s.unicode_len() {
        let c = s.get_char(pos);
        let u = c as u32;
        if 48 <= u && u <= 57 {
            Ok(c)
        } else {
            Err(DecodeError::MalformedField)
        }
    } else {
        Err(DecodeError::TruncatedInput)
    }
}

/// Consumes one character, required to be in the text-field class
/// (alphanumeric, space or asterisk).
pub fn alphanumeric(s: &str, pos: usize) -> (r: Result<char, DecodeError>)
    ensures
        pos < s@.len() && is_name_char(s@[pos as int]) ==> r == Ok::<
            char,
            DecodeError,
        >(s@[pos as int]),
        pos < s@.len() && !is_name_char(s@[pos as int]) ==> r == Err::<
            char,
            DecodeError,
        >(DecodeError::MalformedField),
        pos >= s@.len() ==> r == Err::<char, DecodeError>(DecodeError::TruncatedInput),
{
    if pos < s.unicode_len() {
        let c = s.get_char(pos);
        let u = c as u32;
        if (97 <= u && u <= 122) || (65 <= u && u <= 90) || (48 <= u && u <= 57) || u == 32 || u
            == 42 {
            Ok(c)
        } else {
            Err(DecodeError::MalformedField)
        }
    } else {
        Err(DecodeError::TruncatedInput)
    }
}

/// Consumes exactly `n` characters, each required to be an ASCII decimal
/// digit, folding them left to right into an unsigned accumulator. The
/// 64-bit accumulator holds any run of up to 19 digits, which covers every
/// field of the packet layouts; no partial width is ever accepted.
pub fn digit_n(s: &str, pos: usize, n: usize) -> (r: Result<(usize, u64), DecodeError>)
    requires
        n <= 19,
    ensures
        r is Ok <==> digits_ok(s@, pos as int, n as int),
        r matches Ok(v) ==> v.0 == pos + n && v.1 == digits_val(
            s@.subrange(pos as int, pos + n),
        ),
        r matches Err(e) ==> e == digits_err(s@, pos as int, n as int),
{
    let len = s.unicode_len();
    digit_n_core(s, len, pos, n)
}

/// Core of `digit_n`, taking the input's length counted once by the
/// caller, so that one decode never re-walks the input.
pub(crate) fn digit_n_core(s: &str, len: usize, pos: usize, n: usize) -> (r: Result<
    (usize, u64),
    DecodeError,
>)
    requires
        len == s@.len(),
        n <= 19,
    ensures
        r is Ok <==> digits_ok(s@, pos as int, n as int),
        r matches Ok(v) ==> v.0 == pos + n && v.1 == digits_val(
            s@.subrange(pos as int, pos + n),
        ),
        r matches Err(e) ==> e == digits_err(s@, pos as int, n as int),
{
    if pos > len {
        return Err(DecodeError::TruncatedInput);
    }
    let mut acc: u64 = 0;
    let mut i: usize = 0;
    proof {
        assert(s@.subrange(pos as int, pos as int) =~= Seq::<char>::empty());
    }
    while i < n
        invariant
            i <= n,
            n <= 19,
            pos + i <= len,
            len == s@.len(),
            forall|j: int| pos <= j < pos + i ==> is_packet_digit(#[trigger] s@[j]),
            acc == digits_val(s@.subrange(pos as int, pos + i)),
            acc < pow10(i as nat),
        decreases n - i,
    {
        if pos + i == len {
            return Err(DecodeError::TruncatedInput);
        }
        let c = s.get_char(pos + i);
        let u = c as u32;
        if !(48 <= u && u <= 57) {
            proof {
                assert(!is_packet_digit(s@[pos + i]));
                if pos + n <= s@.len() {
                    assert(!is_packet_digit(s@.subrange(pos as int, pos + n)[i as int]));
                }
            }
            return Err(DecodeError::MalformedField);
        }
        proof {
            assert(pow10((i + 1) as nat) == 10 * pow10(i as nat));
            lemma_pow10_increases((i + 1) as nat, 19);
            assert(pow10(19) == 10_000_000_000_000_000_000) by {
                reveal_with_fuel(pow10, 20);
            }
            let q1 = s@.subrange(pos as int, pos + i + 1);
            assert(q1.drop_last() =~= s@.subrange(pos as int, pos + i));
            assert(q1.last() == s@[pos + i]);
        }
        acc = acc * 10 + ((u - 48) as u64);
        i = i + 1;
    }
    Ok((pos + n, acc))
}

/// Consumes exactly `n` characters, each required to be in the text-field
/// class, and returns the raw `n`-character span. Trimming of trailing
/// padding and sentinel interpretation are the caller's responsibility, so
/// the same primitive serves required and optional text fields.
pub fn alphanumeric_n(s: &str, pos: usize, n: usize) -> (r: Result<(usize, String), DecodeError>)
    ensures
        r is Ok <==> names_ok(s@, pos as int, n as int),
        r matches Ok(v) ==> v.0 == pos + n && v.1@ == s@.subrange(pos as int, pos + n),
        r matches Err(e) ==> e == names_err(s@, pos as int, n as int),
{
    let len = s.unicode_len();
    alphanumeric_n_core(s, len, pos, n)
}

/// Core of `alphanumeric_n`, taking the input's length counted once by the
/// caller, so that one decode never re-walks the input.
pub(crate) fn alphanumeric_n_core(s: &str, len: usize, pos: usize, n: usize) -> (r: Result<
    (usize, String),
    DecodeError,
>)
    requires
        len == s@.len(),
    ensures
        r is Ok <==> names_ok(s@, pos as int, n as int),
        r matches Ok(v) ==> v.0 == pos + n && v.1@ == s@.subrange(pos as int, pos + n),
        r matches Err(e) ==> e == names_err(s@, pos as int, n as int),
{
    if pos > len {
        return Err(DecodeError::TruncatedInput);
    }
    let mut i: usize = 0;
    while i < n
        invariant
            i <= n,
            pos + i <= len,
            len == s@.len(),
            forall|j: int| pos <= j < pos + i ==> is_name_char(#[trigger] s@[j]),
        decreases n - i,
    {
        if pos + i == len {
            return Err(DecodeError::TruncatedInput);
        }
        let c = s.get_char(pos + i);
        let u = c as u32;
        if !((97 <= u && u <= 122) || (65 <= u && u <= 90) || (48 <= u && u <= 57) || u == 32 || u
            == 42) {
            proof {
                assert(!is_name_char(s@[pos + i]));
                if pos + n <= s@.len() {
                    assert(!is_name_char(s@.subrange(pos as int, pos + n)[i as int]));
                }
            }
            return Err(DecodeError::MalformedField);
        }
        i = i + 1;
    }
    let span = s.substring_char(pos, pos + n);
    Ok((pos + n, span.to_owned()))
}

/// Consumes one character, required to equal the separator resolved from the
/// packet's second character.
pub fn expect_separator(s: &str, pos: usize, sep: char) -> (r: Result<usize, DecodeError>)
    ensures
        pos < s@.len() && s@[pos as int] == sep ==> r == Ok::<usize, DecodeError>(
            (pos + 1) as usize,
        ),
        pos < s@.len() && s@[pos as int] != sep ==> r == Err::<
            usize,
            DecodeError,
        >(DecodeError::MalformedSeparator),
        pos >= s@.len() ==> r == Err::<usize, DecodeError>(DecodeError::TruncatedInput),
{
    let len = s.unicode_len();
    expect_separator_core(s, len, pos, sep)
}

/// Core of `expect_separator`, taking the input's length counted once by
/// the caller, so that one decode never re-walks the input.
pub(crate) fn expect_separator_core(s: &str, len: usize, pos: usize, sep: char) -> (r: Result<
    usize,
    DecodeError,
>)
    requires
        len == s@.len(),
    ensures
        pos < s@.len() && s@[pos as int] == sep ==> r == Ok::<usize, DecodeError>(
            (pos + 1) as usize,
        ),
        pos < s@.len() && s@[pos as int] != sep ==> r == Err::<
            usize,
            DecodeError,
        >(DecodeError::MalformedSeparator),
        pos >= s@.len() ==> r == Err::<usize, DecodeError>(DecodeError::TruncatedInput),
{
    if pos < len {
        let c = s.get_char(pos);
        if c == sep {
            Ok(pos + 1)
        } else {
            Err(DecodeError::MalformedSeparator)
        }
    } else {
        Err(DecodeError::TruncatedInput)
    }
}

/// Returns `t` with its trailing padding spaces removed.
pub fn trim_trailing_spaces(t: &str) -> (r: String)
    ensures
        r@ == trim_spaces(t@),
{
    let len = t.unicode_len();
    let mut k: usize = len;
    while k > 0
        invariant
            k <= len,
            len == t@.len(),
            forall|j: int| k <= j < len ==> #[trigger] t@[j] == ' ',
        decreases k,
    {
        let c = t.get_char(k - 1);
        if c != ' ' {
            proof {
                lemma_trim_spaces_split(t@, k as int);
            }
            let kept = t.substring_char(0, k);
            return kept.to_owned();
        }
        k = k - 1;
    }
    proof {
        lemma_trim_spaces_split(t@, 0);
    }
    String::new()
}

/// If everything from `k` on is a space and the character before `k` (if
/// any) is not, then trimming keeps exactly the first `k` characters.
proof fn lemma_trim_spaces_split(q: Seq<char>, k: int)
    requires
        0 <= k <= q.len(),
        forall|j: int| k <= j < q.len() ==> #[trigger] q[j] == ' ',
        k > 0 ==> q[k - 1] != ' ',
    ensures
        trim_spaces(q) == q.subrange(0, k),
    decreases q.len(),
{
    if q.len() > k {
        assert(q.last() == ' ');
        assert(forall|j: int| k <= j < q.len() - 1 ==> #[trigger] q.drop_last()[j] == ' ');
        assert(k > 0 ==> q.drop_last()[k - 1] == q[k - 1]);
        lemma_trim_spaces_split(q.drop_last(), k);
        assert(q.drop_last().subrange(0, k) =~= q.subrange(0, k));
    } else {
        assert(trim_spaces(q) == q);
        assert(q.subrange(0, k) =~= q);
    }
}

/// Trimming removes only trailing spaces: the result is a prefix of the
/// input whose last character, if any, is not a space.
pub proof fn lemma_trim_spaces_prefix(q: Seq<char>)
    ensures
        trim_spaces(q).len() <= q.len(),
        trim_spaces(q) == q.subrange(0, trim_spaces(q).len() as int),
        trim_spaces(q).len() > 0 ==> trim_spaces(q).last() != ' ',
        trim_spaces(trim_spaces(q)) == trim_spaces(q),
    decreases q.len(),
{
    if q.len() > 0 && q.last() == ' ' {
        lemma_trim_spaces_prefix(q.drop_last());
        assert(q.drop_last().subrange(0, trim_spaces(q).len() as int) =~= q.subrange(
            0,
            trim_spaces(q).len() as int,
        ));
    } else {
        assert(q.subrange(0, q.len() as int) =~= q);
    }
}

} // verus!
