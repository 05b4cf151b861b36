//! Byte-level text primitives: whitespace tokenization, line splitting,
//! decimal parsing, and slice searches.
//!
//! Everything the watchdog reads from the outside world — the kernel's CPU
//! accounting, route listings, control datagrams, command lines — arrives as
//! bytes. This module gives those bytes a mathematical reading: a sequence of
//! whitespace-separated fields, a sequence of newline-separated lines, the
//! value of a decimal token.

use vstd::prelude::*;

verus! {

/// Whether `b` is a byte that separates fields: space, tab, or carriage return.
pub open spec fn is_space(b: u8) -> bool {
    b == 32 || b == 9 || b == 13
}

/// Whether `b` is an ASCII decimal digit.
pub open spec fn is_digit(b: u8) -> bool {
    48 <= b <= 57
}

/// The end of the field that starts at `i`: the first position at or after
/// `i` that holds a separator, or the end of `s`.
pub open spec fn token_end(s: Seq<u8>, i: int) -> int
    decreases s.len() - i,
{
    if i < 0 || i >= s.len() || is_space(s[i]) {
        i
    } else {
        token_end(s, i + 1)
    }
}

/// The whitespace-separated fields of `s` from position `i` on.
pub open spec fn fields_from(s: Seq<u8>, i: int) -> Seq<Seq<u8>>
    decreases s.len() - i,
    via fields_from_decreases
{
    if i < 0 || i >= s.len() {
        Seq::empty()
    } else if is_space(s[i]) {
        fields_from(s, i + 1)
    } else {
        seq![s.subrange(i, token_end(s, i))] + fields_from(s, token_end(s, i))
    }
}

#[via_fn]
proof fn fields_from_decreases(s: Seq<u8>, i: int) {
    if 0 <= i < s.len() && !is_space(s[i]) {
        lemma_token_end(s, i);
        assert(token_end(s, i) == token_end(s, i + 1));
        lemma_token_end_next(s, i);
    }
}

/// A field that starts at a non-separator byte reaches past that byte.
proof fn lemma_token_end_next(s: Seq<u8>, i: int)
    requires
        0 <= i < s.len(),
        !is_space(s[i]),
    ensures
        i + 1 <= token_end(s, i) <= s.len(),
{
    lemma_token_end(s, i + 1);
}

/// The whitespace-separated fields of `s`.
pub open spec fn fields_of(s: Seq<u8>) -> Seq<Seq<u8>> {
    fields_from(s, 0)
}

/// `token_end` stays within bounds and runs over non-separator bytes only.
pub proof fn lemma_token_end(s: Seq<u8>, i: int)
    requires
        0 <= i <= s.len(),
    ensures
        i <= token_end(s, i) <= s.len(),
        forall|k: int| i <= k < token_end(s, i) ==> !is_space(s[k]),
        token_end(s, i) < s.len() ==> is_space(s[token_end(s, i)]),
    decreases s.len() - i,
{
    if i < s.len() && !is_space(s[i]) {
        lemma_token_end(s, i + 1);
    }
}

/// The value of a string of decimal digits, most significant first.
pub open spec fn digits_val(s: Seq<u8>) -> int
    decreases s.len(),
{
    if s.len() == 0 {
        0
    } else {
        digits_val(s.drop_last()) * 10 + (s.last() - 48)
    }
}

/// Whether every byte of `s` is a decimal digit.
pub open spec fn all_digits(s: Seq<u8>) -> bool {
    forall|i: int| 0 <= i < s.len() ==> is_digit(s[i])
}

/// A digit string has a non-negative value.
pub proof fn lemma_digits_val_nonneg(s: Seq<u8>)
    requires
        all_digits(s),
    ensures
        digits_val(s) >= 0,
    decreases s.len(),
{
    if s.len() > 0 {
        assert(all_digits(s.drop_last()));
        lemma_digits_val_nonneg(s.drop_last());
    }
}

/// Extending a digit string never lowers its value.
pub proof fn lemma_digits_val_prefix(s: Seq<u8>, m: int)
    requires
        all_digits(s),
        0 <= m <= s.len(),
    ensures
        digits_val(s) >= digits_val(s.take(m)),
    decreases s.len(),
{
    if m < s.len() {
        assert(all_digits(s.drop_last()));
        lemma_digits_val_prefix(s.drop_last(), m);
        assert(s.drop_last().take(m) =~= s.take(m));
        lemma_digits_val_nonneg(s.drop_last());
    } else {
        assert(s.take(m) =~= s);
    }
}

/// The value reached by the decimal parse of `s`, read as `str::parse::<u64>`
/// reads it: an optional leading plus sign, then at least one digit, with the
/// value within the `u64` range; anything else does not parse.
pub open spec fn parse_u64_spec(s: Seq<u8>) -> Option<u64> {
    let d = if s.len() > 0 && s[0] == 43 {
        s.skip(1)
    } else {
        s
    };
    if d.len() > 0 && all_digits(d) && digits_val(d) <= u64::MAX {
        Some(digits_val(d) as u64)
    } else {
        None
    }
}

/// The value of a field that should hold a decimal number, with a failed
/// parse read as zero.
pub open spec fn field_value(s: Seq<u8>) -> u64 {
    match parse_u64_spec(s) {
        Some(v) => v,
        None => 0,
    }
}

/// Parses `tok` as an unsigned decimal number, exactly as
/// `str::parse::<u64>` would: an optional leading `+`, then one or more
/// digits, rejecting anything else and any value past `u64::MAX`.
pub fn parse_u64(tok: &[u8]) -> (r: Option<u64>)
    ensures
        r == parse_u64_spec(tok@),
{
    let ghost d: Seq<u8> = if tok@.len() > 0 && tok@[0] == 43 {
        tok@.skip(1)
    } else {
        tok@
    };
    let off: usize = if tok.len() > 0 && tok[0] == 43 {
        1
    } else {
        0
    };
    assert(d =~= tok@.skip(off as int));
    if tok.len() == off {
        return None;
    }
    let mut acc: u64 = 0;
    let mut i: usize = off;
    while i < tok.len()
        invariant
            off <= i <= tok.len(),
            off == (if tok@.len() > 0 && tok@[0] == 43 {
                1int
            } else {
                0int
            }),
            d == (if tok@.len() > 0 && tok@[0] == 43 {
                tok@.skip(1)
            } else {
                tok@
            }),
            d == tok@.skip(off as int),
            d.len() == tok@.len() - off,
            all_digits(d.take(i - off)),
            acc == digits_val(d.take(i - off)),
        decreases tok.len() - i,
    {
        let b = tok[i];
        assert(d[i - off] == b);
        if b < 48 || b > 57 {
            assert(!is_digit(d[i - off]));
            assert(!all_digits(d));
            return None;
        }
        let digit: u64 = (b - 48) as u64;
        proof {
            assert(d.take(i - off + 1).drop_last() =~= d.take(i - off));
            assert(d.take(i - off + 1).last() == b);
            assert(digits_val(d.take(i - off + 1)) == acc * 10 + digit);
            assert(all_digits(d.take(i - off + 1)));
        }
        if acc > (u64::MAX - digit) / 10 {
            proof {
                assert(acc * 10 + digit > u64::MAX) by (nonlinear_arith)
                    requires
                        acc > (u64::MAX - digit) / 10,
                        0 <= digit <= 9,
                        acc >= 0,
                {}
                if all_digits(d) && digits_val(d) <= u64::MAX {
                    lemma_digits_val_prefix(d, i - off + 1);
                    assert(false);
                }
            }
            return None;
        }
        assert(acc * 10 + digit <= u64::MAX) by (nonlinear_arith)
            requires
                acc <= (u64::MAX - digit) / 10,
                0 <= digit <= 9,
                acc >= 0,
        {}
        acc = acc * 10 + digit;
        i = i + 1;
    }
    assert(d.take(i - off) =~= d);
    Some(acc)
}

/// Parses `tok` as a decimal number, reading a failed parse as zero.
pub fn parse_u64_or_zero(tok: &[u8]) -> (r: u64)
    ensures
        r == field_value(tok@),
{
    match parse_u64(tok) {
        Some(v) => v,
        None => 0,
    }
}

/// Whether `b` separates fields; the executable face of [`is_space`].
pub fn space_byte(b: u8) -> (r: bool)
    ensures
        r == is_space(b),
{
    b == 32 || b == 9 || b == 13
}

/// Splits `line` into its whitespace-separated fields.
pub fn split_fields(line: &[u8]) -> (fields: Vec<Vec<u8>>)
    ensures
        fields@.len() == fields_of(line@).len(),
        forall|k: int| 0 <= k < fields@.len() ==> fields@[k]@ == fields_of(line@)[k],
{
    let ghost s: Seq<u8> = line@;
    let mut fields: Vec<Vec<u8>> = Vec::new();
    let ghost mut done: Seq<Seq<u8>> = Seq::empty();
    let mut i: usize = 0;
    proof {
        assert(fields_of(s) =~= done + fields_from(s, 0));
    }
    while i < line.len()
        invariant
            i <= line.len(),
            s == line@,
            fields_of(s) == done + fields_from(s, i as int),
            done.len() == fields@.len(),
            forall|k: int| 0 <= k < done.len() ==> fields@[k]@ == done[k],
        decreases line.len() - i,
    {
        if space_byte(line[i]) {
            i = i + 1;
        } else {
            let ghost start = i as int;
            let mut j: usize = i;
            while j < line.len() && !space_byte(line[j])
                invariant
                    start <= j <= line.len(),
                    s == line@,
                    token_end(s, start) == token_end(s, j as int),
                decreases line.len() - j,
            {
                j = j + 1;
            }
            proof {
                assert(token_end(s, j as int) == j as int);
                lemma_token_end(s, start);
            }
            let tok = vstd::slice::slice_subrange(line, i, j);
            let tok_vec = vstd::slice::slice_to_vec(tok);
            fields.push(tok_vec);
            proof {
                done = done + seq![s.subrange(start, j as int)];
                assert(fields_of(s) =~= done + fields_from(s, j as int));
            }
            i = j;
        }
    }
    proof {
        assert(fields_from(s, i as int) =~= Seq::empty());
        assert(fields_of(s) =~= done);
    }
    fields
}

/// Whether the two byte strings hold the same bytes.
pub fn bytes_eq(a: &[u8], b: &[u8]) -> (r: bool)
    ensures
        r == (a@ == b@),
{
    if a.len() != b.len() {
        return false;
    }
    let mut k: usize = 0;
    while k < a.len()
        invariant
            k <= a.len(),
            a@.len() == b@.len(),
            forall|m: int| 0 <= m < k ==> a@[m] == b@[m],
        decreases a.len() - k,
    {
        if a[k] != b[k] {
            return false;
        }
        k = k + 1;
    }
    proof {
        assert(a@ =~= b@);
    }
    true
}

/// Whether `s` begins with the bytes of `p`.
pub open spec fn starts_with_spec(s: Seq<u8>, p: Seq<u8>) -> bool {
    p.len() <= s.len() && s.subrange(0, p.len() as int) == p
}

/// Whether `s` begins with the bytes of `p`.
pub fn starts_with(s: &[u8], p: &[u8]) -> (r: bool)
    ensures
        r == starts_with_spec(s@, p@),
{
    if p.len() > s.len() {
        return false;
    }
    bytes_eq(vstd::slice::slice_subrange(s, 0, p.len()), p)
}

/// Whether some byte of `s` is `b`.
pub open spec fn contains_byte_spec(s: Seq<u8>, b: u8) -> bool {
    exists|k: int| 0 <= k < s.len() && s[k] == b
}

/// Whether some byte of `s` is `b`.
pub fn contains_byte(s: &[u8], b: u8) -> (r: bool)
    ensures
        r == contains_byte_spec(s@, b),
{
    let mut k: usize = 0;
    while k < s.len()
        invariant
            k <= s.len(),
            forall|m: int| 0 <= m < k ==> s@[m] != b,
        decreases s.len() - k,
    {
        if s[k] == b {
            return true;
        }
        k = k + 1;
    }
    false
}

/// Whether `n` occurs as a contiguous run inside `h`.
pub open spec fn contains_seq(h: Seq<u8>, n: Seq<u8>) -> bool {
    exists|k: int| 0 <= k <= h.len() - n.len() && #[trigger] h.subrange(k, k + n.len()) == n
}

/// Whether `needle` occurs as a contiguous run inside `hay`.
pub fn contains_bytes(hay: &[u8], needle: &[u8]) -> (r: bool)
    ensures
        r == contains_seq(hay@, needle@),
{
    if needle.len() > hay.len() {
        return false;
    }
    if needle.len() == 0 {
        proof {
            assert(hay@.subrange(0, 0 + needle@.len() as int) =~= needle@);
        }
        return true;
    }
    let bound = hay.len() - needle.len();
    let mut k: usize = 0;
    while k <= bound
        invariant
            k <= bound + 1,
            bound == hay@.len() - needle@.len(),
            1 <= needle@.len() <= hay@.len(),
            hay@.len() <= usize::MAX,
            forall|m: int|
                0 <= m < k ==> #[trigger] hay@.subrange(m, m + needle@.len()) != needle@,
        decreases bound - k + 1,
    {
        if bytes_eq(vstd::slice::slice_subrange(hay, k, k + needle.len()), needle) {
            return true;
        }
        k = k + 1;
    }
    false
}

/// Whether every byte of `s` is a decimal digit, as in a process-id
/// directory name; an empty name also qualifies.
pub fn is_numeric_name(s: &[u8]) -> (r: bool)
    ensures
        r == all_digits(s@),
{
    let mut k: usize = 0;
    while k < s.len()
        invariant
            k <= s.len(),
            forall|m: int| 0 <= m < k ==> is_digit(s@[m]),
        decreases s.len() - k,
    {
        let b = s[k];
        if b < 48 || b > 57 {
            assert(!is_digit(s@[k as int]));
            return false;
        }
        k = k + 1;
    }
    true
}

/// The end of the line that starts at `i`: the first position at or after
/// `i` that holds a newline, or the end of `s`.
pub open spec fn line_end(s: Seq<u8>, i: int) -> int
    decreases s.len() - i,
{
    if i < 0 || i >= s.len() || s[i] == 10 {
        i
    } else {
        line_end(s, i + 1)
    }
}

/// `line_end` stays within bounds and runs over non-newline bytes only.
pub proof fn lemma_line_end(s: Seq<u8>, i: int)
    requires
        0 <= i <= s.len(),
    ensures
        i <= line_end(s, i) <= s.len(),
        forall|k: int| i <= k < line_end(s, i) ==> s[k] != 10,
        line_end(s, i) < s.len() ==> s[line_end(s, i)] == 10,
    decreases s.len() - i,
{
    if i < s.len() && s[i] != 10 {
        lemma_line_end(s, i + 1);
    }
}

/// Finds the end of the line that starts at `start`.
pub fn find_line_end(s: &[u8], start: usize) -> (j: usize)
    requires
        start <= s@.len(),
    ensures
        j == line_end(s@, start as int),
        start <= j <= s@.len(),
{
    let mut j: usize = start;
    while j < s.len() && s[j] != 10
        invariant
            start <= j <= s.len(),
            line_end(s@, start as int) == line_end(s@, j as int),
        decreases s.len() - j,
    {
        j = j + 1;
    }
    j
}

} // verus!
