//! Small verified string utilities shared by the other modules.

use vstd::prelude::*;
use vstd::string::*;

verus! {

/// Appends one character to a `String` (std's `String::push`).
///
/// Trusted: the contract claims that the character is appended at the end
/// and nothing else changes, as std documents for `String::push`.
#[verifier::external_body]
pub(crate) fn push_char(s: &mut String, c: char)
    ensures
        final(s)@ == old(s)@.push(c),
{
    s.push(c)
}

/// Character-wise equality of two string slices.
pub fn str_equals(a: &str, b: &str) -> (r: bool)
    ensures
        r == (a@ == b@),
{
    let n = a.unicode_len();
    if n != b.unicode_len() {
        return false;
    }
    let mut i: usize = 0;
    while i < n
        invariant
            n == a@.len(),
            n == b@.len(),
            i <= n,
            forall|j: int| 0 <= j < i ==> a@[j] == b@[j],
        decreases n - i,
    {
        if a.get_char(i) != b.get_char(i) {
            return false;
        }
        i += 1;
    }
    assert(a@ =~= b@);
    true
}

/// `needle` occurs in `hay` at position `k`.
pub open spec fn occurs_at(hay: Seq<char>, needle: Seq<char>, k: int) -> bool {
    0 <= k && k + needle.len() <= hay.len() && hay.subrange(k, k + needle.len()) == needle
}

/// `needle` occurs somewhere in `hay` (the empty needle occurs everywhere).
pub open spec fn seq_contains_seq(hay: Seq<char>, needle: Seq<char>) -> bool {
    exists|k: int| occurs_at(hay, needle, k)
}

/// `hay` begins with `prefix`.
pub open spec fn seq_starts_with(hay: Seq<char>, prefix: Seq<char>) -> bool {
    occurs_at(hay, prefix, 0)
}

/// Does `needle` occur in `hay` at character position `k`?
fn matches_at(hay: &str, needle: &str, k: usize) -> (r: bool)
    requires
        k + needle@.len() <= hay@.len(),
    ensures
        r == occurs_at(hay@, needle@, k as int),
{
    let m = needle.unicode_len();
    let n = hay.unicode_len();
    let mut j: usize = 0;
    while j < m
        invariant
            m == needle@.len(),
            n == hay@.len(),
            k + m <= hay@.len(),
            j <= m,
            forall|t: int| 0 <= t < j ==> hay@[k + t] == needle@[t],
        decreases m - j,
    {
        if hay.get_char(k + j) != needle.get_char(j) {
            assert(hay@.subrange(k as int, k + m)[j as int] != needle@[j as int]);
            return false;
        }
        j += 1;
    }
    assert(hay@.subrange(k as int, k + m) =~= needle@);
    true
}

/// Substring search (`str::contains` with a string pattern).
pub fn contains_str(hay: &str, needle: &str) -> (r: bool)
    ensures
        r == seq_contains_seq(hay@, needle@),
{
    let n = hay.unicode_len();
    let m = needle.unicode_len();
    if m > n {
        assert forall|k: int| !occurs_at(hay@, needle@, k) by {}
        return false;
    }
    let mut k: usize = 0;
    loop
        invariant
            n == hay@.len(),
            m == needle@.len(),
            m <= n,
            k <= n - m,
            forall|t: int| 0 <= t < k ==> !occurs_at(hay@, needle@, t),
        decreases n - m - k,
    {
        if matches_at(hay, needle, k) {
            return true;
        }
        if k == n - m {
            assert forall|t: int| !occurs_at(hay@, needle@, t) by {
                if 0 <= t < k {
                }
            }
            return false;
        }
        k += 1;
    }
}

/// Prefix test (`str::starts_with` with a string pattern).
pub fn starts_with_str(hay: &str, prefix: &str) -> (r: bool)
    ensures
        r == seq_starts_with(hay@, prefix@),
{
    if prefix.unicode_len() > hay.unicode_len() {
        return false;
    }
    matches_at(hay, prefix, 0)
}

/// The decimal digits of a natural number, most significant first, without
/// leading zeros ("0" for zero).
pub open spec fn decimal_digits(n: nat) -> Seq<char>
    decreases n,
{
    if n < 10 {
        seq![((n + 48) as u8) as char]
    } else {
        decimal_digits(n / 10).push((((n % 10) + 48) as u8) as char)
    }
}

/// The decimal representation of an integer, as `{}` formats it.
pub open spec fn decimal(n: int) -> Seq<char> {
    if n < 0 {
        seq!['-'].add(decimal_digits((-n) as nat))
    } else {
        decimal_digits(n as nat)
    }
}

fn push_digits(out: &mut String, n: u64)
    ensures
        final(out)@ == old(out)@ + decimal_digits(n as nat),
    decreases n,
{
    if n >= 10 {
        push_digits(out, n / 10);
    }
    let d: u8 = (n % 10) as u8;
    push_char(out, (d + 48) as char);
    proof {
        if n >= 10 {
            assert(old(out)@ + decimal_digits(n as nat) =~= (old(out)@ + decimal_digits((n / 10) as nat)).push(((d + 48) as u8) as char));
        } else {
            assert(old(out)@ + decimal_digits(n as nat) =~= old(out)@.push(((d + 48) as u8) as char));
        }
    }
}

/// Appends the decimal representation of `n`.
pub fn push_decimal(out: &mut String, n: i64)
    ensures
        final(out)@ == old(out)@ + decimal(n as int),
{
    if n < 0 {
        push_char(out, '-');
        let m: u64 = if n == i64::MIN { 9223372036854775808u64 } else { (-n) as u64 };
        push_digits(out, m);
        proof {
            assert(old(out)@ + decimal(n as int) =~= old(out)@.push('-') + decimal_digits(m as nat));
        }
    } else {
        push_digits(out, n as u64);
    }
}

/// `k` spaces.
pub open spec fn spaces(k: int) -> Seq<char>
    decreases k,
{
    if k <= 0 {
        Seq::empty()
    } else {
        spaces(k - 1).push(' ')
    }
}

/// Right-aligns `s` in a field of `width` characters, as `{:width}` does
/// for numbers.
pub open spec fn pad_left(s: Seq<char>, width: int) -> Seq<char> {
    spaces(width - s.len()) + s
}

/// Left-aligns `s` in a field of `width` characters, as `{:<width}` does.
pub open spec fn pad_right(s: Seq<char>, width: int) -> Seq<char> {
    s + spaces(width - s.len())
}

/// Appends `k` spaces.
pub fn push_spaces(out: &mut String, k: usize)
    ensures
        final(out)@ == old(out)@ + spaces(k as int),
{
    let mut i: usize = 0;
    while i < k
        invariant
            i <= k,
            out@ == old(out)@ + spaces(i as int),
        decreases k - i,
    {
        push_char(out, ' ');
        i += 1;
        assert(old(out)@ + spaces(i as int) =~= (old(out)@ + spaces(i - 1)).push(' '));
    }
}

/// Appends `s` right-aligned in a field of `width` characters.
pub fn push_padded_left(out: &mut String, s: &str, width: usize)
    ensures
        final(out)@ == old(out)@ + pad_left(s@, width as int),
{
    let n = s.unicode_len();
    if n < width {
        push_spaces(out, width - n);
    } else {
        assert(spaces(width - n) =~= Seq::<char>::empty());
    }
    out.append(s);
    assert(old(out)@ + pad_left(s@, width as int) =~= old(out)@ + spaces(width - n) + s@);
}

/// Appends `s` left-aligned in a field of `width` characters.
pub fn push_padded_right(out: &mut String, s: &str, width: usize)
    ensures
        final(out)@ == old(out)@ + pad_right(s@, width as int),
{
    let n = s.unicode_len();
    out.append(s);
    if n < width {
        push_spaces(out, width - n);
    } else {
        assert(spaces(width - n) =~= Seq::<char>::empty());
    }
    assert(old(out)@ + pad_right(s@, width as int) =~= old(out)@ + s@ + spaces(width - n));
}

/// The decimal representation of `n` as a new `String`.
pub fn decimal_string(n: i64) -> (r: String)
    ensures
        r@ == decimal(n as int),
{
    let mut s = String::new();
    push_decimal(&mut s, n);
    assert(s@ =~= decimal(n as int));
    s
}

/// Appends the decimal representation of an unsigned number.
pub fn push_unsigned(out: &mut String, n: u64)
    ensures
        final(out)@ == old(out)@ + decimal(n as int),
{
    push_digits(out, n);
}

/// The decimal representation of an unsigned number as a new `String`.
pub fn unsigned_string(n: u64) -> (r: String)
    ensures
        r@ == decimal(n as int),
{
    let mut s = String::new();
    push_digits(&mut s, n);
    assert(s@ =~= decimal(n as int));
    s
}

proof fn lemma_spaces(k: int)
    ensures
        spaces(k).len() == if k <= 0 { 0 } else { k },
        forall|i: int| 0 <= i < spaces(k).len() ==> #[trigger] spaces(k)[i] == ' ',
    decreases k,
{
    if k > 0 {
        lemma_spaces(k - 1);
    }
}

/// Padding to a field of `width` characters keeps the text and fills with
/// spaces: right-aligned text ends the field, left-aligned text begins it,
/// and the field is `width` characters long unless the text is longer.
pub proof fn law_padding(s: Seq<char>, width: int)
    ensures
        pad_left(s, width).len() == if s.len() >= width { s.len() as int } else { width },
        pad_right(s, width).len() == if s.len() >= width { s.len() as int } else { width },
        pad_left(s, width).subrange(pad_left(s, width).len() - s.len(), pad_left(s, width).len() as int) == s,
        pad_right(s, width).subrange(0, s.len() as int) == s,
        forall|i: int| 0 <= i < pad_left(s, width).len() - s.len() ==> #[trigger] pad_left(s, width)[i] == ' ',
        forall|i: int| s.len() <= i < pad_right(s, width).len() ==> #[trigger] pad_right(s, width)[i] == ' ',
{
    lemma_spaces(width - s.len());
    let l = pad_left(s, width);
    let r = pad_right(s, width);
    assert(l.subrange(l.len() - s.len(), l.len() as int) =~= s);
    assert(r.subrange(0, s.len() as int) =~= s);
    assert forall|i: int| 0 <= i < l.len() - s.len() implies #[trigger] l[i] == ' ' by {
        assert(l[i] == spaces(width - s.len())[i]);
    }
    assert forall|i: int| s.len() <= i < r.len() implies #[trigger] r[i] == ' ' by {
        assert(r[i] == spaces(width - s.len())[i - s.len()]);
    }
}

/// A negative number is written as `-` followed by the digits of its
/// magnitude; no number's digits start with `-`.
pub proof fn law_decimal_sign(n: int)
    ensures
        n < 0 ==> decimal(n) == seq!['-'] + decimal(-n),
        n >= 0 ==> decimal(n).len() > 0 && decimal(n)[0] != '-',
{
    if n >= 0 {
        lemma_first_digit(n as nat);
    }
}

proof fn lemma_first_digit(n: nat)
    ensures
        decimal_digits(n).len() > 0,
        '0' <= decimal_digits(n)[0] && decimal_digits(n)[0] <= '9',
    decreases n,
{
    if n >= 10 {
        lemma_first_digit(n / 10);
        assert(decimal_digits(n)[0] == decimal_digits(n / 10)[0]);
    }
}

} // verus!
