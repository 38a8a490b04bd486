//! Character-level text helpers shared by the rest of the library.

use vstd::prelude::*;
use vstd::string::*;

verus! {

/// The Unicode `White_Space` property: the characters that `char::is_whitespace`
/// accepts and that `str::trim` removes.
pub open spec fn is_white_space(c: char) -> bool {
    let v = c as u32;
    ||| 0x09 <= v <= 0x0d
    ||| v == 0x20
    ||| v == 0x85
    ||| v == 0xa0
    ||| v == 0x1680
    ||| 0x2000 <= v <= 0x200a
    ||| v == 0x2028
    ||| v == 0x2029
    ||| v == 0x202f
    ||| v == 0x205f
    ||| v == 0x3000
}

/// Whether `c` has the Unicode `White_Space` property, as `char::is_whitespace`
/// answers.
pub fn char_is_whitespace(c: char) -> (res: bool)
    ensures
        res == is_white_space(c),
{
    let v = c as u32;
    (0x09 <= v && v <= 0x0d) || v == 0x20 || v == 0x85 || v == 0xa0 || v == 0x1680
        || (0x2000 <= v && v <= 0x200a) || v == 0x2028 || v == 0x2029 || v == 0x202f || v == 0x205f
        || v == 0x3000
}

/// A text is blank when trimming it leaves nothing: every character is white space.
pub open spec fn is_blank(s: Seq<char>) -> bool {
    forall|i: int| 0 <= i < s.len() ==> is_white_space(#[trigger] s[i])
}

/// Whether `s.trim()` is empty.
pub fn is_blank_text(s: &str) -> (res: bool)
    ensures
        res == is_blank(s@),
{
    let n = s.unicode_len();
    let mut i: usize = 0;
    while i < n
        invariant
            n == s@.len(),
            i <= n,
            forall|j: int| 0 <= j < i ==> is_white_space(#[trigger] s@[j]),
        decreases n - i,
    {
        let c = s.get_char(i);
        if !char_is_whitespace(c) {
            return false;
        }
        i += 1;
    }
    true
}

/// `n` spaces.
pub open spec fn spaces(n: nat) -> Seq<char> {
    Seq::new(n, |i: int| ' ')
}

/// `s` filled on the right with spaces up to `width` characters, as the
/// `{:<width}` format does; a longer text is left as it is.
pub open spec fn pad_right(s: Seq<char>, width: nat) -> Seq<char> {
    if s.len() >= width {
        s
    } else {
        s + spaces((width - s.len()) as nat)
    }
}

/// Left-aligning never shortens: the result is `s` itself, followed by
/// spaces up to `width` characters when `s` is shorter.
pub proof fn lemma_pad_right_keeps_text(s: Seq<char>, width: nat)
    ensures
        pad_right(s, width).len() == if s.len() >= width { s.len() } else { width },
        pad_right(s, width).subrange(0, s.len() as int) == s,
        forall|i: int| s.len() <= i < pad_right(s, width).len() ==> pad_right(s, width)[i] == ' ',
{
    let p = pad_right(s, width);
    assert(p.subrange(0, s.len() as int) =~= s);
}

/// Left-aligns `s` in a field of `width` characters.
pub fn left_aligned(s: &str, width: usize) -> (res: String)
    ensures
        res@ == pad_right(s@, width as nat),
        res@.len() == if s@.len() >= width { s@.len() } else { width as nat },
        res@.subrange(0, s@.len() as int) == s@,
        forall|i: int| s@.len() <= i < res@.len() ==> res@[i] == ' ',
{
    proof {
        lemma_pad_right_keeps_text(s@, width as nat);
    }
    let n = s.unicode_len();
    let mut out = String::from_str(s);
    if n >= width {
        return out;
    }
    let mut k: usize = n;
    proof {
        reveal_strlit(" ");
        assert(spaces(0) =~= Seq::<char>::empty());
        assert(out@ =~= s@ + spaces(0));
    }
    while k < width
        invariant
            n == s@.len(),
            n <= k <= width,
            out@ == s@ + spaces((k - n) as nat),
        decreases width - k,
    {
        proof {
            reveal_strlit(" ");
        }
        out.append(" ");
        proof {
            assert(spaces((k + 1 - n) as nat) =~= spaces((k - n) as nat) + " "@);
        }
        k += 1;
    }
    out
}

/// The lower-case hexadecimal digit for `d` in `0..16`.
pub open spec fn hex_digit(d: int) -> char {
    if d < 10 {
        (d + 48) as char
    } else {
        (d + 87) as char
    }
}

/// The last `n` hexadecimal digits of `v`, most significant first.
pub open spec fn hex_digits(v: nat, n: nat) -> Seq<char>
    decreases n,
{
    if n == 0 {
        Seq::empty()
    } else {
        hex_digits(v / 16, (n - 1) as nat).push(hex_digit((v % 16) as int))
    }
}

/// `hex_digits(v, n)` has `n` digits.
pub proof fn lemma_hex_digits_len(v: nat, n: nat)
    ensures
        hex_digits(v, n).len() == n,
    decreases n,
{
    if n > 0 {
        lemma_hex_digits_len(v / 16, (n - 1) as nat);
    }
}

/// The hyphenated lower-case form of the UUID whose 128-bit big-endian value
/// is `id`: 8, 4, 4, 4 and 12 hex digits joined by `-`.
pub open spec fn uuid_text(id: u128) -> Seq<char> {
    let d = hex_digits(id as nat, 32);
    d.subrange(0, 8) + seq!['-'] + d.subrange(8, 12) + seq!['-'] + d.subrange(12, 16) + seq!['-']
        + d.subrange(16, 20) + seq!['-'] + d.subrange(20, 32)
}

/// A UUID's text is 36 characters long.
pub proof fn lemma_uuid_text_len(id: u128)
    ensures
        uuid_text(id).len() == 36,
{
    lemma_hex_digits_len(id as nat, 32);
}

/// `uuid::Uuid`'s `Display` (through `ToString`): the UUID built by
/// `Uuid::from_u128(id)` is written as its hyphenated lower-case text.
#[verifier::external_body]
pub(crate) fn uuid_string(id: u128) -> (res: String)
    ensures
        res@ == uuid_text(id),
{
    uuid::Uuid::from_u128(id).to_string()
}

/// Whether `id` carries the version-4 and RFC variant bits.
pub open spec fn is_random_uuid(id: u128) -> bool {
    id & 0x0000_0000_0000_F000_C000_0000_0000_0000u128 == 0x0000_0000_0000_4000_8000_0000_0000_0000u128
}

/// `uuid::Uuid::new_v4`: a random UUID, read back with `as_u128`. What is
/// promised of every outcome is only its version-4 and variant bits.
#[verifier::external_body]
pub(crate) fn fresh_uuid() -> (res: u128)
    ensures
        is_random_uuid(res),
{
    uuid::Uuid::new_v4().as_u128()
}

/// Whether two texts hold the same characters.
pub fn same_text(a: &str, b: &str) -> (res: bool)
    ensures
        res == (a@ == b@),
{
    let n = a.unicode_len();
    let m = b.unicode_len();
    if n != m {
        return false;
    }
    let mut i: usize = 0;
    while i < n
        invariant
            n == a@.len(),
            n == b@.len(),
            i <= n,
            forall|j: int| 0 <= j < i ==> a@[j] == b@[j],
        decreases n - i,
    {
        if a.get_char(i) != b.get_char(i) {
            return false;
        }
        i += 1;
    }
    assert(a@ =~= b@);
    true
}

} // verus!
