//! Number and text formatting used in the messages shown to the user.

use vstd::prelude::*;

verus! {

/// The digit for `d` (0 to 15) in upper-case hexadecimal (and decimal, for d < 10).
pub open spec fn digit_char(d: int) -> char {
    if d < 10 {
        (48 + d) as char
    } else {
        (55 + d) as char
    }
}

/// The digit for `d` (0 to 15) in lower-case hexadecimal.
pub open spec fn lower_digit_char(d: int) -> char {
    if d < 10 {
        (48 + d) as char
    } else {
        (87 + d) as char
    }
}

/// The `width` lowest hexadecimal digits of `v`, most significant first,
/// upper case when `upper` holds (the `{:0wX}` / `{:0wx}` format of a value
/// that has at most `width` digits).
pub open spec fn hex_digits(v: nat, width: nat, upper: bool) -> Seq<char>
    decreases width,
{
    if width == 0 {
        Seq::empty()
    } else {
        hex_digits(v / 16, (width - 1) as nat, upper).push(
            if upper {
                digit_char((v % 16) as int)
            } else {
                lower_digit_char((v % 16) as int)
            },
        )
    }
}

/// `v` in decimal, without leading zeros (the `{}` format of an unsigned integer).
pub open spec fn decimal_digits(v: nat) -> Seq<char>
    decreases v,
{
    if v < 10 {
        seq![digit_char(v as int)]
    } else {
        decimal_digits(v / 10).push(digit_char((v % 10) as int))
    }
}

/// `s` followed by spaces up to `width` characters (the `{:w}` format of a string).
pub open spec fn pad_right(s: Seq<char>, width: nat) -> Seq<char> {
    if s.len() >= width {
        s
    } else {
        s + Seq::new((width - s.len()) as nat, |i: int| ' ')
    }
}

fn digit_str(d: u64, upper: bool) -> (s: &'static str)
    requires
        d < 16,
    ensures
        s@ == seq![if upper { digit_char(d as int) } else { lower_digit_char(d as int) }],
{
    let digits = if upper {
        proof {
            reveal_strlit("0123456789ABCDEF");
        }
        "0123456789ABCDEF"
    } else {
        proof {
            reveal_strlit("0123456789abcdef");
        }
        "0123456789abcdef"
    };
    let s = digits.substring_char(d as usize, d as usize + 1);
    assert(s@ =~= seq![if upper { digit_char(d as int) } else { lower_digit_char(d as int) }]);
    s
}

/// Formats the `width` lowest hexadecimal digits of `v`, zero-padded.
pub fn hex_string(v: u64, width: usize, upper: bool) -> (s: String)
    ensures
        s@ == hex_digits(v as nat, width as nat, upper),
{
    let mut s = String::new();
    let mut rest = v;
    let mut k: usize = 0;
    while k < width
        invariant
            k <= width,
            hex_digits(v as nat, width as nat, upper) == hex_digits(
                rest as nat,
                (width - k) as nat,
                upper,
            ) + s@,
        decreases width - k,
    {
        let d = digit_str(rest % 16, upper);
        let ghost old_s = s@;
        s = String::from_str(d).concat(s.as_str());
        assert(hex_digits(rest as nat, (width - k) as nat, upper) == hex_digits(
            (rest / 16) as nat,
            (width - k - 1) as nat,
            upper,
        ).push(d@[0]));
        assert(hex_digits((rest / 16) as nat, (width - k - 1) as nat, upper) + s@ =~= hex_digits(
            rest as nat,
            (width - k) as nat,
            upper,
        ) + old_s);
        rest = rest / 16;
        k = k + 1;
    }
    assert(hex_digits(rest as nat, 0, upper) + s@ =~= s@);
    s
}

/// Formats `v` in decimal.
pub fn decimal_string(v: u64) -> (s: String)
    ensures
        s@ == decimal_digits(v as nat),
{
    let mut s = String::new();
    let mut rest = v;
    while rest >= 10
        invariant
            decimal_digits(v as nat) == decimal_digits(rest as nat) + s@,
        decreases rest,
    {
        let d = digit_str(rest % 10, true);
        let ghost old_s = s@;
        s = String::from_str(d).concat(s.as_str());
        assert(decimal_digits((rest / 10) as nat) + s@ =~= decimal_digits(rest as nat) + old_s);
        rest = rest / 10;
    }
    let d = digit_str(rest, true);
    let ghost old_s = s@;
    s = String::from_str(d).concat(s.as_str());
    assert(s@ =~= decimal_digits(rest as nat) + old_s);
    s
}

/// Pads `text` with spaces on the right up to `width` characters.
pub fn pad_right_string(text: &str, width: usize) -> (s: String)
    ensures
        s@ == pad_right(text@, width as nat),
{
    let len = text.unicode_len();
    let mut s = String::from_str(text);
    if len >= width {
        return s;
    }
    let mut k = len;
    while k < width
        invariant
            len <= k <= width,
            len == text@.len(),
            s@ == text@ + Seq::new((k - len) as nat, |i: int| ' '),
        decreases width - k,
    {
        proof {
            reveal_strlit(" ");
        }
        let ghost old_s = s@;
        s.append(" ");
        assert(s@ =~= text@ + Seq::new((k + 1 - len) as nat, |i: int| ' '));
        k = k + 1;
    }
    s
}

/// `c` has the Unicode White_Space property (what `char::is_whitespace` tests).
pub open spec fn is_white_space(c: char) -> bool {
    let u = c as int;
    ||| 0x09 <= u <= 0x0D
    ||| u == 0x20
    ||| u == 0x85
    ||| u == 0xA0
    ||| u == 0x1680
    ||| 0x2000 <= u <= 0x200A
    ||| u == 0x2028
    ||| u == 0x2029
    ||| u == 0x202F
    ||| u == 0x205F
    ||| u == 0x3000
}

/// `s` without its leading white space.
pub open spec fn trim_start_white_space(s: Seq<char>) -> Seq<char>
    decreases s.len(),
{
    if s.len() > 0 && is_white_space(s[0]) {
        trim_start_white_space(s.drop_first())
    } else {
        s
    }
}

/// `s` without its trailing white space.
pub open spec fn trim_end_white_space(s: Seq<char>) -> Seq<char>
    decreases s.len(),
{
    if s.len() > 0 && is_white_space(s.last()) {
        trim_end_white_space(s.drop_last())
    } else {
        s
    }
}

/// `s` without its leading and trailing white space (what `str::trim` leaves).
pub open spec fn trim_whitespace(s: Seq<char>) -> Seq<char> {
    trim_end_white_space(trim_start_white_space(s))
}

/// Calls `str::trim` and copies the result. Claimed, as std documents it:
/// the text without its leading and trailing characters that have the
/// Unicode White_Space property.
#[verifier::external_body]
pub(crate) fn trim_text(text: &str) -> (s: String)
    ensures
        s@ == trim_whitespace(text@),
{
    text.trim().to_string()
}


/// `a` comes before `b`, or equals it, in lexicographic order of characters
/// (which is also the byte order of their UTF-8 encodings).
pub open spec fn text_le(a: Seq<char>, b: Seq<char>) -> bool
    decreases a.len(),
{
    if a.len() == 0 {
        true
    } else if b.len() == 0 {
        false
    } else if a[0] != b[0] {
        (a[0] as int) < (b[0] as int)
    } else {
        text_le(a.drop_first(), b.drop_first())
    }
}

/// Any two texts are ordered one way or the other.
pub proof fn lemma_text_le_total(a: Seq<char>, b: Seq<char>)
    ensures
        text_le(a, b) || text_le(b, a),
    decreases a.len(),
{
    if a.len() > 0 && b.len() > 0 {
        if a[0] == b[0] {
            lemma_text_le_total(a.drop_first(), b.drop_first());
        } else {
            assert((a[0] as int) != (b[0] as int));
        }
    }
}

/// The order is transitive.
pub proof fn lemma_text_le_transitive(a: Seq<char>, b: Seq<char>, c: Seq<char>)
    requires
        text_le(a, b),
        text_le(b, c),
    ensures
        text_le(a, c),
    decreases a.len(),
{
    if a.len() > 0 && b.len() > 0 && c.len() > 0 && a[0] == b[0] && b[0] == c[0] {
        lemma_text_le_transitive(a.drop_first(), b.drop_first(), c.drop_first());
    }
}

/// The order is lexicographic from the first character: where the texts
/// first differ, at index `i`, the one with the smaller character there comes
/// first, and the other does not.
pub proof fn lemma_text_le_first_difference(a: Seq<char>, b: Seq<char>, i: int)
    requires
        0 <= i < a.len(),
        i < b.len(),
        forall|j: int| 0 <= j < i ==> a[j] == b[j],
        (a[i] as int) < (b[i] as int),
    ensures
        text_le(a, b),
        !text_le(b, a),
    decreases i,
{
    if i > 0 {
        assert forall|j: int| 0 <= j < i - 1 implies a.drop_first()[j] == b.drop_first()[j] by {
            assert(a.drop_first()[j] == a[j + 1]);
            assert(b.drop_first()[j] == b[j + 1]);
        }
        lemma_text_le_first_difference(a.drop_first(), b.drop_first(), i - 1);
    }
}

/// A text comes before every text that it starts.
pub proof fn lemma_text_le_prefix(a: Seq<char>, b: Seq<char>)
    requires
        a.len() <= b.len(),
        forall|j: int| 0 <= j < a.len() ==> a[j] == b[j],
    ensures
        text_le(a, b),
    decreases a.len(),
{
    if a.len() > 0 {
        assert forall|j: int| 0 <= j < a.len() - 1 implies a.drop_first()[j] == b.drop_first()[j] by {
            assert(a.drop_first()[j] == a[j + 1]);
            assert(b.drop_first()[j] == b[j + 1]);
        }
        lemma_text_le_prefix(a.drop_first(), b.drop_first());
    }
}

/// A text that is strictly longer than a text it starts does not come
/// before it.
pub proof fn lemma_text_le_longer(a: Seq<char>, b: Seq<char>)
    requires
        a.len() < b.len(),
        forall|j: int| 0 <= j < a.len() ==> a[j] == b[j],
    ensures
        !text_le(b, a),
    decreases a.len(),
{
    if a.len() > 0 {
        assert forall|j: int| 0 <= j < a.len() - 1 implies a.drop_first()[j] == b.drop_first()[j] by {
            assert(a.drop_first()[j] == a[j + 1]);
            assert(b.drop_first()[j] == b[j + 1]);
        }
        lemma_text_le_longer(a.drop_first(), b.drop_first());
    }
}

/// Whether `a` comes before `b` or equals it, in lexicographic order of characters.
pub fn text_le_exec(a: &str, b: &str) -> (le: bool)
    ensures
        le == text_le(a@, b@),
{
    let la = a.unicode_len();
    let lb = b.unicode_len();
    let mut i: usize = 0;
    assert(a@.skip(0) =~= a@);
    assert(b@.skip(0) =~= b@);
    while i < la && i < lb && a.get_char(i) == b.get_char(i)
        invariant
            la == a@.len(),
            lb == b@.len(),
            i <= la,
            i <= lb,
            text_le(a@, b@) == text_le(a@.skip(i as int), b@.skip(i as int)),
        decreases la - i,
    {
        assert(a@.skip(i as int).drop_first() =~= a@.skip(i + 1));
        assert(b@.skip(i as int).drop_first() =~= b@.skip(i + 1));
        i = i + 1;
    }
    if i == la {
        true
    } else if i == lb {
        false
    } else {
        assert(a@.skip(i as int)[0] == a@[i as int]);
        assert(b@.skip(i as int)[0] == b@[i as int]);
        (a.get_char(i) as u32) < (b.get_char(i) as u32)
    }
}

/// Whether `a` and `b` hold the same text.
pub fn same_text(a: &str, b: &str) -> (same: bool)
    ensures
        same == (a@ == b@),
{
    let la = a.unicode_len();
    let lb = b.unicode_len();
    if la != lb {
        return false;
    }
    let mut i: usize = 0;
    while i < la
        invariant
            la == a@.len(),
            lb == b@.len(),
            la == lb,
            i <= la,
            forall|j: int| 0 <= j < i ==> a@[j] == b@[j],
        decreases la - i,
    {
        if a.get_char(i) != b.get_char(i) {
            return false;
        }
        i = i + 1;
    }
    assert(a@ =~= b@);
    true
}

} // verus!
