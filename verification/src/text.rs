//! Character classes and text operations that the fetch rules are stated in.
//!
//! Texts are modelled as sequences of characters. Every class below holds of
//! ASCII characters only, so a text that passes a check is an ASCII text and
//! its characters are its bytes.

use vstd::prelude::*;
use vstd::string::*;

verus! {

/// An HTTP token character: a letter, a digit, or one of
/// ``! # $ % & ' * + - . ^ _ ` | ~``.
pub open spec fn is_token_char(c: char) -> bool {
    ||| c == '!'
    ||| ('#' <= c && c <= '\'')
    ||| c == '*'
    ||| c == '+'
    ||| c == '-'
    ||| c == '.'
    ||| ('0' <= c && c <= '9')
    ||| ('A' <= c && c <= 'Z')
    ||| ('^' <= c && c <= 'z')
    ||| c == '|'
    ||| c == '~'
}

/// An HTTP token: at least one character, token characters only.
pub open spec fn is_token(s: Seq<char>) -> bool {
    s.len() > 0 && forall|i: int| 0 <= i < s.len() ==> is_token_char(#[trigger] s[i])
}

/// A space or a horizontal tab.
pub open spec fn is_blank(c: char) -> bool {
    c == ' ' || c == '\t'
}

/// A character of a header value: printable ASCII, a space or a tab.
pub open spec fn is_field_char(c: char) -> bool {
    is_blank(c) || ('!' <= c && c <= '~')
}

/// A text made of header value characters only.
pub open spec fn is_field_text(s: Seq<char>) -> bool {
    forall|i: int| 0 <= i < s.len() ==> is_field_char(#[trigger] s[i])
}

/// The lower-case form of an ASCII capital; any other character unchanged.
pub open spec fn lower_char(c: char) -> char {
    if 'A' <= c && c <= 'Z' {
        ((c as u8) + 32) as char
    } else {
        c
    }
}

/// The upper-case form of an ASCII small letter; any other character unchanged.
pub open spec fn upper_char(c: char) -> char {
    if 'a' <= c && c <= 'z' {
        ((c as u8) - 32) as char
    } else {
        c
    }
}

/// The text with each ASCII capital replaced by its small letter.
pub open spec fn ascii_lower(s: Seq<char>) -> Seq<char> {
    Seq::new(s.len(), |i: int| lower_char(s[i]))
}

/// The text with each ASCII small letter replaced by its capital.
pub open spec fn ascii_upper(s: Seq<char>) -> Seq<char> {
    Seq::new(s.len(), |i: int| upper_char(s[i]))
}

/// A text without ASCII capitals.
pub open spec fn is_lower(s: Seq<char>) -> bool {
    forall|i: int| 0 <= i < s.len() ==> !('A' <= #[trigger] s[i] && s[i] <= 'Z')
}

/// The number of blanks that the text begins with.
pub open spec fn lead(s: Seq<char>) -> int
    decreases s.len(),
{
    if s.len() > 0 && is_blank(s[0]) {
        1 + lead(s.drop_first())
    } else {
        0
    }
}

/// The length of the text without the blanks that it ends with.
pub open spec fn keep(s: Seq<char>) -> int
    decreases s.len(),
{
    if s.len() > 0 && is_blank(s.last()) {
        keep(s.drop_last())
    } else {
        s.len() as int
    }
}

/// The text without the blanks that it begins with.
pub open spec fn trim_front(s: Seq<char>) -> Seq<char> {
    s.subrange(lead(s), s.len() as int)
}

/// The text without the blanks at either end; blanks inside it stay.
pub open spec fn trim(s: Seq<char>) -> Seq<char> {
    trim_front(s).subrange(0, keep(trim_front(s)))
}

/// `lead` counts exactly the blanks before the first other character.
pub proof fn lemma_lead(s: Seq<char>)
    ensures
        0 <= lead(s) <= s.len(),
        forall|j: int| 0 <= j < lead(s) ==> is_blank(#[trigger] s[j]),
        lead(s) < s.len() ==> !is_blank(s[lead(s)]),
    decreases s.len(),
{
    if s.len() > 0 && is_blank(s[0]) {
        let t = s.drop_first();
        lemma_lead(t);
        assert forall|j: int| 0 <= j < lead(s) implies is_blank(#[trigger] s[j]) by {
            if j > 0 {
                assert(s[j] == t[j - 1]);
            }
        }
        if lead(s) < s.len() {
            assert(s[lead(s)] == t[lead(t)]);
        }
    }
}

/// `keep` ends right after the last character that is no blank.
pub proof fn lemma_keep(s: Seq<char>)
    ensures
        0 <= keep(s) <= s.len(),
        forall|j: int| keep(s) <= j < s.len() ==> is_blank(#[trigger] s[j]),
        keep(s) > 0 ==> !is_blank(s[keep(s) - 1]),
    decreases s.len(),
{
    if s.len() > 0 && is_blank(s.last()) {
        let t = s.drop_last();
        lemma_keep(t);
        assert forall|j: int| keep(s) <= j < s.len() implies is_blank(#[trigger] s[j]) by {
            if j < s.len() - 1 {
                assert(s[j] == t[j]);
            }
        }
        if keep(s) > 0 {
            assert(s[keep(s) - 1] == t[keep(t) - 1]);
        }
    }
}

/// An index that only blanks precede, and that no blank stands at, is `lead`.
pub proof fn lemma_lead_is(s: Seq<char>, a: int)
    requires
        0 <= a <= s.len(),
        forall|j: int| 0 <= j < a ==> is_blank(#[trigger] s[j]),
        a < s.len() ==> !is_blank(s[a]),
    ensures
        lead(s) == a,
{
    lemma_lead(s);
    if lead(s) < a {
        assert(is_blank(s[lead(s)]));
    }
    if a < lead(s) {
        assert(is_blank(s[a]));
    }
}

/// An index that only blanks follow, and that no blank stands before, is `keep`.
pub proof fn lemma_keep_is(s: Seq<char>, b: int)
    requires
        0 <= b <= s.len(),
        forall|j: int| b <= j < s.len() ==> is_blank(#[trigger] s[j]),
        b > 0 ==> !is_blank(s[b - 1]),
    ensures
        keep(s) == b,
{
    lemma_keep(s);
    if keep(s) < b {
        assert(is_blank(s[b - 1]));
    }
    if b < keep(s) {
        assert(is_blank(s[keep(s) - 1]));
    }
}

/// Trimming removes blanks only: a character that is no blank stays.
pub proof fn lemma_trim_keeps(s: Seq<char>, i: int)
    requires
        0 <= i < s.len(),
        !is_blank(s[i]),
    ensures
        lead(s) <= i < lead(s) + trim(s).len(),
        trim(s)[i - lead(s)] == s[i],
{
    lemma_lead(s);
    let t = trim_front(s);
    lemma_keep(t);
    if i < lead(s) {
        assert(is_blank(s[i]));
    }
    assert(t[i - lead(s)] == s[i]);
    if keep(t) <= i - lead(s) {
        assert(is_blank(t[i - lead(s)]));
    }
}

/// The trimmed text is a part of the text; it neither begins nor ends with a
/// blank.
pub proof fn lemma_trim_shape(s: Seq<char>)
    ensures
        0 <= lead(s) <= s.len(),
        trim(s).len() <= s.len() - lead(s),
        trim(s) == s.subrange(lead(s), lead(s) + trim(s).len()),
        trim(s).len() > 0 ==> !is_blank(trim(s).first()) && !is_blank(trim(s).last()),
{
    lemma_lead(s);
    let t = trim_front(s);
    lemma_keep(t);
    assert(trim(s) =~= s.subrange(lead(s), lead(s) + trim(s).len()));
    if trim(s).len() > 0 {
        assert(trim(s).first() == s[lead(s)]);
        assert(trim(s).last() == t[keep(t) - 1]);
    }
}

/// A text that neither begins nor ends with a blank is its own trimmed form.
pub proof fn lemma_trim_fixed(s: Seq<char>)
    requires
        s.len() > 0 ==> !is_blank(s.first()) && !is_blank(s.last()),
    ensures
        trim(s) == s,
{
    lemma_lead_is(s, 0);
    assert(trim_front(s) =~= s);
    lemma_keep_is(s, s.len() as int);
    assert(trim(s) =~= s);
}

/// A token has token characters only, all of them ASCII.
pub proof fn lemma_token_ascii(s: Seq<char>)
    requires
        is_token(s),
    ensures
        vstd::utf8::is_ascii_chars(s),
{
    assert forall|i: int| 0 <= i < s.len() implies '\0' <= #[trigger] s[i] <= '\u{7f}' by {
        assert(is_token_char(s[i]));
    }
}

/// A text of header value characters is an ASCII text.
pub proof fn lemma_field_ascii(s: Seq<char>)
    requires
        is_field_text(s),
    ensures
        vstd::utf8::is_ascii_chars(s),
{
    assert forall|i: int| 0 <= i < s.len() implies '\0' <= #[trigger] s[i] <= '\u{7f}' by {
        assert(is_field_char(s[i]));
    }
}

/// The lower-case form of a token is a token without capitals, and lowering
/// it again changes nothing.
pub proof fn lemma_lower_token(s: Seq<char>)
    requires
        is_token(s),
    ensures
        is_token(ascii_lower(s)),
        is_lower(ascii_lower(s)),
        ascii_lower(ascii_lower(s)) == ascii_lower(s),
{
    let l = ascii_lower(s);
    assert forall|i: int| 0 <= i < l.len() implies is_token_char(#[trigger] l[i]) by {
        assert(is_token_char(s[i]));
    }
    assert(ascii_lower(l) =~= l);
}

/// Two texts that differ only in the case of ASCII letters have one
/// lower-case form.
pub open spec fn same_ignoring_case(a: Seq<char>, b: Seq<char>) -> bool {
    ascii_lower(a) == ascii_lower(b)
}

/// The text with each ASCII capital replaced by its small letter.
///
/// Trusted: this is `str::to_ascii_lowercase` of the standard library, which
/// maps the letters 'A' to 'Z' to 'a' to 'z' and leaves every other character
/// as it is.
#[verifier::external_body]
pub(crate) fn to_lowercase(s: &str) -> (r: String)
    ensures
        r@ == ascii_lower(s@),
{
    s.to_ascii_lowercase()
}

/// The text with each ASCII small letter replaced by its capital.
///
/// Trusted: this is `str::to_ascii_uppercase` of the standard library, which
/// maps the letters 'a' to 'z' to 'A' to 'Z' and leaves every other character
/// as it is.
#[verifier::external_body]
pub(crate) fn to_uppercase(s: &str) -> (r: String)
    ensures
        r@ == ascii_upper(s@),
{
    s.to_ascii_uppercase()
}

/// Whether the byte is the code of a token character.
pub fn token_byte(b: u8) -> (r: bool)
    ensures
        r == is_token_char(b as char),
{
    b == 0x21 || (0x23 <= b && b <= 0x27) || b == 0x2a || b == 0x2b || b == 0x2d || b == 0x2e || (
    0x30 <= b && b <= 0x39) || (0x41 <= b && b <= 0x5a) || (0x5e <= b && b <= 0x7a) || b == 0x7c
        || b == 0x7e
}

/// Whether the byte is the code of a header value character.
pub fn field_byte(b: u8) -> (r: bool)
    ensures
        r == is_field_char(b as char),
{
    b == 0x20 || b == 0x09 || (0x21 <= b && b <= 0x7e)
}

/// Whether the byte is the code of a space or a tab.
pub fn blank_byte(b: u8) -> (r: bool)
    ensures
        r == is_blank(b as char),
{
    b == 0x20 || b == 0x09
}

/// Whether the text is an HTTP token.
pub fn check_token(s: &str) -> (r: bool)
    ensures
        r == is_token(s@),
{
    if !s.is_ascii() {
        proof {
            if is_token(s@) {
                lemma_token_ascii(s@);
            }
        }
        return false;
    }
    let n: usize = s.unicode_len();
    if n == 0 {
        return false;
    }
    let mut i: usize = 0;
    while i < n
        invariant
            s.is_ascii(),
            n == s@.len(),
            0 <= i <= n,
            forall|j: int| 0 <= j < i ==> is_token_char(#[trigger] s@[j]),
        decreases n - i,
    {
        let b: u8 = s.get_ascii(i);
        assert(s@[i as int] == b as char);
        if !token_byte(b) {
            return false;
        }
        i = i + 1;
    }
    true
}

/// The value of a header as it is stored: the text without the blanks at
/// either end, where that is made of header value characters only.
pub open spec fn field_value(s: Seq<char>) -> Option<Seq<char>> {
    if is_field_text(trim(s)) {
        Some(trim(s))
    } else {
        None
    }
}

/// The text without the blanks at either end, if what is left is made of
/// header value characters only.
pub fn check_field(s: &str) -> (r: Option<String>)
    ensures
        r.is_some() == field_value(s@).is_some(),
        r.is_some() ==> r.unwrap()@ == trim(s@),
{
    if !s.is_ascii() {
        proof {
            let i = choose|i: int| 0 <= i < s@.len() && !('\0' <= #[trigger] s@[i] <= '\u{7f}');
            lemma_trim_keeps(s@, i);
            assert(!is_field_char(trim(s@)[i - lead(s@)]));
        }
        return None;
    }
    let n: usize = s.unicode_len();
    let mut a: usize = 0;
    while a < n && blank_byte(s.get_ascii(a))
        invariant
            s.is_ascii(),
            n == s@.len(),
            0 <= a <= n,
            forall|j: int| 0 <= j < a ==> is_blank(#[trigger] s@[j]),
        decreases n - a,
    {
        a = a + 1;
    }
    let mut b: usize = n;
    while b > a && blank_byte(s.get_ascii(b - 1))
        invariant
            s.is_ascii(),
            n == s@.len(),
            a <= b <= n,
            forall|j: int| b <= j < n ==> is_blank(#[trigger] s@[j]),
        decreases b,
    {
        b = b - 1;
    }
    proof {
        lemma_lead_is(s@, a as int);
        let t = trim_front(s@);
        assert forall|j: int| b - a <= j < t.len() implies is_blank(#[trigger] t[j]) by {
            assert(t[j] == s@[j + a]);
        }
        if b > a {
            assert(t[b - a - 1] == s@[b - 1]);
        }
        lemma_keep_is(t, b - a);
        assert(trim(s@) =~= s@.subrange(a as int, b as int));
    }
    let mut i: usize = a;
    while i < b
        invariant
            s.is_ascii(),
            n == s@.len(),
            a <= i <= b <= n,
            trim(s@) == s@.subrange(a as int, b as int),
            forall|j: int| a <= j < i ==> is_field_char(#[trigger] s@[j]),
        decreases b - i,
    {
        let c: u8 = s.get_ascii(i);
        assert(s@[i as int] == c as char);
        if !field_byte(c) {
            proof {
                assert(trim(s@)[i - a] == s@[i as int]);
            }
            return None;
        }
        i = i + 1;
    }
    proof {
        assert forall|j: int| 0 <= j < trim(s@).len() implies is_field_char(
            #[trigger] trim(s@)[j],
        ) by {
            assert(trim(s@)[j] == s@[j + a]);
        }
    }
    Some(String::from_str(s.substring_ascii(a, b)))
}

/// Whether a comma followed by a space stands at the index.
pub open spec fn joint_at(s: Seq<char>, i: int) -> bool {
    0 <= i && i + 2 <= s.len() && s[i] == ',' && s[i + 1] == ' '
}

/// The index of the first comma that a space follows, or the length of the
/// text where there is none.
pub open spec fn first_joint(s: Seq<char>) -> int
    decreases s.len(),
{
    if s.len() == 0 {
        0
    } else if joint_at(s, 0) {
        0
    } else {
        1 + first_joint(s.drop_first())
    }
}

/// The parts of the text between its separators, a separator being a comma
/// followed by a space, found from left to right. A text without a separator
/// is its own single part; parts may be empty.
pub open spec fn pieces(s: Seq<char>) -> Seq<Seq<char>>
    decreases s.len(),
{
    let p = first_joint(s);
    if 0 <= p && p + 2 <= s.len() {
        seq![s.subrange(0, p)] + pieces(s.subrange(p + 2, s.len() as int))
    } else {
        seq![s]
    }
}

/// `first_joint` is the least index at which a separator stands.
pub proof fn lemma_first_joint(s: Seq<char>)
    ensures
        0 <= first_joint(s) <= s.len(),
        forall|j: int| 0 <= j < first_joint(s) ==> !joint_at(s, j),
        first_joint(s) < s.len() ==> joint_at(s, first_joint(s)),
    decreases s.len(),
{
    if s.len() > 0 && !joint_at(s, 0) {
        let t = s.drop_first();
        lemma_first_joint(t);
        assert forall|j: int| 0 <= j < first_joint(s) implies !joint_at(s, j) by {
            if j > 0 {
                assert(joint_at(s, j) == joint_at(t, j - 1)) by {
                    if j + 2 <= s.len() {
                        assert(s[j] == t[j - 1]);
                        assert(s[j + 1] == t[j]);
                    }
                }
            }
        }
        if first_joint(s) < s.len() {
            let q = first_joint(t);
            assert(s[q + 1] == t[q]);
            assert(s[q + 2] == t[q + 1]);
        }
    }
}

/// An index that no separator precedes, and at which one stands or the text
/// ends, is `first_joint`.
pub proof fn lemma_first_joint_is(s: Seq<char>, p: int)
    requires
        0 <= p <= s.len(),
        forall|j: int| 0 <= j < p ==> !joint_at(s, j),
        p < s.len() ==> joint_at(s, p),
    ensures
        first_joint(s) == p,
{
    lemma_first_joint(s);
    let q = first_joint(s);
    if q < p {
        assert(joint_at(s, q));
    }
}

/// The parts of a text, each as a string of its own.
pub(crate) fn split_pieces(s: &str) -> (r: Vec<String>)
    requires
        s.is_ascii(),
    ensures
        r@.len() == pieces(s@).len(),
        forall|i: int| 0 <= i < r@.len() ==> (#[trigger] r@[i])@ == pieces(s@)[i],
{
    let n: usize = s.unicode_len();
    let mut r: Vec<String> = Vec::new();
    let ghost mut done: Seq<Seq<char>> = Seq::empty();
    let mut start: usize = 0;
    let mut i: usize = 0;
    proof {
        assert(s@.subrange(0, n as int) =~= s@);
        assert(done + pieces(s@) =~= pieces(s@));
    }
    while i < n
        invariant
            s.is_ascii(),
            n == s@.len(),
            0 <= start <= i <= n,
            forall|j: int| start <= j < i ==> !joint_at(s@, j),
            done.len() == r@.len(),
            forall|k: int| 0 <= k < r@.len() ==> (#[trigger] r@[k])@ == done[k],
            pieces(s@) == done + pieces(s@.subrange(start as int, n as int)),
        decreases n - i,
    {
        let here: bool = i + 1 < n && s.get_ascii(i) == 0x2c && s.get_ascii(i + 1) == 0x20;
        assert(here == joint_at(s@, i as int));
        if here {
            let ghost rest = s@.subrange(start as int, n as int);
            let ghost part = s@.subrange(start as int, i as int);
            let ghost after = s@.subrange(i + 2, n as int);
            proof {
                assert forall|j: int| 0 <= j < i - start implies !joint_at(rest, j) by {
                    assert(!joint_at(s@, start + j));
                    if j + 2 <= rest.len() {
                        assert(rest[j] == s@[start + j]);
                        assert(rest[j + 1] == s@[start + j + 1]);
                    }
                }
                assert(rest[i - start] == s@[i as int]);
                assert(rest[i - start + 1] == s@[i + 1]);
                lemma_first_joint_is(rest, i - start);
                assert(rest.subrange(0, i - start) =~= part);
                assert(rest.subrange(i - start + 2, rest.len() as int) =~= after);
                assert(pieces(rest) == seq![part] + pieces(after));
                assert(done + (seq![part] + pieces(after)) =~= done.push(part) + pieces(after));
                done = done.push(part);
            }
            r.push(String::from_str(s.substring_ascii(start, i)));
            i = i + 2;
            start = i;
        } else {
            i = i + 1;
        }
    }
    proof {
        let rest = s@.subrange(start as int, n as int);
        assert forall|j: int| 0 <= j < rest.len() implies !joint_at(rest, j) by {
            assert(!joint_at(s@, start + j));
            if j + 2 <= rest.len() {
                assert(rest[j] == s@[start + j]);
                assert(rest[j + 1] == s@[start + j + 1]);
            }
        }
        lemma_first_joint_is(rest, rest.len() as int);
        assert(pieces(rest) =~= seq![rest]);
        assert(done + seq![rest] =~= done.push(rest));
    }
    r.push(String::from_str(s.substring_ascii(start, n)));
    r
}

} // verus!
