//! Character classes and small string helpers shared by the tokenizer and
//! the codecs.

use vstd::prelude::*;

verus! {

/// Whitespace that separates words on a wire line.
pub open spec fn is_space_char(c: char) -> bool {
    c == ' ' || c == '\t' || c == '\r' || c == '\n'
}

/// A character that the tokenizer reads as an ordinary word character when
/// it stands outside quotes.
pub open spec fn is_plain_char(c: char) -> bool {
    !is_space_char(c) && c != '\'' && c != '"'
}

/// A character that may be emitted without quoting: ASCII alphanumerics and
/// a small set of punctuation free of shell metacharacters.
pub open spec fn is_safe_char(c: char) -> bool {
    let u = c as u32;
    (48 <= u && u <= 57)  // '0'..'9'
    || (65 <= u && u <= 90)  // 'A'..'Z'
    || (97 <= u && u <= 122)  // 'a'..'z'
    || u == 37  // '%'
    || u == 43  // '+'
    || u == 44  // ','
    || u == 45  // '-'
    || u == 46  // '.'
    || u == 47  // '/'
    || u == 58  // ':'
    || u == 61  // '='
    || u == 64  // '@'
    || u == 94  // '^'
    || u == 95  // '_'
}

/// Safe characters are ordinary word characters and are not newlines.
pub proof fn lemma_safe_char_plain(c: char)
    requires
        is_safe_char(c),
    ensures
        is_plain_char(c),
        c != '\n',
        c != '\\',
{
}

/// Exec check for [`is_space_char`].
pub fn space_char(c: char) -> (r: bool)
    ensures
        r == is_space_char(c),
{
    c == ' ' || c == '\t' || c == '\r' || c == '\n'
}

/// Exec check for [`is_safe_char`].
pub fn safe_char(c: char) -> (r: bool)
    ensures
        r == is_safe_char(c),
{
    let u = c as u32;
    (48 <= u && u <= 57) || (65 <= u && u <= 90) || (97 <= u && u <= 122) || u == 37 || u == 43
        || u == 44 || u == 45 || u == 46 || u == 47 || u == 58 || u == 61 || u == 64 || u == 94
        || u == 95
}

/// Appends one character to a string.
///
/// Relies on `String::push` from std: it appends exactly the given character.
#[verifier::external_body]
pub fn push_char(s: &mut String, c: char)
    ensures
        final(s)@ == old(s)@.push(c),
{
    s.push(c);
}

/// Character-by-character string equality, proved against the views.
pub fn str_eq(a: &str, b: &str) -> (r: bool)
    ensures
        r == (a@ == b@),
{
    let la = a.unicode_len();
    let lb = b.unicode_len();
    if la != lb {
        proof {
            if a@ == b@ {
                assert(a@.len() == b@.len());
            }
        }
        return false;
    }
    let mut i: usize = 0;
    while i < la
        invariant
            la == a@.len(),
            la == b@.len(),
            i <= la,
            forall|j: int| 0 <= j < i ==> a@[j] == b@[j],
        decreases la - i,
    {
        if a.get_char(i) != b.get_char(i) {
            proof {
                if a@ == b@ {
                    assert(a@[i as int] == b@[i as int]);
                }
            }
            return false;
        }
        i = i + 1;
    }
    proof {
        assert(a@ =~= b@);
    }
    true
}

/// Element-by-element equality of two word lists, over the views.
pub fn str_vec_eq(a: &Vec<String>, b: &Vec<String>) -> (r: bool)
    ensures
        r == (a.deep_view() == b.deep_view()),
{
    if a.len() != b.len() {
        proof {
            if a.deep_view() == b.deep_view() {
                assert(a.deep_view().len() == b.deep_view().len());
            }
        }
        return false;
    }
    let mut i: usize = 0;
    while i < a.len()
        invariant
            a@.len() == b@.len(),
            i <= a@.len(),
            forall|j: int| 0 <= j < i ==> a.deep_view()[j] == b.deep_view()[j],
        decreases a@.len() - i,
    {
        if !str_eq(a[i].as_str(), b[i].as_str()) {
            proof {
                if a.deep_view() == b.deep_view() {
                    assert(a.deep_view()[i as int] == b.deep_view()[i as int]);
                }
            }
            return false;
        }
        i = i + 1;
    }
    proof {
        assert(a.deep_view() =~= b.deep_view());
    }
    true
}

} // verus!
