use vstd::prelude::*;

verus! {

/// The characters, besides ASCII letters and digits, that may continue an
/// identifier, so that a URL or a path lexes as one word.
pub open spec fn is_url_symbol(ch: char) -> bool {
    ch == ':' || ch == '/' || ch == '?' || ch == '&' || ch == '=' || ch == '-' || ch == '_'
        || ch == '.'
}

pub open spec fn is_ascii_letter(ch: char) -> bool {
    ('a' <= ch && ch <= 'z') || ('A' <= ch && ch <= 'Z')
}

pub open spec fn is_ascii_digit(ch: char) -> bool {
    '0' <= ch && ch <= '9'
}

pub open spec fn spec_identifier_start(ch: char) -> bool {
    is_ascii_letter(ch)
}

pub open spec fn spec_identifier_part(ch: char) -> bool {
    is_ascii_letter(ch) || is_ascii_digit(ch) || is_url_symbol(ch)
}

/// A whole word of the dialect: a start character followed by part characters.
pub open spec fn spec_is_identifier(s: Seq<char>) -> bool {
    s.len() > 0 && spec_identifier_start(s[0]) && forall|i: int|
        1 <= i < s.len() ==> spec_identifier_part(#[trigger] s[i])
}

/// A URL or a path as the dialect reads it: a letter, then letters, digits and
/// the URL symbols.
pub open spec fn is_url_shaped(s: Seq<char>) -> bool {
    s.len() > 0 && is_ascii_letter(s[0]) && forall|i: int|
        0 <= i < s.len() ==> (is_ascii_letter(#[trigger] s[i]) || is_ascii_digit(s[i])
            || is_url_symbol(s[i]))
}

/// The SQL dialect of this library: a bare URL or file path is an identifier.
/// Digits and symbols cannot start an identifier, so numbers still lex as
/// numbers.
#[derive(Debug, Default, Clone, Copy)]
pub struct URLDialect;

impl URLDialect {
    /// ASCII letters alone start an identifier.
    pub fn is_identifier_start(&self, ch: char) -> (r: bool)
        ensures
            r == spec_identifier_start(ch),
    {
        ('a' <= ch && ch <= 'z') || ('A' <= ch && ch <= 'Z')
    }

    /// ASCII letters, digits and `: / ? & = - _ .` continue an identifier.
    pub fn is_identifier_part(&self, ch: char) -> (r: bool)
        ensures
            r == spec_identifier_part(ch),
    {
        ('a' <= ch && ch <= 'z') || ('A' <= ch && ch <= 'Z') || ('0' <= ch && ch <= '9')
            || ch == ':' || ch == '/' || ch == '?' || ch == '&' || ch == '=' || ch == '-'
            || ch == '_' || ch == '.'
    }

    /// Whether the whole of `s` lexes as one identifier of this dialect.
    pub fn is_identifier(&self, s: &str) -> (r: bool)
        ensures
            r == spec_is_identifier(s@),
    {
        let n = s.unicode_len();
        if n == 0 {
            return false;
        }
        if !self.is_identifier_start(s.get_char(0)) {
            return false;
        }
        let mut i: usize = 1;
        while i < n
            invariant
                n == s@.len(),
                1 <= i <= n,
                forall|j: int| 1 <= j < i ==> spec_identifier_part(#[trigger] s@[j]),
            decreases n - i,
        {
            if !self.is_identifier_part(s.get_char(i)) {
                return false;
            }
            i = i + 1;
        }
        true
    }
}

/// Every letter-initial string over letters, digits and the URL symbols lexes
/// as a single identifier of the dialect.
pub proof fn lemma_url_is_identifier(s: Seq<char>)
    requires
        is_url_shaped(s),
    ensures
        spec_is_identifier(s),
{
    assert forall|i: int| 1 <= i < s.len() implies spec_identifier_part(#[trigger] s[i]) by {
        assert(is_ascii_letter(s[i]) || is_ascii_digit(s[i]) || is_url_symbol(s[i]));
    }
}

} // verus!
