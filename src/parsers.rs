//! Parsing of attribute values that are a single CSS token.

use vstd::prelude::*;
use vstd::string::StrSliceExecFns;

verus! {

/// A CSS token, as far as attribute values need it.
#[derive(Debug, PartialEq)]
pub enum CssToken {
    /// An identifier, with escapes resolved.
    Ident(Vec<char>),
    /// A number; `bits` are the IEEE-754 single-precision bits of its value.
    Number { bits: u32 },
    /// A number followed by a unit.
    Dimension { bits: u32, unit: Vec<char> },
    /// Any other token.
    Other,
}

/// Why an attribute value was refused.
#[derive(Clone, Copy, Debug, PartialEq, Eq, Structural)]
pub enum ParseError {
    /// The value holds no token.
    EndOfInput,
    /// The value holds a token that does not fit, or more than one token.
    UnexpectedToken,
}

/// The tokens that CSS tokenization finds in `s`, whitespace and comments
/// left out.
pub uninterp spec fn css_tokens_of(s: Seq<char>) -> Seq<CssToken>;

/// Relies on `cssparser::Parser::next` over a `ParserInput` of `s`: the
/// tokens it returns until the end of the input.
#[verifier::external_body]
pub(crate) fn tokenize(s: &str) -> (r: Vec<CssToken>)
    ensures
        r@ == css_tokens_of(s@),
{
    let mut input = cssparser::ParserInput::new(s);
    let mut parser = cssparser::Parser::new(&mut input);
    let mut tokens = Vec::new();
    while let Ok(token) = parser.next() {
        tokens.push(match token {
            cssparser::Token::Ident(id) => CssToken::Ident(id.chars().collect()),
            cssparser::Token::Number { value, .. } => CssToken::Number { bits: value.to_bits() },
            cssparser::Token::Dimension { value, unit, .. } => CssToken::Dimension {
                bits: value.to_bits(),
                unit: unit.chars().collect(),
            },
            _ => CssToken::Other,
        });
    }
    tokens
}

/// The code of a character with ASCII upper case folded to lower case.
pub open spec fn ascii_fold(c: char) -> u32 {
    let v = c as u32;
    if 65 <= v <= 90 {
        (v + 32) as u32
    } else {
        v
    }
}

/// Whether two strings are equal up to ASCII case.
pub open spec fn eq_ignore_ascii_case(a: Seq<char>, b: Seq<char>) -> bool {
    a.len() == b.len() && forall|i: int| 0 <= i < a.len() ==> ascii_fold(a[i]) == ascii_fold(b[i])
}

/// The only token of a value, or why there is not exactly one.
pub open spec fn single_token(toks: Seq<CssToken>) -> Result<CssToken, ParseError> {
    if toks.len() == 0 {
        Err(ParseError::EndOfInput)
    } else if toks.len() > 1 {
        Err(ParseError::UnexpectedToken)
    } else {
        Ok(toks[0])
    }
}

fn fold_char(c: char) -> (r: u32)
    ensures
        r == ascii_fold(c),
{
    let v = c as u32;
    if 65 <= v && v <= 90 {
        v + 32
    } else {
        v
    }
}

/// Whether an identifier equals `word` up to ASCII case.
pub fn ident_matches(id: &Vec<char>, word: &str) -> (r: bool)
    ensures
        r == eq_ignore_ascii_case(id@, word@),
{
    let n = word.unicode_len();
    if id.len() != n {
        return false;
    }
    let mut i: usize = 0;
    while i < n
        invariant
            n == word@.len(),
            id@.len() == n,
            i <= n,
            forall|m: int| 0 <= m < i ==> ascii_fold(id@[m]) == ascii_fold(word@[m]),
        decreases n - i,
    {
        if fold_char(id[i]) != fold_char(word.get_char(i)) {
            return false;
        }
        i += 1;
    }
    true
}

/// Whether two character strings are exactly equal.
pub fn chars_equal(a: &Vec<char>, word: &str) -> (r: bool)
    ensures
        r == (a@ == word@),
{
    let n = word.unicode_len();
    if a.len() != n {
        return false;
    }
    let mut i: usize = 0;
    while i < n
        invariant
            n == word@.len(),
            a@.len() == n,
            i <= n,
            forall|m: int| 0 <= m < i ==> a@[m] == word@[m],
        decreases n - i,
    {
        if a[i] != word.get_char(i) {
            return false;
        }
        i += 1;
    }
    assert(a@ =~= word@);
    true
}

/// The value of a two-keyword attribute that a token list holds.
pub open spec fn spec_keyword<T>(toks: Seq<CssToken>, first: Seq<char>, a: T, second: Seq<char>, b: T) -> Result<T, ParseError> {
    match single_token(toks) {
        Err(e) => Err(e),
        Ok(CssToken::Ident(id)) => if eq_ignore_ascii_case(id@, first) {
            Ok(a)
        } else if eq_ignore_ascii_case(id@, second) {
            Ok(b)
        } else {
            Err(ParseError::UnexpectedToken)
        },
        Ok(_) => Err(ParseError::UnexpectedToken),
    }
}

/// Which of two keywords, in any ASCII case, is the single token of `toks`:
/// 0 for the first, 1 for the second.
pub fn keyword_index(toks: &Vec<CssToken>, first: &str, second: &str) -> (r: Result<u8, ParseError>)
    ensures
        r == spec_keyword(toks@, first@, 0u8, second@, 1u8),
{
    if toks.len() == 0 {
        return Err(ParseError::EndOfInput);
    }
    if toks.len() > 1 {
        return Err(ParseError::UnexpectedToken);
    }
    match &toks[0] {
        CssToken::Ident(id) => {
            if ident_matches(id, first) {
                Ok(0)
            } else if ident_matches(id, second) {
                Ok(1)
            } else {
                Err(ParseError::UnexpectedToken)
            }
        },
        _ => Err(ParseError::UnexpectedToken),
    }
}

} // verus!
