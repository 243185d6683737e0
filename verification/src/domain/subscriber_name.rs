use vstd::prelude::*;
use vstd::string::StrSliceExecFns;
use vstd::string::StringExecFns;
use unicode_segmentation::UnicodeSegmentation;

verus! {

/// How many grapheme clusters (user-perceived characters) a text has, per
/// the extended grapheme cluster rules of the Unicode segmentation standard:
/// a function of the characters alone.
pub uninterp spec fn grapheme_count(s: Seq<char>) -> nat;

/// The Unicode `White_Space` property of a character, as `char::is_whitespace`
/// decides it: a function of the character alone.
pub uninterp spec fn whitespace_char(c: char) -> bool;

/// A text that trimming would reduce to the empty string: every character is
/// whitespace (vacuously, the empty text itself).
pub open spec fn trimmed_empty(s: Seq<char>) -> bool {
    forall|i: int| 0 <= i < s.len() ==> whitespace_char(s[i])
}

/// The characters a subscriber name may not contain.
pub open spec fn forbidden_char(c: char) -> bool {
    ||| c == '/'
    ||| c == '\\'
    ||| c == ':'
    ||| c == '*'
    ||| c == '?'
    ||| c == '"'
    ||| c == '<'
    ||| c == '>'
    ||| c == '|'
    ||| c == '{'
    ||| c == '}'
    ||| c == '('
    ||| c == ')'
    ||| c == '['
    ||| c == ']'
    ||| c == '&'
    ||| c == '$'
    ||| c == '#'
    ||| c == '@'
    ||| c == '%'
    ||| c == '^'
    ||| c == '!'
    ||| c == '~'
    ||| c == '`'
    ||| c == '+'
    ||| c == '='
    ||| c == ';'
    ||| c == ','
}

/// Whether some character of the text is forbidden.
pub open spec fn has_forbidden_char(s: Seq<char>) -> bool {
    exists|i: int| 0 <= i < s.len() && forbidden_char(s[i])
}

/// Every rule a subscriber display name must meet: not empty after trimming,
/// at most 256 graphemes, and free of forbidden characters.
pub open spec fn valid_name(s: Seq<char>) -> bool {
    &&& !trimmed_empty(s)
    &&& grapheme_count(s) <= 256
    &&& !has_forbidden_char(s)
}

/// The message reported when a name is rejected.
pub open spec fn name_error_text(s: Seq<char>) -> Seq<char> {
    s + " invalid subscriber name"@
}

/// What parsing a name stores: the input text itself when it is valid,
/// nothing otherwise.
pub open spec fn name_parse_outcome(s: Seq<char>) -> Option<Seq<char>> {
    if valid_name(s) {
        Option::Some(s)
    } else {
        Option::None
    }
}

/// Relies on unicode_segmentation's `UnicodeSegmentation::graphemes` with
/// extended grapheme cluster rules: the number of clusters a text splits
/// into depends on its characters alone.
#[verifier::external_body]
fn count_graphemes(s: &str) -> (n: usize)
    ensures
        n == grapheme_count(s@),
{
    s.graphemes(true).count()
}

/// Relies on `char::is_whitespace` from std: the Unicode `White_Space`
/// property of the character alone.
#[verifier::external_body]
fn is_whitespace(c: char) -> (r: bool)
    ensures
        r == whitespace_char(c),
{
    c.is_whitespace()
}

/// Whether `c` is one of the characters a name may not contain.
fn is_forbidden(c: char) -> (r: bool)
    ensures
        r == forbidden_char(c),
{
    match c {
        '/' | '\\' | ':' | '*' | '?' | '"' | '<' | '>' | '|' | '{' | '}' | '(' | ')' | '['
        | ']' | '&' | '$' | '#' | '@' | '%' | '^' | '!' | '~' | '`' | '+' | '=' | ';' | ',' => true,
        _ => false,
    }
}

/// Whether trimming the text would leave it empty.
fn text_trimmed_empty(s: &str) -> (r: bool)
    ensures
        r == trimmed_empty(s@),
{
    let len = s.unicode_len();
    let mut i: usize = 0;
    while i < len
        invariant
            i <= len,
            len == s@.len(),
            forall|j: int| 0 <= j < i ==> whitespace_char(s@[j]),
        decreases len - i,
    {
        if !is_whitespace(s.get_char(i)) {
            return false;
        }
        i = i + 1;
    }
    true
}

/// Whether the text contains a forbidden character.
fn text_has_forbidden(s: &str) -> (r: bool)
    ensures
        r == has_forbidden_char(s@),
{
    let len = s.unicode_len();
    let mut i: usize = 0;
    while i < len
        invariant
            i <= len,
            len == s@.len(),
            forall|j: int| 0 <= j < i ==> !forbidden_char(s@[j]),
        decreases len - i,
    {
        if is_forbidden(s.get_char(i)) {
            return true;
        }
        i = i + 1;
    }
    false
}

/// A subscriber display name that has passed every name-validity rule.
#[derive(Debug)]
pub struct SubscriberName(String);

impl View for SubscriberName {
    type V = Seq<char>;

    closed spec fn view(&self) -> Seq<char> {
        self.0@
    }
}

impl SubscriberName {
    #[verifier::type_invariant]
    spec fn wf(self) -> bool {
        valid_name(self.0@)
    }

    /// Decide every name rule and wrap the text unchanged when all pass; on
    /// any failure, report a message naming the offending input.
    pub fn parse(s: String) -> (r: Result<SubscriberName, String>)
        ensures
            r is Ok <==> valid_name(s@),
            r matches Ok(n) ==> n@ == s@,
            r matches Err(e) ==> e@ == name_error_text(s@),
            trimmed_empty(s@) ==> r is Err,
            r is Ok <==> name_parse_outcome(s@) is Some,
            r matches Ok(n) ==> name_parse_outcome(s@) == Some(n@),
    {
        let is_empty_or_whitespace = text_trimmed_empty(s.as_str());
        let is_too_long = count_graphemes(s.as_str()) > 256;
        let contains_forbidden_characters = text_has_forbidden(s.as_str());
        if is_empty_or_whitespace || is_too_long || contains_forbidden_characters {
            Err(s.concat(" invalid subscriber name"))
        } else {
            Ok(SubscriberName(s))
        }
    }

    /// The validated text, exactly as it was given: every live
    /// `SubscriberName` meets every name rule.
    pub fn as_ref(&self) -> (r: &str)
        ensures
            r@ == self@,
            valid_name(self@),
    {
        proof {
            use_type_invariant(self);
        }
        self.0.as_str()
    }
}

/// The name-parsing outcome is a function of the text alone: the same text
/// parsed twice yields the same outcome, so two accepted wrappers for one
/// input hold identical text.
pub proof fn lemma_name_parse_idempotent(s1: Seq<char>, s2: Seq<char>)
    requires
        s1 == s2,
    ensures
        name_parse_outcome(s1) == name_parse_outcome(s2),
{
}

/// The letter `a` followed by any single forbidden character is not a valid
/// name, whichever forbidden character it is.
pub proof fn lemma_forbidden_char_rejects(c: char)
    requires
        forbidden_char(c),
    ensures
        !valid_name(seq!['a', c]),
{
    assert(forbidden_char(seq!['a', c][1]));
}

} // verus!
