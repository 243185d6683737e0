use vstd::prelude::*;
use vstd::string::StringExecFns;

verus! {

/// Whether the HTML5 e-mail address syntax accepts a text, as validator's
/// check decides it: a function of the characters alone.
pub uninterp spec fn valid_email_text(s: Seq<char>) -> bool;

/// The message reported when an address is rejected.
pub open spec fn email_error_text(s: Seq<char>) -> Seq<char> {
    s + " is not a valid subscriber email"@
}

/// What parsing an address stores: the input text itself when it is valid,
/// nothing otherwise.
pub open spec fn email_parse_outcome(s: Seq<char>) -> Option<Seq<char>> {
    if valid_email_text(s) {
        Option::Some(s)
    } else {
        Option::None
    }
}

/// Relies on `validator::validate_email` (HTML5 address syntax). Its verdict
/// depends on the characters alone. Its first checks reject an empty input
/// and an input without `@`; its local-part pattern requires at least one
/// character and never matches `@`, so no accepted text starts with `@`.
#[verifier::external_body]
fn check_email(s: &str) -> (r: bool)
    ensures
        r == valid_email_text(s@),
        s@.len() == 0 ==> !r,
        !s@.contains('@') ==> !r,
        r ==> s@.len() > 0 && s@[0] != '@',
{
    validator::validate_email(s)
}

/// A subscriber e-mail address that has passed address-format validation.
#[derive(Debug)]
pub struct SubscriberEmail(String);

impl View for SubscriberEmail {
    type V = Seq<char>;

    closed spec fn view(&self) -> Seq<char> {
        self.0@
    }
}

impl SubscriberEmail {
    #[verifier::type_invariant]
    spec fn wf(self) -> bool {
        valid_email_text(self.0@)
    }

    /// Decide address validity and wrap the text unchanged when it passes;
    /// on failure, report a message naming the offending input. An empty
    /// text, a text without `@`, and a text with nothing before its first
    /// `@` are always rejected.
    pub fn parse(s: String) -> (r: Result<SubscriberEmail, String>)
        ensures
            r is Ok <==> valid_email_text(s@),
            r matches Ok(m) ==> m@ == s@,
            r matches Err(e) ==> e@ == email_error_text(s@),
            s@.len() == 0 ==> r is Err,
            !s@.contains('@') ==> r is Err,
            s@.len() > 0 && s@[0] == '@' ==> r is Err,
            r is Ok <==> email_parse_outcome(s@) is Some,
            r matches Ok(m) ==> email_parse_outcome(s@) == Some(m@),
    {
        if check_email(s.as_str()) {
            Ok(SubscriberEmail(s))
        } else {
            Err(s.concat(" is not a valid subscriber email"))
        }
    }

    /// The validated text, exactly as it was given: every live
    /// `SubscriberEmail` satisfies the address syntax.
    pub fn as_ref(&self) -> (r: &str)
        ensures
            r@ == self@,
            valid_email_text(self@),
    {
        proof {
            use_type_invariant(self);
        }
        self.0.as_str()
    }
}

/// The address-parsing outcome is a function of the text alone: the same
/// text parsed twice yields the same outcome, so two accepted wrappers for
/// one input hold identical text.
pub proof fn lemma_email_parse_idempotent(s1: Seq<char>, s2: Seq<char>)
    requires
        s1 == s2,
    ensures
        email_parse_outcome(s1) == email_parse_outcome(s2),
{
}

} // verus!
