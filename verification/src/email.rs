//! Which texts pass for an email address.

use vstd::prelude::*;

verus! {

/// The regular expression that an email address has to match somewhere.
pub const EMAIL_PATTERN: &'static str =
    r"\b[A-Za-z0-9._%+-]+@[A-Za-z0-9.-]+\.[A-Z|a-z]{2,}\b";

/// What `regex::Regex::is_match` answers for a regular expression and a text.
pub uninterp spec fn regex_is_match(pattern: Seq<char>, text: Seq<char>) -> bool;

/// No address is fine, and so is one that matches the pattern.
pub open spec fn email_is_valid(email: Option<Seq<char>>) -> bool {
    match email {
        Some(address) => regex_is_match(EMAIL_PATTERN@, address),
        None => true,
    }
}

/// `text` has an `@` with something before it, and behind it, not at once, a dot with at least two
/// more characters.
pub open spec fn has_address_shape(text: Seq<char>) -> bool {
    exists|at: int, dot: int|
        0 < at && at + 1 < dot && dot + 2 < text.len() && #[trigger] text[at] == '@'
            && #[trigger] text[dot] == '.'
}

/// What an optional string slice holds.
pub open spec fn option_str(text: Option<&str>) -> Option<Seq<char>> {
    match text {
        Some(text) => Some(text@),
        None => None,
    }
}

/// Calls `regex::Regex::new` on the pattern and `regex::Regex::is_match` on the text.
///
/// Believed of them: the email pattern compiles, and whether it matches somewhere in the text
/// depends on the pattern and the text alone. A text that it matches has the shape of an address,
/// since the pattern asks for one or more characters, an `@`, one or more characters, a dot and two
/// or more characters in a row. Which of these texts match is not stated.
#[verifier::external_body]
fn is_match(pattern: &str, text: &str) -> (result: bool)
    requires
        pattern@ == EMAIL_PATTERN@,
    ensures
        result == regex_is_match(pattern@, text@),
        result ==> has_address_shape(text@),
{
    regex::Regex::new(pattern).unwrap().is_match(text)
}

/// Whether the contents of the email field are valid. No text without an `@` is.
pub fn valid_email(email: Option<&str>) -> (result: bool)
    ensures
        result == email_is_valid(option_str(email)),
        email is None ==> result,
        email is Some ==> result == regex_is_match(
            r"\b[A-Za-z0-9._%+-]+@[A-Za-z0-9.-]+\.[A-Z|a-z]{2,}\b"@,
            email->0@,
        ),
        email is Some && result ==> has_address_shape(email->0@) && email->0@.contains('@'),
{
    match email {
        Some(address) => is_match(EMAIL_PATTERN, address),
        None => true,
    }
}

/// An address is valid exactly if the email pattern matches it, and so is the absence of one.
pub proof fn law_email_validity(address: Seq<char>)
    ensures
        email_is_valid(Some(address)) <==> regex_is_match(
            r"\b[A-Za-z0-9._%+-]+@[A-Za-z0-9.-]+\.[A-Z|a-z]{2,}\b"@,
            address,
        ),
        email_is_valid(None),
{
}

/// A text with the shape of an address has an `@`, a dot, and six characters at least.
pub proof fn law_address_shape(text: Seq<char>)
    requires
        has_address_shape(text),
    ensures
        text.contains('@'),
        text.contains('.'),
        text.len() >= 6,
{
}

/// An optional string slice is seen with all its characters, and as absent exactly if it is absent.
pub proof fn law_option_str(text: Option<&str>)
    ensures
        option_str(text) is None <==> text is None,
        text is Some ==> option_str(text)->0 == text->0@,
{
}

} // verus!
