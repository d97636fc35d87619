//! User accounts: what the sign-up forms accept, what the account service
//! answers, and the stored credential record.

use vstd::prelude::*;
use vstd::utf8::encode_utf8;
use crate::codec::{decode, encode, storage_text, stored_document};
use crate::error::{already_exists_error, invalid_input_error, other_error, ErrorKind, StoreError};
use crate::template::text_view;
use crate::text::same_text;

verus! {

/// What the account service answers to a registration.
#[derive(Debug)]
pub struct RegisterResponse {
    pub registered: bool,
    pub user: String,
    pub message: String,
}

/// What the account service answers to a login.
#[derive(Debug)]
pub struct AuthResponse {
    pub authenticated: bool,
    pub user: String,
    pub message: String,
}

/// The credential record of the user who is logged in.
#[derive(Debug)]
pub struct UserAccountKey {
    pub username: String,
    pub email: String,
    pub password: String,
    pub key: String,
}

/// The four fields of a sign-up form: user name, email, password and the
/// password typed again.
pub type RegisterFields = (String, String, String, String);

/// `regex::Error`: why a pattern was refused. Nothing of it is read here.
#[verifier::external_type_specification]
#[verifier::external_body]
pub struct ExRegexError(regex::Error);

/// Whether `regex::Regex::new` accepts the pattern.
pub uninterp spec fn regex_compiles(pattern: Seq<char>) -> bool;

/// Whether the regular expression that `regex::Regex::new` makes of the
/// pattern has a match anywhere in the text, as `regex::Regex::is_match`
/// reports it.
pub uninterp spec fn regex_matches(pattern: Seq<char>, haystack: Seq<char>) -> bool;

/// Compiles the pattern with `regex::Regex::new` and searches the text with
/// `regex::Regex::is_match`. The call fails exactly where the pattern does
/// not compile; otherwise it tells whether the text holds a match.
#[verifier::external_body]
fn regex_search(pattern: &str, haystack: &str) -> (out: Result<bool, regex::Error>)
    ensures
        out is Ok <==> regex_compiles(pattern@),
        out matches Ok(found) ==> found == regex_matches(pattern@, haystack@),
{
    let re = regex::Regex::new(pattern)?;
    Ok(re.is_match(haystack))
}

/// The length of a text in bytes of UTF-8.
pub open spec fn utf8_len(s: Seq<char>) -> nat {
    encode_utf8(s).len()
}

/// The length of a text in bytes of UTF-8.
pub fn byte_length(s: &str) -> (out: usize)
    ensures
        out == utf8_len(s@),
{
    s.as_bytes().len()
}

/// Whether a validation did what its model gives: acceptance, or an
/// `InvalidInput` failure with the model's message.
pub open spec fn fault_result_is(out: Result<(), StoreError>, fault: Option<Seq<char>>) -> bool {
    match fault {
        None => out is Ok,
        Some(message) => out matches Err(e) && e.kind == ErrorKind::InvalidInput && e.message@
            == message,
    }
}

/// What is wrong with a registration form, if anything: a field of more
/// than thirty bytes, or a confirmation that differs from the password.
pub open spec fn register_fault(
    username: Seq<char>,
    email: Seq<char>,
    password: Seq<char>,
    password2: Seq<char>,
) -> Option<Seq<char>> {
    if utf8_len(username) > 30 {
        Some("The username should not have more than 30 characters."@)
    } else if utf8_len(email) > 30 {
        Some("The email should not have more than 30 characters."@)
    } else if utf8_len(password) > 30 {
        Some("The password should not have more than 30 characters."@)
    } else if password != password2 {
        Some("The confirm password is incorrect."@)
    } else {
        None
    }
}

/// Checks a registration form.
pub fn validate_register_inputs(fields: &RegisterFields) -> (out: Result<(), StoreError>)
    ensures
        fault_result_is(out, register_fault(fields.0@, fields.1@, fields.2@, fields.3@)),
{
    if byte_length(fields.0.as_str()) > 30 {
        return Err(invalid_input_error("The username should not have more than 30 characters."));
    }
    if byte_length(fields.1.as_str()) > 30 {
        return Err(invalid_input_error("The email should not have more than 30 characters."));
    }
    if byte_length(fields.2.as_str()) > 30 {
        return Err(invalid_input_error("The password should not have more than 30 characters."));
    }
    if !same_text(fields.2.as_str(), fields.3.as_str()) {
        return Err(invalid_input_error("The confirm password is incorrect."));
    }
    Ok(())
}

/// The pattern for a character that is neither an ASCII letter nor a digit.
pub open spec fn special_chars_pattern() -> Seq<char> {
    "[^[a-z][A-Z]\\d]"@
}

/// The pattern for an upper-case ASCII letter.
pub open spec fn upper_chars_pattern() -> Seq<char> {
    "[A-Z]"@
}

/// The pattern for a lower-case ASCII letter.
pub open spec fn lower_chars_pattern() -> Seq<char> {
    "[a-z]"@
}

/// The pattern for an ASCII digit.
pub open spec fn digits_pattern() -> Seq<char> {
    "[0-9]"@
}

/// The pattern for a whitespace character.
pub open spec fn whitespace_pattern() -> Seq<char> {
    "\\s"@
}

/// Whether all five patterns of the password rules compile.
pub open spec fn password_patterns_compile() -> bool {
    &&& regex_compiles(special_chars_pattern())
    &&& regex_compiles(upper_chars_pattern())
    &&& regex_compiles(lower_chars_pattern())
    &&& regex_compiles(digits_pattern())
    &&& regex_compiles(whitespace_pattern())
}

/// What is wrong with a password, if anything, given its length in bytes,
/// which kinds of character it holds, and whether it was confirmed. The
/// rules are tried in this order.
pub open spec fn password_fault(
    len: nat,
    special: bool,
    upper: bool,
    lower: bool,
    digit: bool,
    space: bool,
    confirmed: bool,
) -> Option<Seq<char>> {
    if len > 30 {
        Some("The password must have 30 characteres or less."@)
    } else if len < 6 {
        Some("The password must have 6 characters or more."@)
    } else if !special {
        Some("The password must have at least one special character."@)
    } else if !upper {
        Some("The password must have at least one uppercase character."@)
    } else if !lower {
        Some("The password must have at least one lowercase character."@)
    } else if !digit {
        Some("The password must have at least one digit."@)
    } else if space {
        Some("The password must not have whitespaces."@)
    } else if !confirmed {
        Some("The confirm password is incorrect."@)
    } else {
        None
    }
}

/// Applies the password rules to what was found out about a password.
pub fn judge_password(
    len: usize,
    special: bool,
    upper: bool,
    lower: bool,
    digit: bool,
    space: bool,
    confirmed: bool,
) -> (out: Result<(), StoreError>)
    ensures
        fault_result_is(out, password_fault(len as nat, special, upper, lower, digit, space, confirmed)),
{
    if len > 30 {
        return Err(invalid_input_error("The password must have 30 characteres or less."));
    }
    if len < 6 {
        return Err(invalid_input_error("The password must have 6 characters or more."));
    }
    if !special {
        return Err(invalid_input_error("The password must have at least one special character."));
    }
    if !upper {
        return Err(
            invalid_input_error("The password must have at least one uppercase character."),
        );
    }
    if !lower {
        return Err(
            invalid_input_error("The password must have at least one lowercase character."),
        );
    }
    if !digit {
        return Err(invalid_input_error("The password must have at least one digit."));
    }
    if space {
        return Err(invalid_input_error("The password must not have whitespaces."));
    }
    if !confirmed {
        return Err(invalid_input_error("The confirm password is incorrect."));
    }
    Ok(())
}

/// What the password rules say of a password and its confirmation, by what
/// the five patterns find in it.
pub open spec fn password_verdict(password: Seq<char>, password2: Seq<char>) -> Option<Seq<char>> {
    password_fault(
        utf8_len(password),
        regex_matches(special_chars_pattern(), password),
        regex_matches(upper_chars_pattern(), password),
        regex_matches(lower_chars_pattern(), password),
        regex_matches(digits_pattern(), password),
        regex_matches(whitespace_pattern(), password),
        password == password2,
    )
}

/// Searches the text for a match of the pattern. A pattern that does not
/// compile is an `Other` failure.
fn search(pattern: &str, haystack: &str) -> (out: Result<bool, StoreError>)
    ensures
        out is Ok <==> regex_compiles(pattern@),
        out matches Ok(found) ==> found == regex_matches(pattern@, haystack@),
        out matches Err(e) ==> e.kind == ErrorKind::Other,
{
    match regex_search(pattern, haystack) {
        Ok(found) => Ok(found),
        Err(_) => Err(other_error("A password rule could not be compiled.")),
    }
}

/// Checks a password against the rules: six to thirty bytes, with a special
/// character, an upper-case letter, a lower-case letter and a digit, without
/// whitespace, and typed the same twice. A pattern that does not compile is
/// an `Other` failure, whatever the password.
pub fn validate_password(password: &str, password2: &str) -> (out: Result<(), StoreError>)
    ensures
        password_patterns_compile() ==> fault_result_is(out, password_verdict(password@, password2@)),
        !password_patterns_compile() ==> (out matches Err(e) && e.kind == ErrorKind::Other),
{
    let special = match search("[^[a-z][A-Z]\\d]", password) {
        Ok(found) => found,
        Err(e) => {
            return Err(e);
        },
    };
    let upper = match search("[A-Z]", password) {
        Ok(found) => found,
        Err(e) => {
            return Err(e);
        },
    };
    let lower = match search("[a-z]", password) {
        Ok(found) => found,
        Err(e) => {
            return Err(e);
        },
    };
    let digit = match search("[0-9]", password) {
        Ok(found) => found,
        Err(e) => {
            return Err(e);
        },
    };
    let space = match search("\\s", password) {
        Ok(found) => found,
        Err(e) => {
            return Err(e);
        },
    };
    judge_password(
        byte_length(password),
        special,
        upper,
        lower,
        digit,
        space,
        same_text(password, password2),
    )
}

/// What is wrong with the name and the email of a sign-up form, if
/// anything: a field of more than thirty bytes.
pub open spec fn signup_fields_fault(username: Seq<char>, email: Seq<char>) -> Option<Seq<char>> {
    if utf8_len(username) > 30 {
        Some("The username should not have more than 30 characters."@)
    } else if utf8_len(email) > 30 {
        Some("The email should not have more than 30 characters."@)
    } else {
        None
    }
}

/// Checks a sign-up form: the lengths of name and email first, then the
/// password rules.
pub fn validate_signup_inputs(fields: &RegisterFields) -> (out: Result<(), StoreError>)
    ensures
        signup_fields_fault(fields.0@, fields.1@) is Some ==> fault_result_is(
            out,
            signup_fields_fault(fields.0@, fields.1@),
        ),
        signup_fields_fault(fields.0@, fields.1@) is None && password_patterns_compile()
            ==> fault_result_is(out, password_verdict(fields.2@, fields.3@)),
        signup_fields_fault(fields.0@, fields.1@) is None && !password_patterns_compile() ==> (
        out matches Err(e) && e.kind == ErrorKind::Other),
{
    if byte_length(fields.0.as_str()) > 30 {
        return Err(invalid_input_error("The username should not have more than 30 characters."));
    }
    if byte_length(fields.1.as_str()) > 30 {
        return Err(invalid_input_error("The email should not have more than 30 characters."));
    }
    validate_password(fields.2.as_str(), fields.3.as_str())
}

/// What a registration comes to, given the service's answer: the record of
/// the new user, as the service sent it, or `AlreadyExists` with the
/// service's message where it registered nobody.
pub fn registration_outcome(response: RegisterResponse) -> (out: Result<String, StoreError>)
    ensures
        response.registered ==> (out matches Ok(user) && user@ == response.user@),
        !response.registered ==> (out matches Err(e) && e.kind == ErrorKind::AlreadyExists
            && e.message@ == response.message@),
{
    if !response.registered {
        return Err(already_exists_error(response.message.as_str()));
    }
    Ok(response.user)
}

/// What a sign-up comes to, given the service's answer: `AlreadyExists`
/// with the service's message where it registered nobody, the record of the
/// new user where it sent one, and an `Other` failure where it sent none.
pub fn signup_outcome(registered: bool, user: Option<String>, message: &str) -> (out: Result<
    String,
    StoreError,
>)
    ensures
        !registered ==> (out matches Err(e) && e.kind == ErrorKind::AlreadyExists && e.message@
            == message@),
        registered && user is Some ==> (out matches Ok(u) && Some(u@) == text_view(user)),
        registered && user is None ==> (out matches Err(e) && e.kind == ErrorKind::Other),
{
    if !registered {
        return Err(already_exists_error(message));
    }
    match user {
        Some(user) => Ok(user),
        None => Err(other_error("Something went wrong when signup.")),
    }
}

/// Keeps the credential record of the user who is logged in.
#[derive(Debug)]
pub struct UserAccountManager {}

impl UserAccountManager {
    /// The content to write to the credential file for the record whose
    /// document is `document`.
    pub fn save_user_account(document: &str) -> (out: String)
        ensures
            out@ == storage_text(document@),
    {
        encode(document)
    }

    /// The document of the record that a credential file with content
    /// `stored` holds; corrupt content is an `Other` failure.
    pub fn get_user_account_data(stored: &str) -> (out: Result<String, StoreError>)
        ensures
            match stored_document(stored@) {
                Some(document) => out matches Ok(s) && s@ == document,
                None => out matches Err(e) && e.kind == ErrorKind::Other,
            },
    {
        decode(stored)
    }
}

} // verus!
