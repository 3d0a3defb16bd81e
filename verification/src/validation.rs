//! Checks and normalization of the user-supplied fields.
use vstd::prelude::*;

use crate::error::{is_bad, E, R};
use crate::text::{
    byte_len, byte_len_exceeds, chars_of, ends_with_char, lower_case, same_text, starts_with_char,
    to_lower, trim, trimmed,
};

verus! {

/// The message of a rejected e-mail address.
pub open spec fn email_msg() -> Seq<char> {
    "Érvényes e-mail cím szükséges."@
}

/// The message of a rejected role.
pub open spec fn role_msg() -> Seq<char> {
    "A role értéke admin vagy user lehet."@
}

/// The message of a rejected display name.
pub open spec fn name_msg() -> Seq<char> {
    "A név legfeljebb 120 karakter lehet."@
}

/// The normalized form of an e-mail address: trimmed, then lowercased.
pub open spec fn normalized_email(v: Seq<char>) -> Seq<char> {
    lower_case(trimmed(v))
}

/// Whether a normalized address is accepted: at most 254 bytes, with an `@`
/// that is neither its first nor its last character.
pub open spec fn email_valid(e: Seq<char>) -> bool {
    &&& byte_len(e) <= 254
    &&& e.contains('@')
    &&& !starts_with_char(e, '@')
    &&& !ends_with_char(e, '@')
}

/// The accepted roles.
pub open spec fn role_valid(v: Seq<char>) -> bool {
    v == "admin"@ || v == "user"@
}

/// Accepts an already normalized address if it is valid.
pub fn email_check(value: String) -> (r: R<String>)
    ensures
        match r {
            Ok(e) => e@ == value@ && email_valid(value@),
            Err(x) => !email_valid(value@) && is_bad(x, email_msg()),
        },
{
    let cs = chars_of(value.as_str());
    let n = cs.len();
    if byte_len_exceeds(&cs, 254) || !crate::text::has_char(&cs, '@') || (n > 0 && cs[0] == '@')
        || (n > 0 && cs[n - 1] == '@') {
        Err(E::Bad("Érvényes e-mail cím szükséges.".to_owned()))
    } else {
        Ok(value)
    }
}

/// Normalizes an e-mail address (trim, then lowercase) and accepts it if valid.
pub fn email_of(value: &str) -> (r: R<String>)
    ensures
        match r {
            Ok(e) => e@ == normalized_email(value@) && email_valid(e@),
            Err(x) => !email_valid(normalized_email(value@)) && is_bad(x, email_msg()),
        },
        r matches Ok(e) ==> e@ == lower_case(trimmed(value@)),
        r is Ok <==> email_valid(lower_case(trimmed(value@))),
{
    let t = trim(value);
    let lowered = to_lower(t.as_str());
    email_check(lowered)
}

/// Accepts `admin` or `user`.
pub fn role(value: &str) -> (r: R<String>)
    ensures
        match r {
            Ok(s) => s@ == value@ && role_valid(value@),
            Err(x) => !role_valid(value@) && is_bad(x, role_msg()),
        },
{
    if same_text(value, "admin") || same_text(value, "user") {
        Ok(value.to_owned())
    } else {
        Err(E::Bad("A role értéke admin vagy user lehet.".to_owned()))
    }
}

/// The view of an optional text.
pub open spec fn opt_view(o: Option<String>) -> Option<Seq<char>> {
    match o {
        Some(s) => Some(s@),
        None => None,
    }
}

/// What a display name becomes: `None` when it is rejected, otherwise the
/// stored value (no name for an absent or blank one, else the trimmed text).
pub open spec fn name_value(value: Option<String>) -> Option<Option<Seq<char>>> {
    match value {
        None => Some(None),
        Some(v) => {
            let t = trimmed(v@);
            if t.len() == 0 {
                Some(None)
            } else if byte_len(t) > 120 {
                None
            } else {
                Some(Some(t))
            }
        },
    }
}

/// Trims a display name; an empty one becomes `None`, one longer than 120
/// bytes is rejected.
pub fn name(value: Option<String>) -> (r: R<Option<String>>)
    ensures
        match name_value(value) {
            None => r matches Err(x) && is_bad(x, name_msg()),
            Some(t) => r matches Ok(s) && opt_view(s) == t,
        },
{
    match value {
        None => Ok(None),
        Some(v) => {
            let t = trim(v.as_str());
            let cs = chars_of(t.as_str());
            if cs.len() == 0 {
                Ok(None)
            } else if byte_len_exceeds(&cs, 120) {
                Err(E::Bad("A név legfeljebb 120 karakter lehet.".to_owned()))
            } else {
                Ok(Some(t))
            }
        },
    }
}

} // verus!
