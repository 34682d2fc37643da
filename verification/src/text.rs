//! Reading the C strings that PostgreSQL hands over (role names, query text)
//! as text.
use vstd::prelude::*;
use vstd::string::StringSliceAdditionalSpecFns;
use vstd::utf8::{decode_utf8, encode_utf8_decode_utf8, encode_utf8_valid_utf8, valid_utf8};
use crate::state::{NoddlModel, opt_string_view, spec_is_admin};

verus! {

/// Wraps `std::str::from_utf8`.  Trusted: when it returns a string, that
/// string's UTF-8 encoding is exactly `bytes`; when it fails, `bytes` is not
/// valid UTF-8 (its documentation: "Returns `Err` if the slice is not
/// UTF-8").  This relies on vstd's `valid_utf8` describing the same UTF-8 as
/// std does.
#[verifier::external_body]
pub(crate) fn str_from_utf8(bytes: &[u8]) -> (res: Option<&str>)
    ensures
        match res {
            Some(s) => s.spec_bytes() == bytes@,
            None => !valid_utf8(bytes@),
        },
{
    std::str::from_utf8(bytes).ok()
}

/// The text that the bytes encode, when they are valid UTF-8.
pub open spec fn spec_utf8_text(bytes: Seq<u8>) -> Option<Seq<char>> {
    if valid_utf8(bytes) {
        Some(decode_utf8(bytes))
    } else {
        None
    }
}

/// Decodes `bytes` as UTF-8: the text, or `None` when they are not valid
/// UTF-8.
pub(crate) fn decode_text(bytes: &[u8]) -> (res: Option<&str>)
    ensures
        match res {
            Some(s) => spec_utf8_text(bytes@) == Some(s@),
            None => spec_utf8_text(bytes@) is None,
        },
{
    let res = str_from_utf8(bytes);
    proof {
        if let Some(s) = res {
            encode_utf8_valid_utf8(s@);
            encode_utf8_decode_utf8(s@);
        }
    }
    res
}

/// The session user's name as the admin check sees it: the name when
/// PostgreSQL returned one that is valid UTF-8, and no name otherwise (a
/// name that cannot be read never matches the admin user).
pub open spec fn spec_session_user_name(role_name: Option<Seq<u8>>) -> Option<Seq<char>> {
    match role_name {
        None => None,
        Some(bytes) => spec_utf8_text(bytes),
    }
}

/// The view of optional bytes.
pub open spec fn opt_bytes_view(bytes: Option<&[u8]>) -> Option<Seq<u8>> {
    match bytes {
        Some(b) => Some(b@),
        None => None,
    }
}

/// A session user counts as the admin only when PostgreSQL returned a role
/// name whose bytes are valid UTF-8 and decode to exactly the configured
/// admin name; a missing or undecodable name never matches, not even an
/// empty admin name.
pub proof fn lemma_admin_needs_matching_name(m: NoddlModel, role_name: Option<Seq<u8>>)
    ensures
        spec_is_admin(m, spec_session_user_name(role_name)) <==> {
            &&& m.admin_user is Some
            &&& role_name is Some
            &&& valid_utf8(role_name->0)
            &&& decode_utf8(role_name->0) == m.admin_user->0
        },
{
}

/// Reads the session user's name from the bytes of the role name that
/// PostgreSQL returned (`None` for a null pointer).
pub fn session_user_name(role_name: Option<&[u8]>) -> (name: Option<String>)
    ensures
        opt_string_view(name) == spec_session_user_name(opt_bytes_view(role_name)),
{
    match role_name {
        None => None,
        Some(bytes) => match decode_text(bytes) {
            Some(text) => Some(text.to_owned()),
            None => None,
        },
    }
}

} // verus!
