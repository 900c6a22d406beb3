use vstd::prelude::*;
use vstd::string::StrSliceExecFns;
use crate::errors::MingError;

verus! {

pub const MAX_TOKEN_URI_LEN: usize = 200;

pub const MAX_EXTERNAL_OBJECT_ID_LEN: usize = 64;

pub const MAX_ELEMENT_LEN: usize = 16;

/// `s` begins with the seven characters of `ipfs://`.
pub open spec fn starts_with_ipfs(s: Seq<char>) -> bool {
    s.len() >= 7 && s[0] == 'i' && s[1] == 'p' && s[2] == 'f' && s[3] == 's' && s[4] == ':'
        && s[5] == '/' && s[6] == '/'
}

/// `s` begins with the eight characters of `https://`.
pub open spec fn starts_with_https(s: Seq<char>) -> bool {
    s.len() >= 8 && s[0] == 'h' && s[1] == 't' && s[2] == 't' && s[3] == 'p' && s[4] == 's'
        && s[5] == ':' && s[6] == '/' && s[7] == '/'
}

pub open spec fn has_supported_uri_prefix(s: Seq<char>) -> bool {
    starts_with_ipfs(s) || starts_with_https(s)
}

/// A content URI a record may carry: non-empty, a supported scheme, bounded length.
pub open spec fn valid_token_uri(s: Seq<char>) -> bool {
    s.len() > 0 && has_supported_uri_prefix(s) && s.len() <= MAX_TOKEN_URI_LEN
}

pub open spec fn valid_external_object_id(s: Seq<char>) -> bool {
    s.len() > 0 && s.len() <= MAX_EXTERNAL_OBJECT_ID_LEN
}

pub open spec fn valid_element(s: Seq<char>) -> bool {
    s.len() > 0 && s.len() <= MAX_ELEMENT_LEN
}

/// The URI checks in the order they are applied: emptiness and scheme first,
/// then length.
pub open spec fn token_uri_check(s: Seq<char>) -> Result<(), MingError> {
    if s.len() == 0 {
        Err(MingError::InvalidTokenUri)
    } else if !has_supported_uri_prefix(s) {
        Err(MingError::InvalidTokenUri)
    } else if s.len() > MAX_TOKEN_URI_LEN {
        Err(MingError::TokenUriTooLong)
    } else {
        Ok(())
    }
}

/// The field checks a mint performs, in order: the URI, then the external
/// object identifier, then the element tag.
pub open spec fn mint_fields_check(uri: Seq<char>, obj: Seq<char>, el: Seq<char>) -> Result<
    (),
    MingError,
> {
    if token_uri_check(uri) is Err {
        token_uri_check(uri)
    } else if obj.len() == 0 {
        Err(MingError::InvalidExternalObjectId)
    } else if obj.len() > MAX_EXTERNAL_OBJECT_ID_LEN {
        Err(MingError::ExternalObjectIdTooLong)
    } else if el.len() == 0 {
        Err(MingError::InvalidElement)
    } else if el.len() > MAX_ELEMENT_LEN {
        Err(MingError::ElementTooLong)
    } else {
        Ok(())
    }
}

fn has_uri_prefix_exec(s: &str) -> (r: bool)
    ensures
        r == has_supported_uri_prefix(s@),
{
    let n: usize = s.unicode_len();
    if n >= 7 && s.get_char(0) == 'i' && s.get_char(1) == 'p' && s.get_char(2) == 'f'
        && s.get_char(3) == 's' && s.get_char(4) == ':' && s.get_char(5) == '/'
        && s.get_char(6) == '/' {
        true
    } else if n >= 8 && s.get_char(0) == 'h' && s.get_char(1) == 't' && s.get_char(2) == 't'
        && s.get_char(3) == 'p' && s.get_char(4) == 's' && s.get_char(5) == ':'
        && s.get_char(6) == '/' && s.get_char(7) == '/' {
        true
    } else {
        false
    }
}

/// Checks the URI a release supplies: non-empty, `ipfs://` or `https://`,
/// at most `MAX_TOKEN_URI_LEN` characters.
pub fn validate_release_token_uri(token_uri: &str) -> (r: Result<(), MingError>)
    ensures
        r == token_uri_check(token_uri@),
        r is Ok <==> valid_token_uri(token_uri@),
{
    let n: usize = token_uri.unicode_len();
    if n == 0 {
        Err(MingError::InvalidTokenUri)
    } else if !has_uri_prefix_exec(token_uri) {
        Err(MingError::InvalidTokenUri)
    } else if n > MAX_TOKEN_URI_LEN {
        Err(MingError::TokenUriTooLong)
    } else {
        Ok(())
    }
}

/// Checks the three caller-supplied fields of a mint.
pub fn validate_mint_fields(token_uri: &str, external_object_id: &str, element: &str) -> (r: Result<
    (),
    MingError,
>)
    ensures
        r == mint_fields_check(token_uri@, external_object_id@, element@),
        r is Ok <==> valid_token_uri(token_uri@) && valid_external_object_id(external_object_id@)
            && valid_element(element@),
{
    let uri_check = validate_release_token_uri(token_uri);
    if let Err(e) = uri_check {
        return Err(e);
    }
    let obj_len: usize = external_object_id.unicode_len();
    if obj_len == 0 {
        return Err(MingError::InvalidExternalObjectId);
    }
    if obj_len > MAX_EXTERNAL_OBJECT_ID_LEN {
        return Err(MingError::ExternalObjectIdTooLong);
    }
    let el_len: usize = element.unicode_len();
    if el_len == 0 {
        return Err(MingError::InvalidElement);
    }
    if el_len > MAX_ELEMENT_LEN {
        return Err(MingError::ElementTooLong);
    }
    Ok(())
}

} // verus!
