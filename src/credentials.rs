//! Decoding of the client credential header `<scheme> <base64(id:secret)>`.
use vstd::prelude::*;
use vstd::utf8::{decode_utf8, valid_utf8};
use crate::text::{pieces, split_on};

verus! {

/// The bytes that standard base64 text decodes to, or `None` when it is not
/// valid standard base64.
pub uninterp spec fn base64_decoding(text: Seq<char>) -> Option<Seq<u8>>;

/// Relies on base64's `decode` (standard alphabet): the decoded bytes, or an
/// error on malformed input. It panics only where buffer sizes derived from
/// the input length overflow `usize`, which no string held in memory reaches.
#[verifier::external_body]
fn base64_decode(text: &str) -> (r: Option<Vec<u8>>)
    ensures
        r matches Some(b) ==> base64_decoding(text@) == Some(b@),
        r is None ==> base64_decoding(text@) is None,
{
    match base64::decode(text) {
        Ok(bytes) => Some(bytes),
        Err(_) => None,
    }
}

/// Relies on std's `str::from_utf8`: succeeds exactly on valid UTF-8, and the
/// text then holds the characters the bytes encode.
#[verifier::external_body]
fn utf8_text(bytes: &[u8]) -> (r: Option<String>)
    ensures
        r is Some <==> valid_utf8(bytes@),
        r matches Some(t) ==> t@ == decode_utf8(bytes@),
{
    match std::str::from_utf8(bytes) {
        Ok(t) => Some(t.to_string()),
        Err(_) => None,
    }
}

/// The identity and secret carried by a credential header: the second
/// space-separated field is base64 of UTF-8 text whose first two
/// colon-separated fields are the identity and the secret. `None` when any of
/// these steps fails.
pub open spec fn client_pair(header: Seq<char>) -> Option<(Seq<char>, Seq<char>)> {
    let fields = pieces(header, ' ');
    if fields.len() < 2 {
        None
    } else {
        match base64_decoding(fields[1]) {
            None => None,
            Some(bytes) => if !valid_utf8(bytes) {
                None
            } else {
                let parts = pieces(decode_utf8(bytes), ':');
                if parts.len() < 2 {
                    None
                } else {
                    Some((parts[0], parts[1]))
                }
            },
        }
    }
}

/// Decodes a client credential header into its identity and secret.
pub fn decode_client_auth(client_authorization: &str) -> (r: Option<(String, String)>)
    ensures
        r is None <==> client_pair(client_authorization@) is None,
        r matches Some(p) ==> client_pair(client_authorization@) == Some((p.0@, p.1@)),
{
    let fields = split_on(client_authorization, ' ');
    if fields.len() < 2 {
        return None;
    }
    let bytes = match base64_decode(fields[1].as_str()) {
        Some(b) => b,
        None => return None,
    };
    let text = match utf8_text(bytes.as_slice()) {
        Some(t) => t,
        None => return None,
    };
    let parts = split_on(text.as_str(), ':');
    if parts.len() < 2 {
        return None;
    }
    Some((parts[0].clone(), parts[1].clone()))
}

} // verus!
