//! Names as a module writes them.
use vstd::prelude::*;
use vstd::utf8::{valid_utf8, decode_utf8};

verus! {

/// The text that bytes encode in UTF-8, if they encode one: the result of
/// `std::str::from_utf8`, which accepts exactly the valid encodings and
/// yields the text they encode.
#[verifier::external_body]
fn str_from_utf8(bytes: &[u8]) -> (text: Option<&str>)
    ensures
        text is Some <==> valid_utf8(bytes@),
        text matches Some(t) ==> t@ == decode_utf8(bytes@),
{
    std::str::from_utf8(bytes).ok()
}

/// The name that the bytes spell, if they are valid UTF-8.
pub fn try_get_name(bytes: &[u8]) -> (name: Option<&str>)
    ensures
        name is Some <==> valid_utf8(bytes@),
        name matches Some(n) ==> n@ == decode_utf8(bytes@),
{
    str_from_utf8(bytes)
}

/// The name that the bytes spell. The bytes are valid UTF-8.
pub fn get_name(bytes: &[u8]) -> (name: &str)
    requires
        valid_utf8(bytes@),
    ensures
        name@ == decode_utf8(bytes@),
{
    str_from_utf8(bytes).unwrap()
}

} // verus!
