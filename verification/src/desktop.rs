//! What the desktop window's commands decide on their own: how a file the
//! user opens is shown.
use vstd::prelude::*;
use vstd::utf8::{decode_utf8, valid_utf8};
use crate::text::{decimal, push_decimal, push_str};

verus! {

/// `String::from_utf8`: the text the bytes encode when they are valid
/// UTF-8, and nothing otherwise.
#[verifier::external_body]
fn string_from_utf8(bytes: Vec<u8>) -> (r: Option<String>)
    ensures
        r is Some <==> valid_utf8(bytes@),
        r matches Some(s) ==> s@ == decode_utf8(bytes@),
{
    String::from_utf8(bytes).ok()
}

/// The text of a file the user opens: its contents when they are valid
/// UTF-8, otherwise a message that says it is not a text file and how many
/// bytes it has.
pub fn file_text(bytes: Vec<u8>) -> (r: Result<String, String>)
    ensures
        r is Ok <==> valid_utf8(bytes@),
        r matches Ok(s) ==> s@ == decode_utf8(bytes@),
        r matches Err(m) ==> m@ == "not a UTF-8 text file ("@ + decimal(bytes@.len()) + " bytes)"@,
{
    let n = bytes.len();
    match string_from_utf8(bytes) {
        Some(s) => Ok(s),
        None => {
            let mut m = String::from_str("not a UTF-8 text file (");
            push_decimal(&mut m, n as u128);
            push_str(&mut m, " bytes)");
            Err(m)
        },
    }
}

} // verus!
