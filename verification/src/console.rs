//! Decoding of an entity's console log: the provider hands the log over as
//! base64 text, and the engine turns it into raw bytes for display.

use vstd::prelude::*;
use crate::entity::opt_str_view;

verus! {

/// What decoding standard base64 yields for a character sequence: the raw
/// bytes, or `None` for text that is not valid base64. The result depends
/// on the characters alone.
pub uninterp spec fn base64_decoded(s: Seq<char>) -> Option<Seq<u8>>;

/// Relies on base64's `Engine::decode` with the standard alphabet: decoding
/// is a function of the input characters alone; invalid input is reported
/// as an error, whose message is kept only as displayable text.
#[verifier::external_body]
fn base64_decode(s: &str) -> (r: Result<Vec<u8>, String>)
    ensures
        r matches Ok(v) ==> base64_decoded(s@) == Some(v@),
        r is Err ==> base64_decoded(s@) is None,
{
    match base64::Engine::decode(&base64::engine::general_purpose::STANDARD, s) {
        Ok(v) => Ok(v),
        Err(e) => Err(format!("{}", e)),
    }
}

/// Decodes the console output field of a log response: absent output is an
/// error, present output is decoded from base64, and the outcome succeeds
/// exactly when the text decodes.
pub fn decode_console_output(output: &Option<String>) -> (r: Result<Vec<u8>, String>)
    ensures
        match opt_str_view(*output) {
            Some(s) => (r matches Ok(v) ==> base64_decoded(s) == Some(v@)) && ((r is Ok)
                == (base64_decoded(s) is Some)),
            None => r is Err,
        },
{
    match output {
        Some(s) => base64_decode(s.as_str()),
        None => Err("no console output".to_owned()),
    }
}

} // verus!
