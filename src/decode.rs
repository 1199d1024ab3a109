//! Turning raw document bytes into UTF-8 before scanning.
use vstd::prelude::*;
use crate::error::{WsdlError, rview};
use crate::schema::Wsdl;
use crate::spec::parse_tokens;
use crate::xml_source::xml_tokens;

verus! {

/// The UTF-8 bytes that the encoding crate makes of a document: decoded as
/// its byte order mark says, else as UTF-8, with malformed sequences
/// replaced.
pub uninterp spec fn decoded_utf8(bytes: Seq<u8>) -> Seq<u8>;

/// Relies on encoding::types::decode with UTF-8 as fallback: its result
/// depends on the bytes alone, and with the replacing trap it never fails.
#[verifier::external_body]
fn decode_bytes(bytes: &[u8]) -> (r: Result<Vec<u8>, String>)
    ensures
        r is Ok,
        r matches Ok(v) ==> v@ == decoded_utf8(bytes@),
{
    match encoding::types::decode(bytes, encoding::DecoderTrap::Replace, encoding::all::UTF_8).0 {
        Ok(text) => Ok(text.into_bytes()),
        Err(message) => Err(message.into_owned()),
    }
}

/// Decodes raw document bytes into UTF-8.
pub fn decode_contents(bytes: &[u8]) -> (r: Vec<u8>)
    ensures
        r@ == decoded_utf8(bytes@),
{
    match decode_bytes(bytes) {
        Ok(v) => v,
        Err(_) => Vec::new(),
    }
}

impl Wsdl {
    /// Decodes raw document bytes and parses the result.
    pub fn load_from_bytes(contents: &[u8]) -> (r: Result<Wsdl, WsdlError>)
        ensures
            rview(r) == parse_tokens(xml_tokens(decoded_utf8(contents@))),
    {
        let decoded = decode_contents(contents);
        Wsdl::parse(decoded.as_slice())
    }
}

} // verus!
