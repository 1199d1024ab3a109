//! SOAP envelopes as text.
use vstd::prelude::*;

verus! {

/// An outgoing SOAP request, as XML text.
#[derive(Debug)]
pub struct SoapRequest {
    pub payload: String,
}

impl SoapRequest {
    /// The XML text to send.
    pub fn to_xml_string(&self) -> (r: String)
        ensures
            r@ == self.payload@,
    {
        self.payload.clone()
    }
}

/// An incoming SOAP response, as XML text.
#[derive(Debug)]
pub struct SoapResponse {
    pub payload: String,
}

impl SoapResponse {
    /// The text of the response.
    pub fn parse_payload(&self) -> (r: String)
        ensures
            r@ == self.payload@,
    {
        self.payload.clone()
    }
}

} // verus!
