//! A generic request: headers and content.
use vstd::prelude::*;
use std::collections::HashMap;

verus! {

/// A request as headers (name to value) and a body.
#[derive(Debug)]
pub struct Request {
    pub header: HashMap<String, String>,
    pub content: String,
}

impl Request {
    pub fn new(header: HashMap<String, String>, content: String) -> (r: Request)
        ensures
            r.header == header,
            r.content == content,
    {
        Request { header, content }
    }
}

} // verus!
