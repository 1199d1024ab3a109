//! The ways a parse can fail.
use vstd::prelude::*;

verus! {

/// Why a document could not be turned into a model. Every error aborts the
/// whole parse.
#[derive(Debug)]
pub enum WsdlError {
    /// The bytes of the document could not be read.
    Io(String),
    /// The document could not be fetched over HTTP.
    Http(String),
    /// The XML reader found the document not well-formed.
    Xml(String),
    /// A recognized element lacks a required attribute: (attribute, element).
    MandatoryAttribute(String, String),
    /// A recognized element ended before its own end tag, or holds a
    /// reference that is not a qualified name.
    InvalidElement(String),
    /// A required element is missing from the document.
    MissingElement(String),
}

/// The mathematical value of a `WsdlError`.
pub enum ErrorModel {
    Io(Seq<char>),
    Http(Seq<char>),
    Xml(Seq<char>),
    MandatoryAttribute(Seq<char>, Seq<char>),
    InvalidElement(Seq<char>),
    MissingElement(Seq<char>),
}

impl View for WsdlError {
    type V = ErrorModel;

    open spec fn view(&self) -> ErrorModel {
        match self {
            WsdlError::Io(m) => ErrorModel::Io(m@),
            WsdlError::Http(m) => ErrorModel::Http(m@),
            WsdlError::Xml(m) => ErrorModel::Xml(m@),
            WsdlError::MandatoryAttribute(a, e) => ErrorModel::MandatoryAttribute(a@, e@),
            WsdlError::InvalidElement(e) => ErrorModel::InvalidElement(e@),
            WsdlError::MissingElement(e) => ErrorModel::MissingElement(e@),
        }
    }
}

/// The view of a result whose error is a `WsdlError`.
pub open spec fn rview<T: View>(r: Result<T, WsdlError>) -> Result<T::V, ErrorModel> {
    match r {
        Ok(v) => Ok(v@),
        Err(e) => Err(e@),
    }
}

} // verus!
