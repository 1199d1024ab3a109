//! A WSDL 1.1 document scanner: turns the event stream of an XML reader into
//! a typed model of services, bindings, messages, port types and ports.

pub mod decode;
pub mod error;
pub mod laws;
pub mod names;
pub mod request;
pub mod scanner;
pub mod schema;
pub mod soap;
pub mod spec;
pub mod traits;
pub mod xml_source;

pub use error::WsdlError;
pub use request::Request;
pub use schema::{
    QualifiedName, Wsdl, WsdlBinding, WsdlDocumentation, WsdlFaultBinding, WsdlInputBinding,
    WsdlMessage, WsdlMessagePart, WsdlOperationBinding, WsdlOutputBinding, WsdlPort, WsdlPortType,
    WsdlService, WsdlTypes,
};
pub use soap::{SoapRequest, SoapResponse};
pub use traits::{Documented, NamedItem};
pub use xml_source::XmlToken;
