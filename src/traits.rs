//! Access to what the model's entities share: documentation and a name.
use vstd::prelude::*;
use crate::schema::{
    Wsdl, WsdlBinding, WsdlDocumentation, WsdlFaultBinding, WsdlInputBinding, WsdlMessage,
    WsdlOperationBinding, WsdlOutputBinding, WsdlPort, WsdlPortType, WsdlService, WsdlTypes,
};

verus! {

/// An entity that may carry documentation.
pub trait Documented {
    spec fn documentation_of(&self) -> Option<WsdlDocumentation>;

    fn get_documentation(&self) -> (r: &Option<WsdlDocumentation>)
        ensures
            *r == self.documentation_of(),
    ;
}

/// An entity with a required name.
pub trait NamedItem {
    spec fn name_of(&self) -> Seq<char>;

    fn get_name(&self) -> (r: &str)
        ensures
            r@ == self.name_of(),
    ;
}

impl Documented for Wsdl {
    open spec fn documentation_of(&self) -> Option<WsdlDocumentation> {
        self.documentation
    }

    fn get_documentation(&self) -> (r: &Option<WsdlDocumentation>) {
        &self.documentation
    }
}

impl Documented for WsdlService {
    open spec fn documentation_of(&self) -> Option<WsdlDocumentation> {
        self.documentation
    }

    fn get_documentation(&self) -> (r: &Option<WsdlDocumentation>) {
        &self.documentation
    }
}

impl Documented for WsdlBinding {
    open spec fn documentation_of(&self) -> Option<WsdlDocumentation> {
        self.documentation
    }

    fn get_documentation(&self) -> (r: &Option<WsdlDocumentation>) {
        &self.documentation
    }
}

impl Documented for WsdlMessage {
    open spec fn documentation_of(&self) -> Option<WsdlDocumentation> {
        self.documentation
    }

    fn get_documentation(&self) -> (r: &Option<WsdlDocumentation>) {
        &self.documentation
    }
}

impl Documented for WsdlPort {
    open spec fn documentation_of(&self) -> Option<WsdlDocumentation> {
        self.documentation
    }

    fn get_documentation(&self) -> (r: &Option<WsdlDocumentation>) {
        &self.documentation
    }
}

impl Documented for WsdlOperationBinding {
    open spec fn documentation_of(&self) -> Option<WsdlDocumentation> {
        self.documentation
    }

    fn get_documentation(&self) -> (r: &Option<WsdlDocumentation>) {
        &self.documentation
    }
}

impl Documented for WsdlInputBinding {
    open spec fn documentation_of(&self) -> Option<WsdlDocumentation> {
        self.documentation
    }

    fn get_documentation(&self) -> (r: &Option<WsdlDocumentation>) {
        &self.documentation
    }
}

impl Documented for WsdlOutputBinding {
    open spec fn documentation_of(&self) -> Option<WsdlDocumentation> {
        self.documentation
    }

    fn get_documentation(&self) -> (r: &Option<WsdlDocumentation>) {
        &self.documentation
    }
}

impl Documented for WsdlFaultBinding {
    open spec fn documentation_of(&self) -> Option<WsdlDocumentation> {
        self.documentation
    }

    fn get_documentation(&self) -> (r: &Option<WsdlDocumentation>) {
        &self.documentation
    }
}

impl Documented for WsdlTypes {
    open spec fn documentation_of(&self) -> Option<WsdlDocumentation> {
        self.documentation
    }

    fn get_documentation(&self) -> (r: &Option<WsdlDocumentation>) {
        &self.documentation
    }
}

impl Documented for WsdlPortType {
    open spec fn documentation_of(&self) -> Option<WsdlDocumentation> {
        self.documentation
    }

    fn get_documentation(&self) -> (r: &Option<WsdlDocumentation>) {
        &self.documentation
    }
}

impl NamedItem for WsdlService {
    open spec fn name_of(&self) -> Seq<char> {
        self.name@
    }

    fn get_name(&self) -> (r: &str) {
        self.name.as_str()
    }
}

impl NamedItem for WsdlBinding {
    open spec fn name_of(&self) -> Seq<char> {
        self.name@
    }

    fn get_name(&self) -> (r: &str) {
        self.name.as_str()
    }
}

impl NamedItem for WsdlMessage {
    open spec fn name_of(&self) -> Seq<char> {
        self.name@
    }

    fn get_name(&self) -> (r: &str) {
        self.name.as_str()
    }
}

impl NamedItem for WsdlPort {
    open spec fn name_of(&self) -> Seq<char> {
        self.name@
    }

    fn get_name(&self) -> (r: &str) {
        self.name.as_str()
    }
}

impl NamedItem for WsdlOperationBinding {
    open spec fn name_of(&self) -> Seq<char> {
        self.name@
    }

    fn get_name(&self) -> (r: &str) {
        self.name.as_str()
    }
}

impl NamedItem for WsdlFaultBinding {
    open spec fn name_of(&self) -> Seq<char> {
        self.name@
    }

    fn get_name(&self) -> (r: &str) {
        self.name.as_str()
    }
}

impl NamedItem for WsdlPortType {
    open spec fn name_of(&self) -> Seq<char> {
        self.name@
    }

    fn get_name(&self) -> (r: &str) {
        self.name.as_str()
    }
}

} // verus!
