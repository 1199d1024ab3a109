//! The object model of a WSDL document, and its mathematical view.
use vstd::prelude::*;

verus! {

/// Free text attached to an element: the character data of its body
/// (text, CDATA and whitespace, also inside nested markup), the markup left
/// out. Whether documentation is kept as its text, rather than reduced to a
/// marker, is an open product decision; the text is kept for now.
#[derive(Debug)]
pub struct WsdlDocumentation {
    pub text: String,
}

/// A namespace-qualified name, as written in a reference attribute.
#[derive(Debug)]
pub struct QualifiedName {
    pub local_name: String,
    /// The namespace bound to the prefix where the reference was read;
    /// `None` without a prefix, or when the prefix was not bound.
    pub namespace: Option<String>,
    pub prefix: Option<String>,
}

/// Root of a document.
#[derive(Debug)]
pub struct Wsdl {
    pub documentation: Option<WsdlDocumentation>,
    pub target_namespace: Option<String>,
    pub types: Vec<WsdlTypes>,
    pub port_types: Vec<WsdlPortType>,
    pub services: Vec<WsdlService>,
    pub bindings: Vec<WsdlBinding>,
    pub messages: Vec<WsdlMessage>,
}

/// A deployable service.
#[derive(Debug)]
pub struct WsdlService {
    pub documentation: Option<WsdlDocumentation>,
    pub name: String,
    pub ports: Vec<WsdlPort>,
}

/// A protocol binding for a port type.
#[derive(Debug)]
pub struct WsdlBinding {
    pub documentation: Option<WsdlDocumentation>,
    pub name: String,
    pub port_type: QualifiedName,
    pub operations: Vec<WsdlOperationBinding>,
}

/// The payload shape of an operation.
#[derive(Debug)]
pub struct WsdlMessage {
    pub documentation: Option<WsdlDocumentation>,
    pub name: String,
    pub parts: Vec<WsdlMessagePart>,
}

/// One network endpoint of a service.
#[derive(Debug)]
pub struct WsdlPort {
    pub documentation: Option<WsdlDocumentation>,
    pub name: String,
    pub binding: QualifiedName,
}

/// One bound operation of a binding.
#[derive(Debug)]
pub struct WsdlOperationBinding {
    pub documentation: Option<WsdlDocumentation>,
    pub name: String,
    pub input: Option<WsdlInputBinding>,
    pub output: Option<WsdlOutputBinding>,
    pub fault: Option<WsdlFaultBinding>,
}

/// One named field of a message.
#[derive(Debug)]
pub struct WsdlMessagePart {
    pub name: String,
    pub element: Option<QualifiedName>,
    pub part_type: Option<QualifiedName>,
}

/// The input of a bound operation; `text` is the character data of its body.
#[derive(Debug)]
pub struct WsdlInputBinding {
    pub documentation: Option<WsdlDocumentation>,
    pub text: String,
}

/// The output of a bound operation.
#[derive(Debug)]
pub struct WsdlOutputBinding {
    pub documentation: Option<WsdlDocumentation>,
}

/// A fault of a bound operation.
#[derive(Debug)]
pub struct WsdlFaultBinding {
    pub documentation: Option<WsdlDocumentation>,
    pub name: String,
}

/// Embedded type definitions; their content is not modeled.
#[derive(Debug)]
pub struct WsdlTypes {
    pub documentation: Option<WsdlDocumentation>,
}

/// An abstract set of operations; the operations are not modeled.
#[derive(Debug)]
pub struct WsdlPortType {
    pub documentation: Option<WsdlDocumentation>,
    pub name: String,
}

pub open spec fn str_view(s: Option<String>) -> Option<Seq<char>> {
    match s {
        Some(v) => Some(v@),
        None => None,
    }
}

pub open spec fn doc_view(d: Option<WsdlDocumentation>) -> Option<Seq<char>> {
    match d {
        Some(v) => Some(v.text@),
        None => None,
    }
}

pub struct QNameModel {
    pub local_name: Seq<char>,
    pub namespace: Option<Seq<char>>,
    pub prefix: Option<Seq<char>>,
}

impl View for QualifiedName {
    type V = QNameModel;

    open spec fn view(&self) -> QNameModel {
        QNameModel {
            local_name: self.local_name@,
            namespace: str_view(self.namespace),
            prefix: str_view(self.prefix),
        }
    }
}

pub open spec fn qname_view(q: Option<QualifiedName>) -> Option<QNameModel> {
    match q {
        Some(v) => Some(v@),
        None => None,
    }
}

pub struct WsdlModel {
    pub documentation: Option<Seq<char>>,
    pub target_namespace: Option<Seq<char>>,
    pub types: Seq<TypesModel>,
    pub port_types: Seq<PortTypeModel>,
    pub services: Seq<ServiceModel>,
    pub bindings: Seq<BindingModel>,
    pub messages: Seq<MessageModel>,
}

pub struct ServiceModel {
    pub documentation: Option<Seq<char>>,
    pub name: Seq<char>,
    pub ports: Seq<PortModel>,
}

pub struct BindingModel {
    pub documentation: Option<Seq<char>>,
    pub name: Seq<char>,
    pub port_type: QNameModel,
    pub operations: Seq<OperationModel>,
}

pub struct MessageModel {
    pub documentation: Option<Seq<char>>,
    pub name: Seq<char>,
    pub parts: Seq<PartModel>,
}

pub struct PortModel {
    pub documentation: Option<Seq<char>>,
    pub name: Seq<char>,
    pub binding: QNameModel,
}

pub struct OperationModel {
    pub documentation: Option<Seq<char>>,
    pub name: Seq<char>,
    pub input: Option<InputModel>,
    pub output: Option<OutputModel>,
    pub fault: Option<FaultModel>,
}

pub struct PartModel {
    pub name: Seq<char>,
    pub element: Option<QNameModel>,
    pub part_type: Option<QNameModel>,
}

pub struct InputModel {
    pub documentation: Option<Seq<char>>,
    pub text: Seq<char>,
}

pub struct OutputModel {
    pub documentation: Option<Seq<char>>,
}

pub struct FaultModel {
    pub documentation: Option<Seq<char>>,
    pub name: Seq<char>,
}

pub struct TypesModel {
    pub documentation: Option<Seq<char>>,
}

pub struct PortTypeModel {
    pub documentation: Option<Seq<char>>,
    pub name: Seq<char>,
}

impl View for Wsdl {
    type V = WsdlModel;

    open spec fn view(&self) -> WsdlModel {
        WsdlModel {
            documentation: doc_view(self.documentation),
            target_namespace: str_view(self.target_namespace),
            types: self.types@.map_values(|t: WsdlTypes| t@),
            port_types: self.port_types@.map_values(|t: WsdlPortType| t@),
            services: self.services@.map_values(|s: WsdlService| s@),
            bindings: self.bindings@.map_values(|b: WsdlBinding| b@),
            messages: self.messages@.map_values(|m: WsdlMessage| m@),
        }
    }
}

impl View for WsdlService {
    type V = ServiceModel;

    open spec fn view(&self) -> ServiceModel {
        ServiceModel {
            documentation: doc_view(self.documentation),
            name: self.name@,
            ports: self.ports@.map_values(|p: WsdlPort| p@),
        }
    }
}

impl View for WsdlBinding {
    type V = BindingModel;

    open spec fn view(&self) -> BindingModel {
        BindingModel {
            documentation: doc_view(self.documentation),
            name: self.name@,
            port_type: self.port_type@,
            operations: self.operations@.map_values(|o: WsdlOperationBinding| o@),
        }
    }
}

impl View for WsdlMessage {
    type V = MessageModel;

    open spec fn view(&self) -> MessageModel {
        MessageModel {
            documentation: doc_view(self.documentation),
            name: self.name@,
            parts: self.parts@.map_values(|p: WsdlMessagePart| p@),
        }
    }
}

impl View for WsdlPort {
    type V = PortModel;

    open spec fn view(&self) -> PortModel {
        PortModel { documentation: doc_view(self.documentation), name: self.name@, binding: self.binding@ }
    }
}

impl View for WsdlOperationBinding {
    type V = OperationModel;

    open spec fn view(&self) -> OperationModel {
        OperationModel {
            documentation: doc_view(self.documentation),
            name: self.name@,
            input: match self.input {
                Some(i) => Some(i@),
                None => None,
            },
            output: match self.output {
                Some(o) => Some(o@),
                None => None,
            },
            fault: match self.fault {
                Some(f) => Some(f@),
                None => None,
            },
        }
    }
}

impl View for WsdlMessagePart {
    type V = PartModel;

    open spec fn view(&self) -> PartModel {
        PartModel {
            name: self.name@,
            element: qname_view(self.element),
            part_type: qname_view(self.part_type),
        }
    }
}

impl View for WsdlInputBinding {
    type V = InputModel;

    open spec fn view(&self) -> InputModel {
        InputModel { documentation: doc_view(self.documentation), text: self.text@ }
    }
}

impl View for WsdlOutputBinding {
    type V = OutputModel;

    open spec fn view(&self) -> OutputModel {
        OutputModel { documentation: doc_view(self.documentation) }
    }
}

impl View for WsdlFaultBinding {
    type V = FaultModel;

    open spec fn view(&self) -> FaultModel {
        FaultModel { documentation: doc_view(self.documentation), name: self.name@ }
    }
}

impl View for WsdlTypes {
    type V = TypesModel;

    open spec fn view(&self) -> TypesModel {
        TypesModel { documentation: doc_view(self.documentation) }
    }
}

impl View for WsdlPortType {
    type V = PortTypeModel;

    open spec fn view(&self) -> PortTypeModel {
        PortTypeModel { documentation: doc_view(self.documentation), name: self.name@ }
    }
}

} // verus!
