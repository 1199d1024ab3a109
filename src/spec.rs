//! What reading a token stream yields: the depth-tracked subtree, the body
//! of a recognized element, one reader per element, and the root search.
use vstd::prelude::*;
use crate::error::ErrorModel;
use crate::names::{find_attr, resolve_ref};
use crate::schema::{
    BindingModel, FaultModel, InputModel, MessageModel, OperationModel, OutputModel, PartModel,
    PortModel, PortTypeModel, QNameModel, ServiceModel, TypesModel, WsdlModel,
};
use crate::xml_source::{XmlToken, namespace_bindings};
use xml::attribute::OwnedAttribute;

verus! {

/// The namespace of WSDL 1.1 elements.
pub const WSDL_NAMESPACE: &'static str = "http://schemas.xmlsoap.org/wsdl/";

/// The WSDL elements that the scanner reads.
#[derive(PartialEq, Eq, Structural, Clone, Copy)]
pub enum ElementKind {
    Definitions,
    Documentation,
    Types,
    Message,
    Part,
    PortType,
    Binding,
    Operation,
    Input,
    Output,
    Fault,
    Service,
    Port,
}

/// The local name of an element kind's tag.
pub open spec fn tag_of(k: ElementKind) -> Seq<char> {
    match k {
        ElementKind::Definitions => "definitions"@,
        ElementKind::Documentation => "documentation"@,
        ElementKind::Types => "types"@,
        ElementKind::Message => "message"@,
        ElementKind::Part => "part"@,
        ElementKind::PortType => "portType"@,
        ElementKind::Binding => "binding"@,
        ElementKind::Operation => "operation"@,
        ElementKind::Input => "input"@,
        ElementKind::Output => "output"@,
        ElementKind::Fault => "fault"@,
        ElementKind::Service => "service"@,
        ElementKind::Port => "port"@,
    }
}

/// How errors name an element kind.
pub open spec fn label_of(k: ElementKind) -> Seq<char> {
    match k {
        ElementKind::Definitions => "wsdl:definitions"@,
        ElementKind::Documentation => "wsdl:documentation"@,
        ElementKind::Types => "wsdl:types"@,
        ElementKind::Message => "wsdl:message"@,
        ElementKind::Part => "wsdl:part"@,
        ElementKind::PortType => "wsdl:portType"@,
        ElementKind::Binding => "wsdl:binding"@,
        ElementKind::Operation => "wsdl:operation"@,
        ElementKind::Input => "wsdl:input"@,
        ElementKind::Output => "wsdl:output"@,
        ElementKind::Fault => "wsdl:fault"@,
        ElementKind::Service => "wsdl:service"@,
        ElementKind::Port => "wsdl:port"@,
    }
}

/// The kind whose tag is `local`, if any.
pub open spec fn kind_named(local: Seq<char>) -> Option<ElementKind> {
    if local == "definitions"@ {
        Some(ElementKind::Definitions)
    } else if local == "documentation"@ {
        Some(ElementKind::Documentation)
    } else if local == "types"@ {
        Some(ElementKind::Types)
    } else if local == "message"@ {
        Some(ElementKind::Message)
    } else if local == "part"@ {
        Some(ElementKind::Part)
    } else if local == "portType"@ {
        Some(ElementKind::PortType)
    } else if local == "binding"@ {
        Some(ElementKind::Binding)
    } else if local == "operation"@ {
        Some(ElementKind::Operation)
    } else if local == "input"@ {
        Some(ElementKind::Input)
    } else if local == "output"@ {
        Some(ElementKind::Output)
    } else if local == "fault"@ {
        Some(ElementKind::Fault)
    } else if local == "service"@ {
        Some(ElementKind::Service)
    } else if local == "port"@ {
        Some(ElementKind::Port)
    } else {
        None
    }
}

/// The children that an element of kind `parent` reads itself; everything
/// else in its body is skipped.
pub open spec fn allowed_child(parent: ElementKind, child: ElementKind) -> bool {
    match parent {
        ElementKind::Definitions => child == ElementKind::Documentation || child == ElementKind::Types
            || child == ElementKind::Message || child == ElementKind::PortType || child
            == ElementKind::Binding || child == ElementKind::Service,
        ElementKind::Message => child == ElementKind::Documentation || child == ElementKind::Part,
        ElementKind::Binding => child == ElementKind::Documentation || child == ElementKind::Operation,
        ElementKind::Operation => child == ElementKind::Documentation || child == ElementKind::Input
            || child == ElementKind::Output || child == ElementKind::Fault,
        ElementKind::Service => child == ElementKind::Documentation || child == ElementKind::Port,
        ElementKind::Types | ElementKind::Part | ElementKind::Documentation => false,
        _ => child == ElementKind::Documentation,
    }
}

/// The name is in the WSDL namespace.
pub open spec fn in_wsdl(namespace: Option<String>) -> bool {
    namespace is Some && namespace->Some_0@ == WSDL_NAMESPACE@
}

/// The name is the tag `tag` of the WSDL namespace.
pub open spec fn is_wsdl_tag(namespace: Option<String>, local_name: String, tag: Seq<char>) -> bool {
    in_wsdl(namespace) && local_name@ == tag
}

/// The kind of child that a start tag in the body of `parent` opens, when
/// `parent` reads that child itself.
pub open spec fn recognized(parent: ElementKind, namespace: Option<String>, local_name: String) -> Option<ElementKind> {
    if in_wsdl(namespace) {
        match kind_named(local_name@) {
            Some(k) => if allowed_child(parent, k) {
                Some(k)
            } else {
                None
            },
            None => None,
        }
    } else {
        None
    }
}

/// The character data that a token carries: text, CDATA and whitespace.
pub open spec fn token_text(t: XmlToken) -> Seq<char> {
    match t {
        XmlToken::Text(s) => s@,
        XmlToken::CData(s) => s@,
        XmlToken::Whitespace(s) => s@,
        _ => Seq::empty(),
    }
}

pub open spec fn missing(attribute: Seq<char>, k: ElementKind) -> ErrorModel {
    ErrorModel::MandatoryAttribute(attribute, label_of(k))
}

pub open spec fn invalid(k: ElementKind) -> ErrorModel {
    ErrorModel::InvalidElement(label_of(k))
}

pub open spec fn prepend(t: Seq<char>, r: Result<Seq<char>, ErrorModel>) -> Result<Seq<char>, ErrorModel> {
    match r {
        Ok(s) => Ok(t + s),
        Err(e) => Err(e),
    }
}

/// Reading from position `i` inside `depth` open elements, up to the end tag
/// that closes the outermost of them: all character data on the way, at any
/// depth, and the number of tokens read. Running out of tokens is an invalid
/// `owner` element.
pub open spec fn subtree(toks: Seq<XmlToken>, i: int, depth: nat, owner: ElementKind) -> (Result<Seq<char>, ErrorModel>, nat)
    decreases toks.len() - i,
{
    if i < 0 || i >= toks.len() {
        (Err(invalid(owner)), 0)
    } else {
        match toks[i] {
            XmlToken::Start { .. } => {
                let (r, n) = subtree(toks, i + 1, depth + 1, owner);
                (r, n + 1)
            },
            XmlToken::End { .. } => if depth <= 1 {
                (Ok(Seq::empty()), 1)
            } else {
                let (r, n) = subtree(toks, i + 1, (depth - 1) as nat, owner);
                (r, n + 1)
            },
            XmlToken::Malformed(m) => (Err(ErrorModel::Xml(m@)), 1),
            _ => {
                let (r, n) = subtree(toks, i + 1, depth, owner);
                (prepend(token_text(toks[i]), r), n + 1)
            },
        }
    }
}

/// One child that an element reads itself.
pub enum ChildModel {
    Documentation(Seq<char>),
    Types(TypesModel),
    Message(MessageModel),
    Part(PartModel),
    PortType(PortTypeModel),
    Binding(BindingModel),
    Operation(OperationModel),
    Input(InputModel),
    Output(OutputModel),
    Fault(FaultModel),
    Service(ServiceModel),
    Port(PortModel),
}

/// What the body of an element holds: its children by kind, in document
/// order (the last one for single children), and its own character data.
pub struct BodyModel {
    pub documentation: Option<Seq<char>>,
    pub text: Seq<char>,
    pub types: Seq<TypesModel>,
    pub messages: Seq<MessageModel>,
    pub parts: Seq<PartModel>,
    pub port_types: Seq<PortTypeModel>,
    pub bindings: Seq<BindingModel>,
    pub operations: Seq<OperationModel>,
    pub input: Option<InputModel>,
    pub output: Option<OutputModel>,
    pub fault: Option<FaultModel>,
    pub services: Seq<ServiceModel>,
    pub ports: Seq<PortModel>,
}

pub open spec fn empty_body() -> BodyModel {
    BodyModel {
        documentation: None,
        text: Seq::empty(),
        types: Seq::empty(),
        messages: Seq::empty(),
        parts: Seq::empty(),
        port_types: Seq::empty(),
        bindings: Seq::empty(),
        operations: Seq::empty(),
        input: None,
        output: None,
        fault: None,
        services: Seq::empty(),
        ports: Seq::empty(),
    }
}

pub open spec fn add_child(b: BodyModel, c: ChildModel) -> BodyModel {
    match c {
        ChildModel::Documentation(t) => BodyModel { documentation: Some(t), ..b },
        ChildModel::Types(t) => BodyModel { types: b.types.push(t), ..b },
        ChildModel::Message(m) => BodyModel { messages: b.messages.push(m), ..b },
        ChildModel::Part(p) => BodyModel { parts: b.parts.push(p), ..b },
        ChildModel::PortType(p) => BodyModel { port_types: b.port_types.push(p), ..b },
        ChildModel::Binding(x) => BodyModel { bindings: b.bindings.push(x), ..b },
        ChildModel::Operation(o) => BodyModel { operations: b.operations.push(o), ..b },
        ChildModel::Input(x) => BodyModel { input: Some(x), ..b },
        ChildModel::Output(x) => BodyModel { output: Some(x), ..b },
        ChildModel::Fault(x) => BodyModel { fault: Some(x), ..b },
        ChildModel::Service(s) => BodyModel { services: b.services.push(s), ..b },
        ChildModel::Port(p) => BodyModel { ports: b.ports.push(p), ..b },
    }
}

/// Reading the body of an element of kind `kind` from position `i`, with
/// `acc` read so far, up to the element's own end tag: the body, and the
/// number of tokens read. A recognized child is read by its own reader;
/// any other start tag opens content that is skipped whole. (No reader
/// reads past the last token; the bound on `i + 1 + n` makes that plain
/// to the termination measure.)
pub open spec fn body_from(toks: Seq<XmlToken>, i: int, kind: ElementKind, acc: BodyModel) -> (Result<BodyModel, ErrorModel>, nat)
    decreases toks.len() - i, 0nat,
{
    if i < 0 || i >= toks.len() {
        (Err(invalid(kind)), 0)
    } else {
        match toks[i] {
            XmlToken::Start { name, attributes, namespace } => {
                match recognized(kind, name.namespace, name.local_name) {
                    Some(child) => {
                        let (r, n) = element(child, attributes@, namespace_bindings(namespace), toks, i + 1);
                        match r {
                            Ok(c) => if i + 1 + n <= toks.len() {
                                let (r2, n2) = body_from(toks, i + 1 + n, kind, add_child(acc, c));
                                (r2, 1 + n + n2)
                            } else {
                                (Err(invalid(kind)), 1 + n)
                            },
                            Err(e) => (Err(e), 1 + n),
                        }
                    },
                    None => {
                        let (r, n) = subtree(toks, i + 1, 1, kind);
                        match r {
                            Ok(_) => if i + 1 + n <= toks.len() {
                                let (r2, n2) = body_from(toks, i + 1 + n, kind, acc);
                                (r2, 1 + n + n2)
                            } else {
                                (Err(invalid(kind)), 1 + n)
                            },
                            Err(e) => (Err(e), 1 + n),
                        }
                    },
                }
            },
            XmlToken::End { name } => if is_wsdl_tag(name.namespace, name.local_name, tag_of(kind)) {
                (Ok(acc), 1)
            } else {
                (Err(invalid(kind)), 1)
            },
            XmlToken::Malformed(m) => (Err(ErrorModel::Xml(m@)), 1),
            _ => {
                let (r, n) = body_from(toks, i + 1, kind, BodyModel { text: acc.text + token_text(toks[i]), ..acc });
                (r, 1 + n)
            },
        }
    }
}

/// Reading a recognized child whose start tag (with `attrs`, in `scope`)
/// was just read: the child, and the number of tokens read.
pub open spec fn element(kind: ElementKind, attrs: Seq<OwnedAttribute>, scope: Map<Seq<char>, Seq<char>>, toks: Seq<XmlToken>, i: int) -> (Result<ChildModel, ErrorModel>, nat)
    decreases toks.len() - i, 2nat,
{
    match kind {
        ElementKind::Documentation => {
            let (r, n) = subtree(toks, i, 1, ElementKind::Documentation);
            (match r { Ok(t) => Ok(ChildModel::Documentation(t)), Err(e) => Err(e) }, n)
        },
        ElementKind::Types => {
            let (r, n) = types_read(toks, i);
            (match r { Ok(x) => Ok(ChildModel::Types(x)), Err(e) => Err(e) }, n)
        },
        ElementKind::Message => {
            let (r, n) = message_read(attrs, toks, i);
            (match r { Ok(x) => Ok(ChildModel::Message(x)), Err(e) => Err(e) }, n)
        },
        ElementKind::Part => {
            let (r, n) = part_read(attrs, scope, toks, i);
            (match r { Ok(x) => Ok(ChildModel::Part(x)), Err(e) => Err(e) }, n)
        },
        ElementKind::PortType => {
            let (r, n) = port_type_read(attrs, toks, i);
            (match r { Ok(x) => Ok(ChildModel::PortType(x)), Err(e) => Err(e) }, n)
        },
        ElementKind::Binding => {
            let (r, n) = binding_read(attrs, scope, toks, i);
            (match r { Ok(x) => Ok(ChildModel::Binding(x)), Err(e) => Err(e) }, n)
        },
        ElementKind::Operation => {
            let (r, n) = operation_read(attrs, toks, i);
            (match r { Ok(x) => Ok(ChildModel::Operation(x)), Err(e) => Err(e) }, n)
        },
        ElementKind::Input => {
            let (r, n) = input_read(toks, i);
            (match r { Ok(x) => Ok(ChildModel::Input(x)), Err(e) => Err(e) }, n)
        },
        ElementKind::Output => {
            let (r, n) = output_read(toks, i);
            (match r { Ok(x) => Ok(ChildModel::Output(x)), Err(e) => Err(e) }, n)
        },
        ElementKind::Fault => {
            let (r, n) = fault_read(attrs, toks, i);
            (match r { Ok(x) => Ok(ChildModel::Fault(x)), Err(e) => Err(e) }, n)
        },
        ElementKind::Service => {
            let (r, n) = service_read(attrs, toks, i);
            (match r { Ok(x) => Ok(ChildModel::Service(x)), Err(e) => Err(e) }, n)
        },
        ElementKind::Port => {
            let (r, n) = port_read(attrs, scope, toks, i);
            (match r { Ok(x) => Ok(ChildModel::Port(x)), Err(e) => Err(e) }, n)
        },
        ElementKind::Definitions => (Err(invalid(ElementKind::Definitions)), 0),
    }
}

pub open spec fn types_read(toks: Seq<XmlToken>, i: int) -> (Result<TypesModel, ErrorModel>, nat)
    decreases toks.len() - i, 1nat,
{
    let (r, n) = body_from(toks, i, ElementKind::Types, empty_body());
    (match r { Ok(b) => Ok(TypesModel { documentation: b.documentation }), Err(e) => Err(e) }, n)
}

pub open spec fn message_read(attrs: Seq<OwnedAttribute>, toks: Seq<XmlToken>, i: int) -> (Result<MessageModel, ErrorModel>, nat)
    decreases toks.len() - i, 1nat,
{
    match find_attr(attrs, "name"@) {
        None => (Err(missing("name"@, ElementKind::Message)), 0),
        Some(name) => {
            let (r, n) = body_from(toks, i, ElementKind::Message, empty_body());
            (match r {
                Ok(b) => Ok(MessageModel { documentation: b.documentation, name, parts: b.parts }),
                Err(e) => Err(e),
            }, n)
        },
    }
}

/// An optional reference attribute: `None` when it is present but not a
/// qualified name.
pub open spec fn optional_ref(attrs: Seq<OwnedAttribute>, scope: Map<Seq<char>, Seq<char>>, attr: Seq<char>) -> Option<Option<QNameModel>> {
    match find_attr(attrs, attr) {
        None => Some(None),
        Some(v) => match resolve_ref(v, scope) {
            None => None,
            Some(q) => Some(Some(q)),
        },
    }
}

pub open spec fn part_read(attrs: Seq<OwnedAttribute>, scope: Map<Seq<char>, Seq<char>>, toks: Seq<XmlToken>, i: int) -> (Result<PartModel, ErrorModel>, nat)
    decreases toks.len() - i, 1nat,
{
    match find_attr(attrs, "name"@) {
        None => (Err(missing("name"@, ElementKind::Part)), 0),
        Some(name) => match (optional_ref(attrs, scope, "element"@), optional_ref(attrs, scope, "type"@)) {
            (Some(element), Some(part_type)) => {
                let (r, n) = body_from(toks, i, ElementKind::Part, empty_body());
                (match r { Ok(_) => Ok(PartModel { name, element, part_type }), Err(e) => Err(e) }, n)
            },
            _ => (Err(invalid(ElementKind::Part)), 0),
        },
    }
}

pub open spec fn port_type_read(attrs: Seq<OwnedAttribute>, toks: Seq<XmlToken>, i: int) -> (Result<PortTypeModel, ErrorModel>, nat)
    decreases toks.len() - i, 1nat,
{
    match find_attr(attrs, "name"@) {
        None => (Err(missing("name"@, ElementKind::PortType)), 0),
        Some(name) => {
            let (r, n) = body_from(toks, i, ElementKind::PortType, empty_body());
            (match r { Ok(b) => Ok(PortTypeModel { documentation: b.documentation, name }), Err(e) => Err(e) }, n)
        },
    }
}

pub open spec fn binding_read(attrs: Seq<OwnedAttribute>, scope: Map<Seq<char>, Seq<char>>, toks: Seq<XmlToken>, i: int) -> (Result<BindingModel, ErrorModel>, nat)
    decreases toks.len() - i, 1nat,
{
    match find_attr(attrs, "type"@) {
        None => (Err(missing("type"@, ElementKind::Binding)), 0),
        Some(v) => match find_attr(attrs, "name"@) {
            None => (Err(missing("name"@, ElementKind::Binding)), 0),
            Some(name) => match resolve_ref(v, scope) {
                None => (Err(invalid(ElementKind::Binding)), 0),
                Some(port_type) => {
                    let (r, n) = body_from(toks, i, ElementKind::Binding, empty_body());
                    (match r {
                        Ok(b) => Ok(BindingModel { documentation: b.documentation, name, port_type, operations: b.operations }),
                        Err(e) => Err(e),
                    }, n)
                },
            },
        },
    }
}

pub open spec fn operation_read(attrs: Seq<OwnedAttribute>, toks: Seq<XmlToken>, i: int) -> (Result<OperationModel, ErrorModel>, nat)
    decreases toks.len() - i, 1nat,
{
    match find_attr(attrs, "name"@) {
        None => (Err(missing("name"@, ElementKind::Operation)), 0),
        Some(name) => {
            let (r, n) = body_from(toks, i, ElementKind::Operation, empty_body());
            (match r {
                Ok(b) => Ok(OperationModel { documentation: b.documentation, name, input: b.input, output: b.output, fault: b.fault }),
                Err(e) => Err(e),
            }, n)
        },
    }
}

pub open spec fn input_read(toks: Seq<XmlToken>, i: int) -> (Result<InputModel, ErrorModel>, nat)
    decreases toks.len() - i, 1nat,
{
    let (r, n) = body_from(toks, i, ElementKind::Input, empty_body());
    (match r { Ok(b) => Ok(InputModel { documentation: b.documentation, text: b.text }), Err(e) => Err(e) }, n)
}

pub open spec fn output_read(toks: Seq<XmlToken>, i: int) -> (Result<OutputModel, ErrorModel>, nat)
    decreases toks.len() - i, 1nat,
{
    let (r, n) = body_from(toks, i, ElementKind::Output, empty_body());
    (match r { Ok(b) => Ok(OutputModel { documentation: b.documentation }), Err(e) => Err(e) }, n)
}

pub open spec fn fault_read(attrs: Seq<OwnedAttribute>, toks: Seq<XmlToken>, i: int) -> (Result<FaultModel, ErrorModel>, nat)
    decreases toks.len() - i, 1nat,
{
    match find_attr(attrs, "name"@) {
        None => (Err(missing("name"@, ElementKind::Fault)), 0),
        Some(name) => {
            let (r, n) = body_from(toks, i, ElementKind::Fault, empty_body());
            (match r { Ok(b) => Ok(FaultModel { documentation: b.documentation, name }), Err(e) => Err(e) }, n)
        },
    }
}

pub open spec fn service_read(attrs: Seq<OwnedAttribute>, toks: Seq<XmlToken>, i: int) -> (Result<ServiceModel, ErrorModel>, nat)
    decreases toks.len() - i, 1nat,
{
    match find_attr(attrs, "name"@) {
        None => (Err(missing("name"@, ElementKind::Service)), 0),
        Some(name) => {
            let (r, n) = body_from(toks, i, ElementKind::Service, empty_body());
            (match r {
                Ok(b) => Ok(ServiceModel { documentation: b.documentation, name, ports: b.ports }),
                Err(e) => Err(e),
            }, n)
        },
    }
}

pub open spec fn port_read(attrs: Seq<OwnedAttribute>, scope: Map<Seq<char>, Seq<char>>, toks: Seq<XmlToken>, i: int) -> (Result<PortModel, ErrorModel>, nat)
    decreases toks.len() - i, 1nat,
{
    match find_attr(attrs, "binding"@) {
        None => (Err(missing("binding"@, ElementKind::Port)), 0),
        Some(v) => match find_attr(attrs, "name"@) {
            None => (Err(missing("name"@, ElementKind::Port)), 0),
            Some(name) => match resolve_ref(v, scope) {
                None => (Err(invalid(ElementKind::Port)), 0),
                Some(binding) => {
                    let (r, n) = body_from(toks, i, ElementKind::Port, empty_body());
                    (match r {
                        Ok(b) => Ok(PortModel { documentation: b.documentation, name, binding }),
                        Err(e) => Err(e),
                    }, n)
                },
            },
        },
    }
}

/// Reading the root element, whose start tag carried `attrs`.
pub open spec fn definitions_read(attrs: Seq<OwnedAttribute>, toks: Seq<XmlToken>, i: int) -> Result<WsdlModel, ErrorModel> {
    match body_from(toks, i, ElementKind::Definitions, empty_body()).0 {
        Ok(b) => Ok(
            WsdlModel {
                documentation: b.documentation,
                target_namespace: find_attr(attrs, "targetNamespace"@),
                types: b.types,
                port_types: b.port_types,
                services: b.services,
                bindings: b.bindings,
                messages: b.messages,
            },
        ),
        Err(e) => Err(e),
    }
}

/// Searching from position `i` for the root `definitions` start tag, and
/// reading the document from there.
pub open spec fn root_from(toks: Seq<XmlToken>, i: int) -> Result<WsdlModel, ErrorModel>
    decreases toks.len() - i,
{
    if i < 0 || i >= toks.len() {
        Err(ErrorModel::MissingElement("definitions"@))
    } else {
        match toks[i] {
            XmlToken::Start { name, attributes, .. } => if is_wsdl_tag(name.namespace, name.local_name, "definitions"@) {
                definitions_read(attributes@, toks, i + 1)
            } else {
                root_from(toks, i + 1)
            },
            XmlToken::Malformed(m) => Err(ErrorModel::Xml(m@)),
            _ => root_from(toks, i + 1),
        }
    }
}

/// The model of the document that a token stream describes.
pub open spec fn parse_tokens(toks: Seq<XmlToken>) -> Result<WsdlModel, ErrorModel> {
    root_from(toks, 0)
}

} // verus!
