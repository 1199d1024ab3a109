//! The document scanner: one forward pass over the tokens, with a reader for
//! each recognized element and a depth-tracked skip for everything else.
use vstd::prelude::*;
use crate::error::{WsdlError, rview};
use crate::names::{find_attribute, resolve_reference, same_text};
use crate::schema::{
    Wsdl, WsdlBinding, WsdlDocumentation, WsdlFaultBinding, WsdlInputBinding, WsdlMessage,
    WsdlMessagePart, WsdlOperationBinding, WsdlOutputBinding, WsdlPort, WsdlPortType, WsdlService,
    WsdlTypes, QualifiedName, doc_view, qname_view,
};
use crate::spec::{
    BodyModel, ChildModel, ElementKind, WSDL_NAMESPACE, add_child, allowed_child, binding_read,
    body_from, definitions_read, element, empty_body, fault_read, in_wsdl, input_read, invalid,
    is_wsdl_tag, kind_named, label_of, message_read, missing, operation_read, optional_ref,
    output_read, parse_tokens, part_read, port_read, port_type_read, prepend, recognized, root_from,
    service_read, subtree, tag_of, token_text, types_read,
};
use crate::xml_source::{XmlToken, namespace_bindings, tokenize, xml_tokens};
use xml::attribute::OwnedAttribute;
use xml::namespace::Namespace;

verus! {

fn tag(k: ElementKind) -> (r: &'static str)
    ensures
        r@ == tag_of(k),
{
    match k {
        ElementKind::Definitions => "definitions",
        ElementKind::Documentation => "documentation",
        ElementKind::Types => "types",
        ElementKind::Message => "message",
        ElementKind::Part => "part",
        ElementKind::PortType => "portType",
        ElementKind::Binding => "binding",
        ElementKind::Operation => "operation",
        ElementKind::Input => "input",
        ElementKind::Output => "output",
        ElementKind::Fault => "fault",
        ElementKind::Service => "service",
        ElementKind::Port => "port",
    }
}

fn label(k: ElementKind) -> (r: String)
    ensures
        r@ == label_of(k),
{
    let s: &str = match k {
        ElementKind::Definitions => "wsdl:definitions",
        ElementKind::Documentation => "wsdl:documentation",
        ElementKind::Types => "wsdl:types",
        ElementKind::Message => "wsdl:message",
        ElementKind::Part => "wsdl:part",
        ElementKind::PortType => "wsdl:portType",
        ElementKind::Binding => "wsdl:binding",
        ElementKind::Operation => "wsdl:operation",
        ElementKind::Input => "wsdl:input",
        ElementKind::Output => "wsdl:output",
        ElementKind::Fault => "wsdl:fault",
        ElementKind::Service => "wsdl:service",
        ElementKind::Port => "wsdl:port",
    };
    s.to_owned()
}

fn missing_attribute(attribute: &str, k: ElementKind) -> (e: WsdlError)
    ensures
        e@ == missing(attribute@, k),
{
    WsdlError::MandatoryAttribute(attribute.to_owned(), label(k))
}

fn invalid_element(k: ElementKind) -> (e: WsdlError)
    ensures
        e@ == invalid(k),
{
    WsdlError::InvalidElement(label(k))
}

fn kind_of(local: &String) -> (r: Option<ElementKind>)
    ensures
        r == kind_named(local@),
{
    if same_text(local, "definitions") {
        Some(ElementKind::Definitions)
    } else if same_text(local, "documentation") {
        Some(ElementKind::Documentation)
    } else if same_text(local, "types") {
        Some(ElementKind::Types)
    } else if same_text(local, "message") {
        Some(ElementKind::Message)
    } else if same_text(local, "part") {
        Some(ElementKind::Part)
    } else if same_text(local, "portType") {
        Some(ElementKind::PortType)
    } else if same_text(local, "binding") {
        Some(ElementKind::Binding)
    } else if same_text(local, "operation") {
        Some(ElementKind::Operation)
    } else if same_text(local, "input") {
        Some(ElementKind::Input)
    } else if same_text(local, "output") {
        Some(ElementKind::Output)
    } else if same_text(local, "fault") {
        Some(ElementKind::Fault)
    } else if same_text(local, "service") {
        Some(ElementKind::Service)
    } else if same_text(local, "port") {
        Some(ElementKind::Port)
    } else {
        None
    }
}

fn allows(parent: ElementKind, child: ElementKind) -> (r: bool)
    ensures
        r == allowed_child(parent, child),
{
    match parent {
        ElementKind::Definitions => child == ElementKind::Documentation || child == ElementKind::Types
            || child == ElementKind::Message || child == ElementKind::PortType || child
            == ElementKind::Binding || child == ElementKind::Service,
        ElementKind::Message => child == ElementKind::Documentation || child == ElementKind::Part,
        ElementKind::Binding => child == ElementKind::Documentation || child == ElementKind::Operation,
        ElementKind::Operation => child == ElementKind::Documentation || child == ElementKind::Input
            || child == ElementKind::Output || child == ElementKind::Fault,
        ElementKind::Service => child == ElementKind::Documentation || child == ElementKind::Port,
        ElementKind::Types | ElementKind::Part | ElementKind::Documentation => false,
        _ => child == ElementKind::Documentation,
    }
}

fn in_wsdl_namespace(namespace: &Option<String>) -> (r: bool)
    ensures
        r == in_wsdl(*namespace),
{
    match namespace {
        Some(uri) => same_text(uri, WSDL_NAMESPACE),
        None => false,
    }
}

fn is_wsdl_element(namespace: &Option<String>, local_name: &String, t: &str) -> (r: bool)
    ensures
        r == is_wsdl_tag(*namespace, *local_name, t@),
{
    in_wsdl_namespace(namespace) && same_text(local_name, t)
}

fn recognize(parent: ElementKind, namespace: &Option<String>, local_name: &String) -> (r: Option<ElementKind>)
    ensures
        r == recognized(parent, *namespace, *local_name),
{
    if in_wsdl_namespace(namespace) {
        match kind_of(local_name) {
            Some(k) => if allows(parent, k) {
                Some(k)
            } else {
                None
            },
            None => None,
        }
    } else {
        None
    }
}

/// Appends the character data that a token carries.
fn append_text(text: &mut String, t: &XmlToken)
    ensures
        final(text)@ == old(text)@ + token_text(*t),
{
    match t {
        XmlToken::Text(s) => text.append(s.as_str()),
        XmlToken::CData(s) => text.append(s.as_str()),
        XmlToken::Whitespace(s) => text.append(s.as_str()),
        _ => assert(old(text)@ + token_text(*t) =~= old(text)@),
    }
}

/// Reads from `*pos`, just after a start tag, up to the end tag that
/// balances it, tracking depth; returns all character data on the way.
fn read_subtree(toks: &Vec<XmlToken>, pos: &mut usize, owner: ElementKind) -> (r: Result<String, WsdlError>)
    requires
        0 < *old(pos) <= toks@.len(),
    ensures
        *old(pos) <= *final(pos) <= toks@.len(),
        ({
            let (m, n) = subtree(toks@, *old(pos) as int, 1, owner);
            rview(r) == m && *final(pos) == *old(pos) + n
        }),
{
    let start = *pos;
    let mut depth: usize = 1;
    let mut text = String::new();
    loop
        invariant
            0 < start <= *pos <= toks@.len(),
            start == *old(pos),
            1 <= depth <= *pos - start + 1,
            subtree(toks@, start as int, 1, owner) == ({
                let (r, n) = subtree(toks@, *pos as int, depth as nat, owner);
                (prepend(text@, r), (n + (*pos - start)) as nat)
            }),
        decreases toks@.len() - *pos,
    {
        if *pos >= toks.len() {
            return Err(invalid_element(owner));
        }
        let i = *pos;
        match &toks[i] {
            XmlToken::Start { .. } => {
                depth = depth + 1;
                *pos = i + 1;
            },
            XmlToken::End { .. } => {
                *pos = i + 1;
                if depth <= 1 {
                    assert(text@ + Seq::<char>::empty() =~= text@);
                    return Ok(text);
                }
                depth = depth - 1;
            },
            XmlToken::Malformed(m) => {
                *pos = i + 1;
                return Err(WsdlError::Xml(m.clone()));
            },
            t => {
                let ghost before = text@;
                append_text(&mut text, t);
                *pos = i + 1;
                proof {
                    let (r, n) = subtree(toks@, *pos as int, depth as nat, owner);
                    match r {
                        Ok(s) => {
                            assert(before + (token_text(*t) + s) =~= text@ + s);
                        },
                        Err(_) => {},
                    }
                }
            },
        }
    }
}

/// One child that an element reads itself.
pub enum Child {
    Documentation(WsdlDocumentation),
    Types(WsdlTypes),
    Message(WsdlMessage),
    Part(WsdlMessagePart),
    PortType(WsdlPortType),
    Binding(WsdlBinding),
    Operation(WsdlOperationBinding),
    Input(WsdlInputBinding),
    Output(WsdlOutputBinding),
    Fault(WsdlFaultBinding),
    Service(WsdlService),
    Port(WsdlPort),
}

impl View for Child {
    type V = ChildModel;

    open spec fn view(&self) -> ChildModel {
        match self {
            Child::Documentation(d) => ChildModel::Documentation(d.text@),
            Child::Types(x) => ChildModel::Types(x@),
            Child::Message(x) => ChildModel::Message(x@),
            Child::Part(x) => ChildModel::Part(x@),
            Child::PortType(x) => ChildModel::PortType(x@),
            Child::Binding(x) => ChildModel::Binding(x@),
            Child::Operation(x) => ChildModel::Operation(x@),
            Child::Input(x) => ChildModel::Input(x@),
            Child::Output(x) => ChildModel::Output(x@),
            Child::Fault(x) => ChildModel::Fault(x@),
            Child::Service(x) => ChildModel::Service(x@),
            Child::Port(x) => ChildModel::Port(x@),
        }
    }
}

/// What has been read of an element's body so far.
pub struct Body {
    pub documentation: Option<WsdlDocumentation>,
    pub text: String,
    pub types: Vec<WsdlTypes>,
    pub messages: Vec<WsdlMessage>,
    pub parts: Vec<WsdlMessagePart>,
    pub port_types: Vec<WsdlPortType>,
    pub bindings: Vec<WsdlBinding>,
    pub operations: Vec<WsdlOperationBinding>,
    pub input: Option<WsdlInputBinding>,
    pub output: Option<WsdlOutputBinding>,
    pub fault: Option<WsdlFaultBinding>,
    pub services: Vec<WsdlService>,
    pub ports: Vec<WsdlPort>,
}

impl View for Body {
    type V = BodyModel;

    open spec fn view(&self) -> BodyModel {
        BodyModel {
            documentation: doc_view(self.documentation),
            text: self.text@,
            types: self.types@.map_values(|t: WsdlTypes| t@),
            messages: self.messages@.map_values(|m: WsdlMessage| m@),
            parts: self.parts@.map_values(|p: WsdlMessagePart| p@),
            port_types: self.port_types@.map_values(|t: WsdlPortType| t@),
            bindings: self.bindings@.map_values(|b: WsdlBinding| b@),
            operations: self.operations@.map_values(|o: WsdlOperationBinding| o@),
            input: match self.input {
                Some(i) => Some(i@),
                None => None,
            },
            output: match self.output {
                Some(o) => Some(o@),
                None => None,
            },
            fault: match self.fault {
                Some(f) => Some(f@),
                None => None,
            },
            services: self.services@.map_values(|s: WsdlService| s@),
            ports: self.ports@.map_values(|p: WsdlPort| p@),
        }
    }
}

impl Body {
    fn new() -> (b: Body)
        ensures
            b@ == empty_body(),
    {
        let b = Body {
            documentation: None,
            text: String::new(),
            types: Vec::new(),
            messages: Vec::new(),
            parts: Vec::new(),
            port_types: Vec::new(),
            bindings: Vec::new(),
            operations: Vec::new(),
            input: None,
            output: None,
            fault: None,
            services: Vec::new(),
            ports: Vec::new(),
        };
        assert(b@.types =~= empty_body().types);
        assert(b@.messages =~= empty_body().messages);
        assert(b@.parts =~= empty_body().parts);
        assert(b@.port_types =~= empty_body().port_types);
        assert(b@.bindings =~= empty_body().bindings);
        assert(b@.operations =~= empty_body().operations);
        assert(b@.services =~= empty_body().services);
        assert(b@.ports =~= empty_body().ports);
        b
    }

    fn add(&mut self, c: Child)
        ensures
            final(self)@ == add_child(old(self)@, c@),
    {
        let ghost before = self@;
        match c {
            Child::Documentation(d) => {
                self.documentation = Some(d);
            },
            Child::Types(x) => {
                let ghost v = x@;
                self.types.push(x);
                assert(self@.types =~= before.types.push(v));
            },
            Child::Message(x) => {
                let ghost v = x@;
                self.messages.push(x);
                assert(self@.messages =~= before.messages.push(v));
            },
            Child::Part(x) => {
                let ghost v = x@;
                self.parts.push(x);
                assert(self@.parts =~= before.parts.push(v));
            },
            Child::PortType(x) => {
                let ghost v = x@;
                self.port_types.push(x);
                assert(self@.port_types =~= before.port_types.push(v));
            },
            Child::Binding(x) => {
                let ghost v = x@;
                self.bindings.push(x);
                assert(self@.bindings =~= before.bindings.push(v));
            },
            Child::Operation(x) => {
                let ghost v = x@;
                self.operations.push(x);
                assert(self@.operations =~= before.operations.push(v));
            },
            Child::Input(x) => {
                self.input = Some(x);
            },
            Child::Output(x) => {
                self.output = Some(x);
            },
            Child::Fault(x) => {
                self.fault = Some(x);
            },
            Child::Service(x) => {
                let ghost v = x@;
                self.services.push(x);
                assert(self@.services =~= before.services.push(v));
            },
            Child::Port(x) => {
                let ghost v = x@;
                self.ports.push(x);
                assert(self@.ports =~= before.ports.push(v));
            },
        }
    }
}

/// Reads the body of an element of kind `kind` from `*pos`, just after its
/// start tag, up to its own end tag. Recognized children go to their
/// readers; any other element is skipped whole.
fn read_body(toks: &Vec<XmlToken>, pos: &mut usize, kind: ElementKind) -> (r: Result<Body, WsdlError>)
    requires
        0 < *old(pos) <= toks@.len(),
    ensures
        *old(pos) <= *final(pos) <= toks@.len(),
        ({
            let (m, n) = body_from(toks@, *old(pos) as int, kind, empty_body());
            rview(r) == m && *final(pos) == *old(pos) + n
        }),
    decreases toks@.len() - *old(pos), 0nat,
{
    let start = *pos;
    let mut acc = Body::new();
    loop
        invariant
            0 < start <= *pos <= toks@.len(),
            start == *old(pos),
            body_from(toks@, start as int, kind, empty_body()) == ({
                let (r, n) = body_from(toks@, *pos as int, kind, acc@);
                (r, (n + (*pos - start)) as nat)
            }),
        decreases toks@.len() - *pos,
    {
        if *pos >= toks.len() {
            return Err(invalid_element(kind));
        }
        let i = *pos;
        match &toks[i] {
            XmlToken::Start { name, attributes, namespace } => {
                *pos = i + 1;
                match recognize(kind, &name.namespace, &name.local_name) {
                    Some(child) => match read_element(child, attributes, namespace, toks, pos) {
                        Ok(c) => {
                            acc.add(c);
                        },
                        Err(e) => {
                            return Err(e);
                        },
                    },
                    None => match read_subtree(toks, pos, kind) {
                        Ok(_) => {},
                        Err(e) => {
                            return Err(e);
                        },
                    },
                }
            },
            XmlToken::End { name } => {
                *pos = i + 1;
                if is_wsdl_element(&name.namespace, &name.local_name, tag(kind)) {
                    return Ok(acc);
                } else {
                    return Err(invalid_element(kind));
                }
            },
            XmlToken::Malformed(m) => {
                *pos = i + 1;
                return Err(WsdlError::Xml(m.clone()));
            },
            t => {
                append_text(&mut acc.text, t);
                *pos = i + 1;
            },
        }
    }
}

/// Reads a recognized child whose start tag (with `attributes`, in `scope`)
/// was just read.
fn read_element(
    kind: ElementKind,
    attributes: &Vec<OwnedAttribute>,
    scope: &Namespace,
    toks: &Vec<XmlToken>,
    pos: &mut usize,
) -> (r: Result<Child, WsdlError>)
    requires
        0 < *old(pos) <= toks@.len(),
    ensures
        *old(pos) <= *final(pos) <= toks@.len(),
        ({
            let (m, n) = element(kind, attributes@, namespace_bindings(*scope), toks@, *old(pos) as int);
            rview(r) == m && *final(pos) == *old(pos) + n
        }),
    decreases toks@.len() - *old(pos), 2nat,
{
    match kind {
        ElementKind::Documentation => match read_subtree(toks, pos, ElementKind::Documentation) {
            Ok(text) => Ok(Child::Documentation(WsdlDocumentation { text })),
            Err(e) => Err(e),
        },
        ElementKind::Types => match WsdlTypes::read(toks, pos) {
            Ok(x) => Ok(Child::Types(x)),
            Err(e) => Err(e),
        },
        ElementKind::Message => match WsdlMessage::read(attributes, toks, pos) {
            Ok(x) => Ok(Child::Message(x)),
            Err(e) => Err(e),
        },
        ElementKind::Part => match WsdlMessagePart::read(attributes, scope, toks, pos) {
            Ok(x) => Ok(Child::Part(x)),
            Err(e) => Err(e),
        },
        ElementKind::PortType => match WsdlPortType::read(attributes, toks, pos) {
            Ok(x) => Ok(Child::PortType(x)),
            Err(e) => Err(e),
        },
        ElementKind::Binding => match WsdlBinding::read(attributes, scope, toks, pos) {
            Ok(x) => Ok(Child::Binding(x)),
            Err(e) => Err(e),
        },
        ElementKind::Operation => match WsdlOperationBinding::read(attributes, toks, pos) {
            Ok(x) => Ok(Child::Operation(x)),
            Err(e) => Err(e),
        },
        ElementKind::Input => match WsdlInputBinding::read(toks, pos) {
            Ok(x) => Ok(Child::Input(x)),
            Err(e) => Err(e),
        },
        ElementKind::Output => match WsdlOutputBinding::read(toks, pos) {
            Ok(x) => Ok(Child::Output(x)),
            Err(e) => Err(e),
        },
        ElementKind::Fault => match WsdlFaultBinding::read(attributes, toks, pos) {
            Ok(x) => Ok(Child::Fault(x)),
            Err(e) => Err(e),
        },
        ElementKind::Service => match WsdlService::read(attributes, toks, pos) {
            Ok(x) => Ok(Child::Service(x)),
            Err(e) => Err(e),
        },
        ElementKind::Port => match WsdlPort::read(attributes, scope, toks, pos) {
            Ok(x) => Ok(Child::Port(x)),
            Err(e) => Err(e),
        },
        ElementKind::Definitions => Err(invalid_element(ElementKind::Definitions)),
    }
}

impl WsdlTypes {
    fn read(toks: &Vec<XmlToken>, pos: &mut usize) -> (r: Result<WsdlTypes, WsdlError>)
        requires
            0 < *old(pos) <= toks@.len(),
        ensures
            *old(pos) <= *final(pos) <= toks@.len(),
            ({
                let (m, n) = types_read(toks@, *old(pos) as int);
                rview(r) == m && *final(pos) == *old(pos) + n
            }),
        decreases toks@.len() - *old(pos), 1nat,
    {
        match read_body(toks, pos, ElementKind::Types) {
            Ok(body) => Ok(WsdlTypes { documentation: body.documentation }),
            Err(e) => Err(e),
        }
    }
}

impl WsdlMessage {
    fn read(attributes: &Vec<OwnedAttribute>, toks: &Vec<XmlToken>, pos: &mut usize) -> (r: Result<WsdlMessage, WsdlError>)
        requires
            0 < *old(pos) <= toks@.len(),
        ensures
            *old(pos) <= *final(pos) <= toks@.len(),
            ({
                let (m, n) = message_read(attributes@, toks@, *old(pos) as int);
                rview(r) == m && *final(pos) == *old(pos) + n
            }),
        decreases toks@.len() - *old(pos), 1nat,
    {
        let name = match find_attribute(attributes, "name") {
            Some(name) => name,
            None => {
                return Err(missing_attribute("name", ElementKind::Message));
            },
        };
        match read_body(toks, pos, ElementKind::Message) {
            Ok(body) => Ok(WsdlMessage { documentation: body.documentation, name, parts: body.parts }),
            Err(e) => Err(e),
        }
    }
}

/// An optional reference attribute, read in `scope`: `None` when it is
/// present but not a qualified name.
fn optional_reference(attributes: &Vec<OwnedAttribute>, scope: &Namespace, attr: &str) -> (r: Option<Option<QualifiedName>>)
    ensures
        optional_ref(attributes@, namespace_bindings(*scope), attr@) == match r {
            None => None,
            Some(q) => Some(qname_view(q)),
        },
{
    match find_attribute(attributes, attr) {
        None => Some(None),
        Some(value) => match resolve_reference(&value, scope) {
            None => None,
            Some(q) => Some(Some(q)),
        },
    }
}

impl WsdlMessagePart {
    fn read(attributes: &Vec<OwnedAttribute>, scope: &Namespace, toks: &Vec<XmlToken>, pos: &mut usize) -> (r: Result<WsdlMessagePart, WsdlError>)
        requires
            0 < *old(pos) <= toks@.len(),
        ensures
            *old(pos) <= *final(pos) <= toks@.len(),
            ({
                let (m, n) = part_read(attributes@, namespace_bindings(*scope), toks@, *old(pos) as int);
                rview(r) == m && *final(pos) == *old(pos) + n
            }),
        decreases toks@.len() - *old(pos), 1nat,
    {
        let name = match find_attribute(attributes, "name") {
            Some(name) => name,
            None => {
                return Err(missing_attribute("name", ElementKind::Part));
            },
        };
        let element = optional_reference(attributes, scope, "element");
        let part_type = optional_reference(attributes, scope, "type");
        match (element, part_type) {
            (Some(element), Some(part_type)) => match read_body(toks, pos, ElementKind::Part) {
                Ok(_) => Ok(WsdlMessagePart { name, element, part_type }),
                Err(e) => Err(e),
            },
            _ => Err(invalid_element(ElementKind::Part)),
        }
    }
}

impl WsdlPortType {
    fn read(attributes: &Vec<OwnedAttribute>, toks: &Vec<XmlToken>, pos: &mut usize) -> (r: Result<WsdlPortType, WsdlError>)
        requires
            0 < *old(pos) <= toks@.len(),
        ensures
            *old(pos) <= *final(pos) <= toks@.len(),
            ({
                let (m, n) = port_type_read(attributes@, toks@, *old(pos) as int);
                rview(r) == m && *final(pos) == *old(pos) + n
            }),
        decreases toks@.len() - *old(pos), 1nat,
    {
        let name = match find_attribute(attributes, "name") {
            Some(name) => name,
            None => {
                return Err(missing_attribute("name", ElementKind::PortType));
            },
        };
        match read_body(toks, pos, ElementKind::PortType) {
            Ok(body) => Ok(WsdlPortType { documentation: body.documentation, name }),
            Err(e) => Err(e),
        }
    }
}

impl WsdlBinding {
    fn read(attributes: &Vec<OwnedAttribute>, scope: &Namespace, toks: &Vec<XmlToken>, pos: &mut usize) -> (r: Result<WsdlBinding, WsdlError>)
        requires
            0 < *old(pos) <= toks@.len(),
        ensures
            *old(pos) <= *final(pos) <= toks@.len(),
            ({
                let (m, n) = binding_read(attributes@, namespace_bindings(*scope), toks@, *old(pos) as int);
                rview(r) == m && *final(pos) == *old(pos) + n
            }),
        decreases toks@.len() - *old(pos), 1nat,
    {
        let value = match find_attribute(attributes, "type") {
            Some(value) => value,
            None => {
                return Err(missing_attribute("type", ElementKind::Binding));
            },
        };
        let name = match find_attribute(attributes, "name") {
            Some(name) => name,
            None => {
                return Err(missing_attribute("name", ElementKind::Binding));
            },
        };
        let port_type = match resolve_reference(&value, scope) {
            Some(q) => q,
            None => {
                return Err(invalid_element(ElementKind::Binding));
            },
        };
        match read_body(toks, pos, ElementKind::Binding) {
            Ok(body) => Ok(WsdlBinding { documentation: body.documentation, name, port_type, operations: body.operations }),
            Err(e) => Err(e),
        }
    }
}

impl WsdlOperationBinding {
    fn read(attributes: &Vec<OwnedAttribute>, toks: &Vec<XmlToken>, pos: &mut usize) -> (r: Result<WsdlOperationBinding, WsdlError>)
        requires
            0 < *old(pos) <= toks@.len(),
        ensures
            *old(pos) <= *final(pos) <= toks@.len(),
            ({
                let (m, n) = operation_read(attributes@, toks@, *old(pos) as int);
                rview(r) == m && *final(pos) == *old(pos) + n
            }),
        decreases toks@.len() - *old(pos), 1nat,
    {
        let name = match find_attribute(attributes, "name") {
            Some(name) => name,
            None => {
                return Err(missing_attribute("name", ElementKind::Operation));
            },
        };
        match read_body(toks, pos, ElementKind::Operation) {
            Ok(body) => Ok(WsdlOperationBinding {
                documentation: body.documentation,
                name,
                input: body.input,
                output: body.output,
                fault: body.fault,
            }),
            Err(e) => Err(e),
        }
    }
}

impl WsdlInputBinding {
    fn read(toks: &Vec<XmlToken>, pos: &mut usize) -> (r: Result<WsdlInputBinding, WsdlError>)
        requires
            0 < *old(pos) <= toks@.len(),
        ensures
            *old(pos) <= *final(pos) <= toks@.len(),
            ({
                let (m, n) = input_read(toks@, *old(pos) as int);
                rview(r) == m && *final(pos) == *old(pos) + n
            }),
        decreases toks@.len() - *old(pos), 1nat,
    {
        match read_body(toks, pos, ElementKind::Input) {
            Ok(body) => Ok(WsdlInputBinding { documentation: body.documentation, text: body.text }),
            Err(e) => Err(e),
        }
    }
}

impl WsdlOutputBinding {
    fn read(toks: &Vec<XmlToken>, pos: &mut usize) -> (r: Result<WsdlOutputBinding, WsdlError>)
        requires
            0 < *old(pos) <= toks@.len(),
        ensures
            *old(pos) <= *final(pos) <= toks@.len(),
            ({
                let (m, n) = output_read(toks@, *old(pos) as int);
                rview(r) == m && *final(pos) == *old(pos) + n
            }),
        decreases toks@.len() - *old(pos), 1nat,
    {
        match read_body(toks, pos, ElementKind::Output) {
            Ok(body) => Ok(WsdlOutputBinding { documentation: body.documentation }),
            Err(e) => Err(e),
        }
    }
}

impl WsdlFaultBinding {
    fn read(attributes: &Vec<OwnedAttribute>, toks: &Vec<XmlToken>, pos: &mut usize) -> (r: Result<WsdlFaultBinding, WsdlError>)
        requires
            0 < *old(pos) <= toks@.len(),
        ensures
            *old(pos) <= *final(pos) <= toks@.len(),
            ({
                let (m, n) = fault_read(attributes@, toks@, *old(pos) as int);
                rview(r) == m && *final(pos) == *old(pos) + n
            }),
        decreases toks@.len() - *old(pos), 1nat,
    {
        let name = match find_attribute(attributes, "name") {
            Some(name) => name,
            None => {
                return Err(missing_attribute("name", ElementKind::Fault));
            },
        };
        match read_body(toks, pos, ElementKind::Fault) {
            Ok(body) => Ok(WsdlFaultBinding { documentation: body.documentation, name }),
            Err(e) => Err(e),
        }
    }
}

impl WsdlService {
    fn read(attributes: &Vec<OwnedAttribute>, toks: &Vec<XmlToken>, pos: &mut usize) -> (r: Result<WsdlService, WsdlError>)
        requires
            0 < *old(pos) <= toks@.len(),
        ensures
            *old(pos) <= *final(pos) <= toks@.len(),
            ({
                let (m, n) = service_read(attributes@, toks@, *old(pos) as int);
                rview(r) == m && *final(pos) == *old(pos) + n
            }),
        decreases toks@.len() - *old(pos), 1nat,
    {
        let name = match find_attribute(attributes, "name") {
            Some(name) => name,
            None => {
                return Err(missing_attribute("name", ElementKind::Service));
            },
        };
        match read_body(toks, pos, ElementKind::Service) {
            Ok(body) => Ok(WsdlService { documentation: body.documentation, name, ports: body.ports }),
            Err(e) => Err(e),
        }
    }
}

impl WsdlPort {
    fn read(attributes: &Vec<OwnedAttribute>, scope: &Namespace, toks: &Vec<XmlToken>, pos: &mut usize) -> (r: Result<WsdlPort, WsdlError>)
        requires
            0 < *old(pos) <= toks@.len(),
        ensures
            *old(pos) <= *final(pos) <= toks@.len(),
            ({
                let (m, n) = port_read(attributes@, namespace_bindings(*scope), toks@, *old(pos) as int);
                rview(r) == m && *final(pos) == *old(pos) + n
            }),
        decreases toks@.len() - *old(pos), 1nat,
    {
        let value = match find_attribute(attributes, "binding") {
            Some(value) => value,
            None => {
                return Err(missing_attribute("binding", ElementKind::Port));
            },
        };
        let name = match find_attribute(attributes, "name") {
            Some(name) => name,
            None => {
                return Err(missing_attribute("name", ElementKind::Port));
            },
        };
        let binding = match resolve_reference(&value, scope) {
            Some(q) => q,
            None => {
                return Err(invalid_element(ElementKind::Port));
            },
        };
        match read_body(toks, pos, ElementKind::Port) {
            Ok(body) => Ok(WsdlPort { documentation: body.documentation, name, binding }),
            Err(e) => Err(e),
        }
    }
}

impl Wsdl {
    /// Reads the root element, whose start tag carried `attributes`.
    fn read(attributes: &Vec<OwnedAttribute>, toks: &Vec<XmlToken>, pos: &mut usize) -> (r: Result<Wsdl, WsdlError>)
        requires
            0 < *old(pos) <= toks@.len(),
        ensures
            rview(r) == definitions_read(attributes@, toks@, *old(pos) as int),
    {
        let target_namespace = find_attribute(attributes, "targetNamespace");
        match read_body(toks, pos, ElementKind::Definitions) {
            Ok(body) => Ok(Wsdl {
                documentation: body.documentation,
                target_namespace,
                types: body.types,
                port_types: body.port_types,
                services: body.services,
                bindings: body.bindings,
                messages: body.messages,
            }),
            Err(e) => Err(e),
        }
    }

    /// Builds the model of a document from its XML tokens: the first
    /// `definitions` start tag of the WSDL namespace is the root.
    pub fn from_tokens(tokens: &Vec<XmlToken>) -> (r: Result<Wsdl, WsdlError>)
        ensures
            rview(r) == parse_tokens(tokens@),
    {
        let mut i: usize = 0;
        while i < tokens.len()
            invariant
                i <= tokens@.len(),
                root_from(tokens@, 0) == root_from(tokens@, i as int),
            decreases tokens@.len() - i,
        {
            match &tokens[i] {
                XmlToken::Start { name, attributes, .. } => {
                    if is_wsdl_element(&name.namespace, &name.local_name, "definitions") {
                        let mut pos = i + 1;
                        return Wsdl::read(attributes, tokens, &mut pos);
                    }
                },
                XmlToken::Malformed(m) => {
                    return Err(WsdlError::Xml(m.clone()));
                },
                _ => {},
            }
            i = i + 1;
        }
        Err(WsdlError::MissingElement("definitions".to_owned()))
    }

    /// Parses a WSDL document held as UTF-8 bytes.
    pub fn parse(contents: &[u8]) -> (r: Result<Wsdl, WsdlError>)
        ensures
            rview(r) == parse_tokens(xml_tokens(contents@)),
    {
        let tokens = tokenize(contents);
        Wsdl::from_tokens(&tokens)
    }
}

} // verus!
