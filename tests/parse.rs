use wsdl::{Wsdl, WsdlError};

fn parse(text: &str) -> Result<Wsdl, WsdlError> {
    Wsdl::parse(text.as_bytes())
}

#[test]
fn it_works() {}

#[test]
fn must_check_depth() {
    let result = Wsdl::parse(
        r#"<?xml version="1.0" encoding="utf-8"?>
<wsdl:definitions xmlns:wsdl="http://schemas.xmlsoap.org/wsdl/">
    <wsdl:service name="root1">
        <wsdl:service name="wrapped1" />
        <wsdl:service name="wrapped2" />
    </wsdl:service>
    <wsdl:service name="root2">
    </wsdl:service>
</wsdl:definitions>
"#
        .as_bytes(),
    );

    assert!(result.is_ok());

    let wsdl = result.unwrap();

    assert_eq!(2, wsdl.services.len());
    assert_eq!("root1", wsdl.services[0].name);
    assert_eq!("root2", wsdl.services[1].name);
}

#[test]
fn nested_services_are_not_top_level() {
    let wsdl = parse(
        r#"<wsdl:definitions xmlns:wsdl="http://schemas.xmlsoap.org/wsdl/">
  <wsdl:service name="only">
    <x:ext xmlns:x="urn:x">
      <wsdl:service name="inner1"/>
      <wsdl:service name="inner2"/>
    </x:ext>
  </wsdl:service>
</wsdl:definitions>"#,
    )
    .unwrap();
    assert_eq!(1, wsdl.services.len());
    assert_eq!("only", wsdl.services[0].name);
    assert!(wsdl.services[0].ports.is_empty());
}

#[test]
fn no_siblings_gives_empty_sequences() {
    let wsdl = parse(r#"<definitions xmlns="http://schemas.xmlsoap.org/wsdl/"/>"#).unwrap();
    assert!(wsdl.services.is_empty());
    assert!(wsdl.messages.is_empty());
    assert!(wsdl.bindings.is_empty());
    assert!(wsdl.port_types.is_empty());
    assert!(wsdl.types.is_empty());
    assert!(wsdl.documentation.is_none());
    assert!(wsdl.target_namespace.is_none());
}

#[test]
fn siblings_keep_document_order_and_duplicates() {
    let wsdl = parse(
        r#"<definitions xmlns="http://schemas.xmlsoap.org/wsdl/" targetNamespace="urn:t">
  <message name="b"/><message name="a"/><message name="b"/>
  <portType name="pt_a"/><portType name="pt_b"/>
</definitions>"#,
    )
    .unwrap();
    let names: Vec<&str> = wsdl.messages.iter().map(|m| m.name.as_str()).collect();
    assert_eq!(vec!["b", "a", "b"], names);
    assert_eq!(2, wsdl.port_types.len());
    assert_eq!("pt_a", wsdl.port_types[0].name);
    assert_eq!("pt_b", wsdl.port_types[1].name);
    assert_eq!(Some("urn:t".to_string()), wsdl.target_namespace);
}

#[test]
fn unknown_element_with_same_named_child_is_skipped() {
    let wsdl = parse(
        r#"<wsdl:definitions xmlns:wsdl="http://schemas.xmlsoap.org/wsdl/" xmlns:v="urn:vendor">
  <v:ext><v:ext><v:ext/></v:ext>text</v:ext>
  <wsdl:service name="after"/>
</wsdl:definitions>"#,
    )
    .unwrap();
    assert_eq!(1, wsdl.services.len());
    assert_eq!("after", wsdl.services[0].name);
}

#[test]
fn types_body_is_skipped() {
    let wsdl = parse(
        r#"<wsdl:definitions xmlns:wsdl="http://schemas.xmlsoap.org/wsdl/" xmlns:xs="http://www.w3.org/2001/XMLSchema">
  <wsdl:types><xs:schema><xs:element name="types"/><wsdl:types/></xs:schema></wsdl:types>
  <wsdl:message name="m"/>
</wsdl:definitions>"#,
    )
    .unwrap();
    assert_eq!(1, wsdl.types.len());
    assert_eq!(1, wsdl.messages.len());
}

fn mandatory(attribute: &str, element: &str) -> WsdlError {
    WsdlError::MandatoryAttribute(attribute.to_string(), element.to_string())
}

fn assert_mandatory(body: &str, attribute: &str, element: &str) {
    let text = format!(
        r#"<wsdl:definitions xmlns:wsdl="http://schemas.xmlsoap.org/wsdl/" xmlns:tns="urn:t">{}</wsdl:definitions>"#,
        body
    );
    match parse(&text) {
        Err(WsdlError::MandatoryAttribute(a, e)) => {
            assert_eq!((attribute.to_string(), element.to_string()), (a, e));
        }
        other => panic!("expected {:?}, got {:?}", mandatory(attribute, element), other),
    }
}

#[test]
fn message_without_name_fails() {
    assert_mandatory("<wsdl:message/>", "name", "wsdl:message");
}

#[test]
fn service_without_name_fails() {
    assert_mandatory(r#"<wsdl:service name="ok"/><wsdl:service/>"#, "name", "wsdl:service");
}

#[test]
fn binding_without_name_fails() {
    assert_mandatory(r#"<wsdl:binding type="tns:P"/>"#, "name", "wsdl:binding");
}

#[test]
fn binding_without_type_fails() {
    assert_mandatory(r#"<wsdl:binding name="B"/>"#, "type", "wsdl:binding");
}

#[test]
fn port_type_without_name_fails() {
    assert_mandatory("<wsdl:portType/>", "name", "wsdl:portType");
}

#[test]
fn port_without_name_fails() {
    assert_mandatory(r#"<wsdl:service name="S"><wsdl:port binding="tns:B"/></wsdl:service>"#, "name", "wsdl:port");
}

#[test]
fn port_without_binding_fails() {
    assert_mandatory(r#"<wsdl:service name="S"><wsdl:port name="P"/></wsdl:service>"#, "binding", "wsdl:port");
}

#[test]
fn deep_missing_attribute_fails_whole_document() {
    assert_mandatory(
        r#"<wsdl:binding name="B" type="tns:P"><wsdl:operation name="op"><wsdl:fault/></wsdl:operation></wsdl:binding>"#,
        "name",
        "wsdl:fault",
    );
}

#[test]
fn missing_definitions_fails() {
    match parse(r#"<root><definitions/></root>"#) {
        Err(WsdlError::MissingElement(e)) => assert_eq!("definitions", e),
        other => panic!("unexpected {:?}", other),
    }
}

#[test]
fn definitions_in_other_namespace_is_not_the_root() {
    match parse(r#"<definitions xmlns="urn:not-wsdl"><service name="s"/></definitions>"#) {
        Err(WsdlError::MissingElement(e)) => assert_eq!("definitions", e),
        other => panic!("unexpected {:?}", other),
    }
}

#[test]
fn malformed_xml_fails() {
    match parse(r#"<wsdl:definitions xmlns:wsdl="http://schemas.xmlsoap.org/wsdl/"><wsdl:service name="a"></wsdl:definitions>"#) {
        Err(WsdlError::Xml(_)) => {}
        other => panic!("unexpected {:?}", other),
    }
}

#[test]
fn references_resolve_in_scope() {
    let wsdl = parse(
        r#"<wsdl:definitions xmlns:wsdl="http://schemas.xmlsoap.org/wsdl/" xmlns:tns="urn:outer">
  <wsdl:binding name="B" type="tns:PT" xmlns:tns="urn:inner"/>
  <wsdl:service name="S">
    <wsdl:port name="first" binding="tns:B"/>
    <wsdl:port name="second" binding="B"/>
    <wsdl:port name="third" binding="nope:B"/>
  </wsdl:service>
</wsdl:definitions>"#,
    )
    .unwrap();
    let port_type = &wsdl.bindings[0].port_type;
    assert_eq!("PT", port_type.local_name);
    assert_eq!(Some("tns".to_string()), port_type.prefix);
    assert_eq!(Some("urn:inner".to_string()), port_type.namespace);
    let ports = &wsdl.services[0].ports;
    assert_eq!(3, ports.len());
    assert_eq!(Some("urn:outer".to_string()), ports[0].binding.namespace);
    assert_eq!("B", ports[0].binding.local_name);
    assert_eq!(None, ports[1].binding.namespace);
    assert_eq!(None, ports[1].binding.prefix);
    assert_eq!("B", ports[1].binding.local_name);
    assert_eq!(None, ports[2].binding.namespace);
    assert_eq!(Some("nope".to_string()), ports[2].binding.prefix);
}

#[test]
fn malformed_reference_is_invalid_element() {
    match parse(
        r#"<wsdl:definitions xmlns:wsdl="http://schemas.xmlsoap.org/wsdl/"><wsdl:binding name="B" type="a:b:c"/></wsdl:definitions>"#,
    ) {
        Err(WsdlError::InvalidElement(e)) => assert_eq!("wsdl:binding", e),
        other => panic!("unexpected {:?}", other),
    }
}

#[test]
fn documentation_text_is_captured() {
    let wsdl = parse(
        r#"<wsdl:definitions xmlns:wsdl="http://schemas.xmlsoap.org/wsdl/">
<wsdl:documentation>Hello <b>bold</b> world</wsdl:documentation>
<wsdl:service name="S"><wsdl:documentation>svc</wsdl:documentation></wsdl:service>
</wsdl:definitions>"#,
    )
    .unwrap();
    assert_eq!("Hello bold world", wsdl.documentation.unwrap().text);
    assert_eq!("svc", wsdl.services[0].documentation.as_ref().unwrap().text);
}

#[test]
fn message_parts_carry_references() {
    let wsdl = parse(
        r#"<wsdl:definitions xmlns:wsdl="http://schemas.xmlsoap.org/wsdl/" xmlns:xs="http://www.w3.org/2001/XMLSchema">
  <wsdl:message name="M">
    <wsdl:part name="a" type="xs:string"/>
    <wsdl:part name="b" element="El"/>
  </wsdl:message>
</wsdl:definitions>"#,
    )
    .unwrap();
    let parts = &wsdl.messages[0].parts;
    assert_eq!(2, parts.len());
    assert_eq!("a", parts[0].name);
    let t = parts[0].part_type.as_ref().unwrap();
    assert_eq!("string", t.local_name);
    assert_eq!(Some("http://www.w3.org/2001/XMLSchema".to_string()), t.namespace);
    assert!(parts[0].element.is_none());
    let e = parts[1].element.as_ref().unwrap();
    assert_eq!("El", e.local_name);
    assert!(parts[1].part_type.is_none());
}

#[test]
fn binding_operations_are_read() {
    let wsdl = parse(
        r#"<wsdl:definitions xmlns:wsdl="http://schemas.xmlsoap.org/wsdl/" xmlns:soap="http://schemas.xmlsoap.org/wsdl/soap/">
  <wsdl:binding name="B" type="P">
    <soap:binding style="document"/>
    <wsdl:operation name="op1">
      <wsdl:input>in<soap:body use="literal"/></wsdl:input>
      <wsdl:output/>
      <wsdl:fault name="f"/>
    </wsdl:operation>
    <wsdl:operation name="op2"/>
  </wsdl:binding>
</wsdl:definitions>"#,
    )
    .unwrap();
    let ops = &wsdl.bindings[0].operations;
    assert_eq!(2, ops.len());
    assert_eq!("op1", ops[0].name);
    assert_eq!("in", ops[0].input.as_ref().unwrap().text);
    assert!(ops[0].output.is_some());
    assert_eq!("f", ops[0].fault.as_ref().unwrap().name);
    assert_eq!("op2", ops[1].name);
    assert!(ops[1].input.is_none() && ops[1].output.is_none() && ops[1].fault.is_none());
}

#[test]
fn binding_without_type_or_name_names_type() {
    assert_mandatory("<wsdl:binding/>", "type", "wsdl:binding");
}

#[test]
fn port_without_binding_or_name_names_binding() {
    assert_mandatory(r#"<wsdl:service name="S"><wsdl:port/></wsdl:service>"#, "binding", "wsdl:port");
}

#[test]
fn types_content_is_discarded() {
    let wsdl = parse(
        r#"<wsdl:definitions xmlns:wsdl="http://schemas.xmlsoap.org/wsdl/">
  <wsdl:types><wsdl:documentation>x</wsdl:documentation></wsdl:types>
</wsdl:definitions>"#,
    )
    .unwrap();
    assert_eq!(1, wsdl.types.len());
    assert!(wsdl.types[0].documentation.is_none());
}

#[test]
fn documentation_keeps_cdata_and_whitespace() {
    let wsdl = parse(
        r#"<wsdl:definitions xmlns:wsdl="http://schemas.xmlsoap.org/wsdl/">
<wsdl:documentation><b>x</b> <i>y</i><![CDATA[<z>]]></wsdl:documentation>
</wsdl:definitions>"#,
    )
    .unwrap();
    assert_eq!("x y<z>", wsdl.documentation.unwrap().text);
}
