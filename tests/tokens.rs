use wsdl::decode::decode_contents;
use wsdl::names::resolve_reference;
use wsdl::xml_source::tokenize;
use wsdl::{Request, SoapRequest, SoapResponse, Wsdl, WsdlError, XmlToken};
use xml::attribute::OwnedAttribute;
use xml::name::OwnedName;
use xml::namespace::Namespace;

const NS: &str = "http://schemas.xmlsoap.org/wsdl/";

fn wsdl_name(local: &str) -> OwnedName {
    OwnedName { local_name: local.to_string(), namespace: Some(NS.to_string()), prefix: None }
}

fn start(local: &str, attributes: Vec<OwnedAttribute>) -> XmlToken {
    XmlToken::Start { name: wsdl_name(local), attributes, namespace: Namespace::empty() }
}

fn end(local: &str) -> XmlToken {
    XmlToken::End { name: wsdl_name(local) }
}

fn name(value: &str) -> OwnedAttribute {
    OwnedAttribute::new(OwnedName::local("name"), value)
}

#[test]
fn stream_ending_inside_element_is_invalid() {
    let tokens = vec![start("definitions", vec![]), start("service", vec![name("s")])];
    match Wsdl::from_tokens(&tokens) {
        Err(WsdlError::InvalidElement(e)) => assert_eq!("wsdl:service", e),
        other => panic!("unexpected {:?}", other),
    }
}

#[test]
fn stream_ending_inside_skipped_content_is_invalid() {
    let tokens = vec![
        start("definitions", vec![]),
        XmlToken::Start { name: OwnedName::local("x"), attributes: vec![], namespace: Namespace::empty() },
    ];
    match Wsdl::from_tokens(&tokens) {
        Err(WsdlError::InvalidElement(e)) => assert_eq!("wsdl:definitions", e),
        other => panic!("unexpected {:?}", other),
    }
}

#[test]
fn mismatched_end_tag_is_invalid() {
    let tokens = vec![start("definitions", vec![]), start("service", vec![name("s")]), end("port")];
    match Wsdl::from_tokens(&tokens) {
        Err(WsdlError::InvalidElement(e)) => assert_eq!("wsdl:service", e),
        other => panic!("unexpected {:?}", other),
    }
}

#[test]
fn error_token_stops_the_scan() {
    let tokens = vec![XmlToken::Comment("c".to_string()), XmlToken::Malformed("bad".to_string()), start("definitions", vec![])];
    match Wsdl::from_tokens(&tokens) {
        Err(WsdlError::Xml(m)) => assert_eq!("bad", m),
        other => panic!("unexpected {:?}", other),
    }
}

#[test]
fn tokens_after_root_are_not_read() {
    let tokens = vec![
        start("definitions", vec![]),
        start("service", vec![name("a")]),
        end("service"),
        end("definitions"),
        XmlToken::Malformed("trailing".to_string()),
    ];
    let wsdl = Wsdl::from_tokens(&tokens).unwrap();
    assert_eq!(1, wsdl.services.len());
    assert_eq!("a", wsdl.services[0].name);
}

#[test]
fn tokenize_reads_events_in_order() {
    let tokens = tokenize(br#"<a xmlns:p="urn:p" k="v">hi</a>"#);
    let starts: Vec<&XmlToken> = tokens.iter().filter(|t| matches!(t, XmlToken::Start { .. })).collect();
    assert_eq!(1, starts.len());
    match starts[0] {
        XmlToken::Start { name, attributes, namespace } => {
            assert_eq!(None, name.namespace);
            assert_eq!("a", name.local_name);
            assert_eq!(1, attributes.len());
            assert_eq!("k", attributes[0].name.local_name);
            assert_eq!("v", attributes[0].value);
            assert_eq!(Some("urn:p"), namespace.get("p"));
        }
        _ => unreachable!(),
    }
    assert!(tokens.iter().any(|t| matches!(t, XmlToken::Text(s) if s == "hi")));
    assert!(tokens.iter().any(|t| matches!(t, XmlToken::End { name } if name.local_name == "a")));
}

#[test]
fn qualified_names_are_split() {
    let mut scope = Namespace::empty();
    scope.put("tns", "urn:t");
    let q = resolve_reference(&"tns:Thing".to_string(), &scope).unwrap();
    assert_eq!("Thing", q.local_name);
    assert_eq!(Some("tns".to_string()), q.prefix);
    assert_eq!(Some("urn:t".to_string()), q.namespace);
    let plain = resolve_reference(&"Thing".to_string(), &scope).unwrap();
    assert_eq!((None, None), (plain.prefix, plain.namespace));
    assert!(resolve_reference(&"a:b:c".to_string(), &scope).is_none());
    assert!(resolve_reference(&"".to_string(), &scope).is_none());
    assert!(resolve_reference(&":x".to_string(), &scope).is_none());
}

#[test]
fn decoding_strips_byte_order_mark() {
    let decoded = decode_contents(&[0xEF, 0xBB, 0xBF, b'a', b'b']);
    assert_eq!(b"ab".to_vec(), decoded);
}

#[test]
fn decoding_replaces_invalid_bytes_before_parsing() {
    let mut bytes = br#"<definitions xmlns="http://schemas.xmlsoap.org/wsdl/"><documentation>x"#.to_vec();
    bytes.push(0xFF);
    bytes.extend_from_slice(b"</documentation></definitions>");
    assert!(Wsdl::parse(&bytes).is_err());
    let wsdl = Wsdl::load_from_bytes(&bytes).unwrap();
    assert_eq!("x\u{FFFD}", wsdl.documentation.unwrap().text);
}

#[test]
fn request_keeps_header_and_content() {
    let mut header = std::collections::HashMap::new();
    header.insert("Content-Type".to_string(), "text/xml".to_string());
    let request = Request::new(header, "body".to_string());
    assert_eq!(Some(&"text/xml".to_string()), request.header.get("Content-Type"));
    assert_eq!("body", request.content);
}

#[test]
fn soap_payloads_are_passed_through() {
    let request = SoapRequest { payload: "<Envelope/>".to_string() };
    assert_eq!("<Envelope/>", request.to_xml_string());
    let response = SoapResponse { payload: "<Reply/>".to_string() };
    assert_eq!("<Reply/>", response.parse_payload());
}

#[test]
fn tokenize_keeps_cdata_and_whitespace() {
    let tokens = tokenize(b"<a><b/> <![CDATA[<x>]]></a>");
    assert!(tokens.iter().any(|t| matches!(t, XmlToken::Whitespace(s) if s == " ")));
    assert!(tokens.iter().any(|t| matches!(t, XmlToken::CData(s) if s == "<x>")));
    assert!(matches!(tokens.first(), Some(XmlToken::StartDocument)));
    assert!(matches!(tokens.last(), Some(XmlToken::EndDocument)));
}
