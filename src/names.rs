//! Attribute lookup and qualified-name resolution.
use vstd::prelude::*;
use crate::schema::{QNameModel, QualifiedName, str_view, qname_view};
use crate::xml_source::{namespace_bindings, namespace_uri};
use xml::attribute::OwnedAttribute;
use xml::namespace::Namespace;

verus! {

/// An attribute without namespace and with the given local name.
pub open spec fn attr_matches(a: OwnedAttribute, name: Seq<char>) -> bool {
    a.name.namespace is None && a.name.local_name@ == name
}

/// The value of the first unqualified attribute with the given name.
pub open spec fn find_attr(attrs: Seq<OwnedAttribute>, name: Seq<char>) -> Option<Seq<char>>
    decreases attrs.len(),
{
    if attrs.len() == 0 {
        None
    } else if attr_matches(attrs[0], name) {
        Some(attrs[0].value@)
    } else {
        find_attr(attrs.drop_first(), name)
    }
}

pub open spec fn no_colon(s: Seq<char>) -> bool {
    !s.contains(':')
}

/// A colon that splits a text into a non-empty prefix and a non-empty local
/// name, neither holding another colon.
pub open spec fn is_qname_colon(s: Seq<char>, k: int) -> bool {
    0 < k < s.len() - 1 && s[k] == ':' && no_colon(s.take(k)) && no_colon(s.skip(k + 1))
}

/// The lexical parts of a qualified name, `prefix:local` or `local`:
/// (prefix, local name), or `None` when the text is neither.
pub open spec fn qname_parts(s: Seq<char>) -> Option<(Option<Seq<char>>, Seq<char>)> {
    if s.len() > 0 && no_colon(s) {
        Some((None, s))
    } else if exists|k: int| is_qname_colon(s, k) {
        let k = choose|k: int| is_qname_colon(s, k);
        Some((Some(s.take(k)), s.skip(k + 1)))
    } else {
        None
    }
}

/// A reference attribute read in a scope: its parts, and for a prefix the
/// namespace bound to it there (none when it is not bound).
pub open spec fn resolve_ref(value: Seq<char>, scope: Map<Seq<char>, Seq<char>>) -> Option<QNameModel> {
    match qname_parts(value) {
        None => None,
        Some((prefix, local)) => Some(
            QNameModel {
                local_name: local,
                namespace: match prefix {
                    Some(p) => if scope.contains_key(p) {
                        Some(scope[p])
                    } else {
                        None
                    },
                    None => None,
                },
                prefix,
            },
        ),
    }
}

/// Relies on `FromStr for xml::name::OwnedName`: it splits `prefix:local` or
/// `local` (each part non-empty, one colon at most) and refuses anything else.
#[verifier::external_body]
fn split_qname(s: &str) -> (r: Option<(Option<String>, String)>)
    ensures
        match (r, qname_parts(s@)) {
            (None, None) => true,
            (Some((p, l)), Some((sp, sl))) => str_view(p) == sp && l@ == sl,
            _ => false,
        },
{
    s.parse::<xml::name::OwnedName>().ok().map(|n| (n.prefix, n.local_name))
}

pub fn same_text(a: &String, b: &str) -> (r: bool)
    ensures
        r == (a@ == b@),
{
    let owned: String = b.to_owned();
    a.eq(&owned)
}

/// The value of the first unqualified attribute named `name`.
pub fn find_attribute(attributes: &Vec<OwnedAttribute>, name: &str) -> (r: Option<String>)
    ensures
        str_view(r) == find_attr(attributes@, name@),
{
    let mut k: usize = 0;
    assert(attributes@.subrange(0, attributes@.len() as int) =~= attributes@);
    while k < attributes.len()
        invariant
            k <= attributes@.len(),
            find_attr(attributes@, name@) == find_attr(attributes@.subrange(k as int, attributes@.len() as int), name@),
        decreases attributes@.len() - k,
    {
        let a = &attributes[k];
        assert(attributes@.subrange(k as int, attributes@.len() as int).drop_first()
            =~= attributes@.subrange(k + 1, attributes@.len() as int));
        if a.name.namespace.is_none() && same_text(&a.name.local_name, name) {
            return Some(a.value.clone());
        }
        k = k + 1;
    }
    None
}

/// Reads a reference attribute's value in the scope of its start tag.
/// `None` when the value is not a qualified name; an unbound prefix gives a
/// name without namespace.
pub fn resolve_reference(value: &String, scope: &Namespace) -> (r: Option<QualifiedName>)
    ensures
        qname_view(r) == resolve_ref(value@, namespace_bindings(*scope)),
{
    match split_qname(value.as_str()) {
        None => None,
        Some((prefix, local_name)) => {
            let namespace = match &prefix {
                Some(p) => namespace_uri(scope, p.as_str()),
                None => None,
            };
            Some(QualifiedName { local_name, namespace, prefix })
        },
    }
}

} // verus!
