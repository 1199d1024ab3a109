//! Properties of the scanner, stated over the reading functions and proved.
use vstd::prelude::*;
use crate::error::ErrorModel;
use crate::names::{find_attr, qname_parts, resolve_ref};
use crate::schema::WsdlModel;
use crate::spec::{
    definitions_read,
    BodyModel, ChildModel, ElementKind, add_child, body_from, element, empty_body, is_wsdl_tag,
    kind_named, missing, parse_tokens, prepend, recognized, root_from, service_read, subtree,
    tag_of, token_text,
};
use crate::xml_source::{XmlToken, namespace_bindings};
use xml::attribute::OwnedAttribute;

verus! {

/// The kinds whose `name` attribute is required.
pub open spec fn requires_name(k: ElementKind) -> bool {
    k == ElementKind::Message || k == ElementKind::Service || k == ElementKind::Binding || k
        == ElementKind::PortType || k == ElementKind::Port || k == ElementKind::Operation || k
        == ElementKind::Part || k == ElementKind::Fault
}

proof fn lemma_no_root_from(toks: Seq<XmlToken>, i: int)
    requires
        0 <= i,
        forall|k: int| 0 <= k < toks.len() ==> !(#[trigger] toks[k] is Malformed),
        forall|k: int|
            0 <= k < toks.len() && #[trigger] toks[k] is Start ==> !is_wsdl_tag(
                toks[k]->Start_name.namespace,
                toks[k]->Start_name.local_name,
                "definitions"@,
            ),
    ensures
        root_from(toks, i) == Err::<WsdlModel, ErrorModel>(ErrorModel::MissingElement("definitions"@)),
    decreases toks.len() - i,
{
    if i < toks.len() {
        lemma_no_root_from(toks, i + 1);
    }
}

/// A token stream without errors and without a `definitions` start tag of
/// the WSDL namespace fails with the missing-element error naming
/// `definitions`.
pub proof fn lemma_no_root(toks: Seq<XmlToken>)
    requires
        forall|k: int| 0 <= k < toks.len() ==> !(#[trigger] toks[k] is Malformed),
        forall|k: int|
            0 <= k < toks.len() && #[trigger] toks[k] is Start ==> !is_wsdl_tag(
                toks[k]->Start_name.namespace,
                toks[k]->Start_name.local_name,
                "definitions"@,
            ),
    ensures
        parse_tokens(toks) == Err::<WsdlModel, ErrorModel>(ErrorModel::MissingElement("definitions"@)),
{
    lemma_no_root_from(toks, 0);
}

/// Qualified-name resolution: a prefixed reference takes the namespace that
/// its scope binds to the prefix, none when it binds none; an unprefixed
/// reference takes no namespace. Either way the reference is read.
pub proof fn lemma_reference_resolution(value: Seq<char>, scope: Map<Seq<char>, Seq<char>>)
    requires
        qname_parts(value) is Some,
    ensures
        resolve_ref(value, scope) is Some,
        resolve_ref(value, scope)->Some_0.local_name == qname_parts(value)->Some_0.1,
        resolve_ref(value, scope)->Some_0.prefix == qname_parts(value)->Some_0.0,
        qname_parts(value)->Some_0.0 is None ==> resolve_ref(value, scope)->Some_0.namespace is None,
        qname_parts(value)->Some_0.0 is Some ==> resolve_ref(value, scope)->Some_0.namespace == if scope.contains_key(
            qname_parts(value)->Some_0.0->Some_0,
        ) {
            Some(scope[qname_parts(value)->Some_0.0->Some_0])
        } else {
            None
        },
{
}

/// Inside the readers, a port's `binding` and a binding's `type` are
/// resolved in the scope of their own start tag, as `resolve_ref` says; a
/// prefix that the scope does not bind leaves the namespace unresolved and
/// does not fail the element.
pub proof fn lemma_references_in_readers(
    attrs: Seq<OwnedAttribute>,
    scope: Map<Seq<char>, Seq<char>>,
    toks: Seq<XmlToken>,
    i: int,
)
    requires
        find_attr(attrs, "name"@) is Some,
    ensures
        find_attr(attrs, "binding"@) is Some && qname_parts(find_attr(attrs, "binding"@)->Some_0) is Some ==> {
            &&& element(ElementKind::Port, attrs, scope, toks, i).1 == body_from(toks, i, ElementKind::Port, empty_body()).1
            &&& body_from(toks, i, ElementKind::Port, empty_body()).0 is Ok ==> (element(ElementKind::Port, attrs, scope, toks, i).0
                matches Ok(ChildModel::Port(p)) && p.binding == resolve_ref(find_attr(attrs, "binding"@)->Some_0, scope)->Some_0)
        },
        find_attr(attrs, "type"@) is Some && qname_parts(find_attr(attrs, "type"@)->Some_0) is Some ==> {
            &&& element(ElementKind::Binding, attrs, scope, toks, i).1 == body_from(toks, i, ElementKind::Binding, empty_body()).1
            &&& body_from(toks, i, ElementKind::Binding, empty_body()).0 is Ok ==> (element(ElementKind::Binding, attrs, scope, toks, i).0
                matches Ok(ChildModel::Binding(b)) && b.port_type == resolve_ref(find_attr(attrs, "type"@)->Some_0, scope)->Some_0)
        },
{
}

/// How a token changes the nesting depth.
pub open spec fn depth_change(t: XmlToken) -> int {
    match t {
        XmlToken::Start { .. } => 1,
        XmlToken::End { .. } => -1,
        _ => 0,
    }
}

/// Start tags minus end tags among the `m` tokens from position `i`.
pub open spec fn net_depth(toks: Seq<XmlToken>, i: int, m: nat) -> int
    decreases m,
{
    if m == 0 {
        0
    } else {
        depth_change(toks[i]) + net_depth(toks, i + 1, (m - 1) as nat)
    }
}

/// The character data among the `m` tokens from position `i`.
pub open spec fn seg_text(toks: Seq<XmlToken>, i: int, m: nat) -> Seq<char>
    decreases m,
{
    if m == 0 {
        Seq::empty()
    } else {
        token_text(toks[i]) + seg_text(toks, i + 1, (m - 1) as nat)
    }
}

/// The `m` tokens from position `i` are well nested content: no error, no
/// end tag without its start tag, every start tag closed.
pub open spec fn balanced(toks: Seq<XmlToken>, i: int, m: nat) -> bool {
    &&& 0 <= i
    &&& i + m <= toks.len()
    &&& net_depth(toks, i, m) == 0
    &&& forall|k: nat| k <= m ==> #[trigger] net_depth(toks, i, k) >= 0
    &&& forall|k: int| i <= k < i + m ==> !(#[trigger] toks[k] is Malformed)
}

proof fn lemma_subtree_segment(toks: Seq<XmlToken>, i: int, m: nat, depth: nat, owner: ElementKind)
    requires
        0 <= i,
        i + m <= toks.len(),
        depth >= 1,
        forall|k: nat| k <= m ==> depth + #[trigger] net_depth(toks, i, k) >= 1,
        forall|k: int| i <= k < i + m ==> !(#[trigger] toks[k] is Malformed),
    ensures
        depth + net_depth(toks, i, m) >= 1,
        subtree(toks, i, depth, owner) == ({
            let (r, n) = subtree(toks, i + m, (depth + net_depth(toks, i, m)) as nat, owner);
            (prepend(seg_text(toks, i, m), r), n + m)
        }),
    decreases m,
{
    let r0 = subtree(toks, i, depth, owner).0;
    if m == 0 {
        assert(net_depth(toks, i, 0) == 0);
        match r0 {
            Ok(s) => assert(Seq::<char>::empty() + s =~= s),
            Err(_) => {},
        }
    } else {
        let d1 = depth + depth_change(toks[i]);
        assert(depth + net_depth(toks, i, 1) >= 1);
        assert(net_depth(toks, i, 1) == depth_change(toks[i]) + net_depth(toks, i + 1, 0));
        assert forall|k: nat| k <= (m - 1) as nat implies d1 + #[trigger] net_depth(toks, i + 1, k) >= 1 by {
            assert(net_depth(toks, i, k + 1) == depth_change(toks[i]) + net_depth(toks, i + 1, k));
            assert(depth + net_depth(toks, i, k + 1) >= 1);
        }
        assert(!(toks[i] is Malformed));
        lemma_subtree_segment(toks, i + 1, (m - 1) as nat, d1 as nat, owner);
        let (r, n) = subtree(toks, i + m, (depth + net_depth(toks, i, m)) as nat, owner);
        let t = token_text(toks[i]);
        match r {
            Ok(x) => assert(t + (seg_text(toks, i + 1, (m - 1) as nat) + x) =~= (t + seg_text(toks, i + 1, (m - 1) as nat)) + x),
            Err(_) => {},
        }
    }
}

/// Skipping unknown content is depth-safe: after a start tag that the
/// reader does not recognize, well nested content of any depth (also one
/// that repeats the skipped element's own name) and the end tag that closes
/// it, reading goes on right after that end tag, as if none of it were
/// there.
pub proof fn lemma_skip_is_depth_safe(toks: Seq<XmlToken>, i: int, kind: ElementKind, acc: BodyModel, m: nat)
    requires
        0 <= i,
        toks[i] is Start,
        recognized(kind, toks[i]->Start_name.namespace, toks[i]->Start_name.local_name) is None,
        balanced(toks, i + 1, m),
        i + 1 + m < toks.len(),
        toks[i + 1 + m] is End,
    ensures
        body_from(toks, i, kind, acc) == ({
            let (r, n) = body_from(toks, i + m + 2, kind, acc);
            (r, n + m + 2)
        }),
{
    assert forall|k: nat| k <= m implies 1 + #[trigger] net_depth(toks, i + 1, k) >= 1 by {}
    lemma_subtree_segment(toks, i + 1, m, 1, kind);
    assert(subtree(toks, i + 1 + m, 1, kind) == (Ok::<Seq<char>, ErrorModel>(Seq::empty()), 1nat));
}

pub open spec fn start_attrs(t: XmlToken) -> Seq<OwnedAttribute> {
    match t {
        XmlToken::Start { attributes, .. } => attributes@,
        _ => Seq::empty(),
    }
}

pub open spec fn start_scope(t: XmlToken) -> Map<Seq<char>, Seq<char>> {
    match t {
        XmlToken::Start { namespace, .. } => namespace_bindings(namespace),
        _ => Map::empty(),
    }
}

/// The error with which an element of kind `kind` fails on its attributes
/// alone, if any: a binding needs `type` and a port `binding` (checked
/// first), and the named kinds need `name`.
pub open spec fn mandatory_failure(kind: ElementKind, attrs: Seq<OwnedAttribute>) -> Option<ErrorModel> {
    if kind == ElementKind::Binding && find_attr(attrs, "type"@) is None {
        Some(missing("type"@, kind))
    } else if kind == ElementKind::Port && find_attr(attrs, "binding"@) is None {
        Some(missing("binding"@, kind))
    } else if requires_name(kind) && find_attr(attrs, "name"@) is None {
        Some(missing("name"@, kind))
    } else {
        None
    }
}

/// An element that lacks a mandatory attribute fails with the
/// mandatory-attribute error naming that attribute and the element, before
/// anything of its body is read.
pub proof fn lemma_mandatory_attribute(
    kind: ElementKind,
    attrs: Seq<OwnedAttribute>,
    scope: Map<Seq<char>, Seq<char>>,
    toks: Seq<XmlToken>,
    i: int,
)
    requires
        mandatory_failure(kind, attrs) is Some,
    ensures
        element(kind, attrs, scope, toks, i) == (Err::<ChildModel, ErrorModel>(mandatory_failure(kind, attrs)->Some_0), 0nat),
{
}

/// The kind of element that a child was read from.
pub open spec fn child_kind(c: ChildModel) -> ElementKind {
    match c {
        ChildModel::Documentation(_) => ElementKind::Documentation,
        ChildModel::Types(_) => ElementKind::Types,
        ChildModel::Message(_) => ElementKind::Message,
        ChildModel::Part(_) => ElementKind::Part,
        ChildModel::PortType(_) => ElementKind::PortType,
        ChildModel::Binding(_) => ElementKind::Binding,
        ChildModel::Operation(_) => ElementKind::Operation,
        ChildModel::Input(_) => ElementKind::Input,
        ChildModel::Output(_) => ElementKind::Output,
        ChildModel::Fault(_) => ElementKind::Fault,
        ChildModel::Service(_) => ElementKind::Service,
        ChildModel::Port(_) => ElementKind::Port,
    }
}

/// From `starts[0]` on, the body of a `parent` element holds, at the
/// positions `starts` but the last, start tags of children that it reads,
/// each read without error as `cs` up to the next position.
#[verifier::opaque]
pub open spec fn children_read(toks: Seq<XmlToken>, parent: ElementKind, starts: Seq<int>, cs: Seq<ChildModel>) -> bool {
    &&& starts.len() == cs.len() + 1
    &&& forall|j: int| 0 <= j < starts.len() ==> 0 <= #[trigger] starts[j] <= starts.last() < toks.len()
    &&& forall|j: int| 0 <= j < cs.len() ==> #[trigger] starts[j] < starts[j + 1]
    &&& forall|j: int|
        0 <= j < cs.len() ==> {
            &&& toks[#[trigger] starts[j]] is Start
            &&& recognized(parent, toks[starts[j]]->Start_name.namespace, toks[starts[j]]->Start_name.local_name) == Some(child_kind(cs[j]))
            &&& element(child_kind(cs[j]), start_attrs(toks[starts[j]]), start_scope(toks[starts[j]]), toks, starts[j] + 1)
                == (Ok::<ChildModel, ErrorModel>(cs[j]), (starts[j + 1] - starts[j] - 1) as nat)
        }
}

/// A body with the children `cs` added in order.
pub open spec fn add_all(acc: BodyModel, cs: Seq<ChildModel>) -> BodyModel
    decreases cs.len(),
{
    if cs.len() == 0 {
        acc
    } else {
        add_child(add_all(acc, cs.drop_last()), cs.last())
    }
}

proof fn lemma_add_all_front(acc: BodyModel, c: ChildModel, rest: Seq<ChildModel>)
    ensures
        add_all(add_child(acc, c), rest) == add_all(acc, seq![c] + rest),
    decreases rest.len(),
{
    let all = seq![c] + rest;
    if rest.len() == 0 {
        assert(all.drop_last() =~= Seq::<ChildModel>::empty());
        assert(all.last() == c);
        assert(add_all(acc, all) == add_child(add_all(acc, all.drop_last()), all.last()));
    } else {
        lemma_add_all_front(acc, c, rest.drop_last());
        assert(all.drop_last() =~= seq![c] + rest.drop_last());
        assert(all.last() == rest.last());
        assert(add_all(acc, all) == add_child(add_all(acc, all.drop_last()), all.last()));
        assert(add_all(add_child(acc, c), rest) == add_child(add_all(add_child(acc, c), rest.drop_last()), rest.last()));
    }
}

proof fn lemma_child_step(toks: Seq<XmlToken>, i: int, parent: ElementKind, acc: BodyModel, c: ChildModel, n: nat)
    requires
        0 <= i,
        i + 1 + n <= toks.len(),
        toks[i] is Start,
        recognized(parent, toks[i]->Start_name.namespace, toks[i]->Start_name.local_name) == Some(child_kind(c)),
        element(child_kind(c), start_attrs(toks[i]), start_scope(toks[i]), toks, i + 1) == (Ok::<ChildModel, ErrorModel>(c), n),
    ensures
        body_from(toks, i, parent, acc) == ({
            let (r, m) = body_from(toks, i + 1 + n, parent, add_child(acc, c));
            (r, 1 + n + m)
        }),
{
    assert(start_attrs(toks[i]) == toks[i]->Start_attributes@);
    assert(start_scope(toks[i]) == namespace_bindings(toks[i]->Start_namespace));
}

proof fn lemma_children_read_first(toks: Seq<XmlToken>, parent: ElementKind, starts: Seq<int>, cs: Seq<ChildModel>)
    requires
        children_read(toks, parent, starts, cs),
        cs.len() > 0,
    ensures
        0 <= starts[0] < starts[1] <= starts.last() < toks.len(),
        toks[starts[0]] is Start,
        recognized(parent, toks[starts[0]]->Start_name.namespace, toks[starts[0]]->Start_name.local_name) == Some(child_kind(cs[0])),
        element(child_kind(cs[0]), start_attrs(toks[starts[0]]), start_scope(toks[starts[0]]), toks, starts[0] + 1)
            == (Ok::<ChildModel, ErrorModel>(cs[0]), (starts[1] - starts[0] - 1) as nat),
        children_read(toks, parent, starts.drop_first(), cs.drop_first()),
{
    reveal(children_read);
    assert(starts[0] < starts[1]);
    assert(0 <= starts[1] <= starts.last());
    assert(toks[starts[0]] is Start);
    let rest_starts = starts.drop_first();
    let rest = cs.drop_first();
    assert forall|j: int| 0 <= j < rest_starts.len() implies 0 <= #[trigger] rest_starts[j] <= rest_starts.last() < toks.len() by {
        assert(rest_starts[j] == starts[j + 1]);
    }
    assert forall|j: int| 0 <= j < rest.len() implies #[trigger] rest_starts[j] < rest_starts[j + 1] by {
        assert(rest_starts[j] == starts[j + 1]);
        assert(starts[j + 1] < starts[j + 2]);
    }
    assert forall|j: int| 0 <= j < rest.len() implies {
        &&& toks[#[trigger] rest_starts[j]] is Start
        &&& recognized(parent, toks[rest_starts[j]]->Start_name.namespace, toks[rest_starts[j]]->Start_name.local_name) == Some(child_kind(rest[j]))
        &&& element(child_kind(rest[j]), start_attrs(toks[rest_starts[j]]), start_scope(toks[rest_starts[j]]), toks, rest_starts[j] + 1)
            == (Ok::<ChildModel, ErrorModel>(rest[j]), (rest_starts[j + 1] - rest_starts[j] - 1) as nat)
    } by {
        assert(rest_starts[j] == starts[j + 1]);
        assert(toks[starts[j + 1]] is Start);
    }
}

proof fn lemma_children_read_bounds(toks: Seq<XmlToken>, parent: ElementKind, starts: Seq<int>, cs: Seq<ChildModel>)
    requires
        children_read(toks, parent, starts, cs),
    ensures
        starts.len() == cs.len() + 1,
        0 <= starts[0] <= starts.last() < toks.len(),
{
    reveal(children_read);
    assert(0 <= starts[0] <= starts.last());
}

/// Children that read without error are added to the body one after the
/// other, in document order, and reading goes on after the last of them.
pub proof fn lemma_children_in_order(toks: Seq<XmlToken>, parent: ElementKind, starts: Seq<int>, cs: Seq<ChildModel>, acc: BodyModel)
    requires
        children_read(toks, parent, starts, cs),
    ensures
        body_from(toks, starts[0], parent, acc) == ({
            let (r, n) = body_from(toks, starts.last(), parent, add_all(acc, cs));
            (r, (n + starts.last() - starts[0]) as nat)
        }),
    decreases cs.len(),
{
    lemma_children_read_bounds(toks, parent, starts, cs);
    if cs.len() == 0 {
        assert(starts.last() == starts[0]);
    } else {
        lemma_children_read_first(toks, parent, starts, cs);
        lemma_child_step(toks, starts[0], parent, acc, cs[0], (starts[1] - starts[0] - 1) as nat);
        let rest_starts = starts.drop_first();
        let rest = cs.drop_first();
        lemma_children_in_order(toks, parent, rest_starts, rest, add_child(acc, cs[0]));
        lemma_add_all_front(acc, cs[0], rest);
        assert(seq![cs[0]] + rest =~= cs);
        assert(rest_starts[0] == starts[1]);
        assert(rest_starts.last() == starts.last());
    }
}

/// The children of kind `k` that a body lists, as read.
pub open spec fn listed(b: BodyModel, k: ElementKind) -> Seq<ChildModel> {
    match k {
        ElementKind::Types => b.types.map_values(|x| ChildModel::Types(x)),
        ElementKind::Message => b.messages.map_values(|x| ChildModel::Message(x)),
        ElementKind::Part => b.parts.map_values(|x| ChildModel::Part(x)),
        ElementKind::PortType => b.port_types.map_values(|x| ChildModel::PortType(x)),
        ElementKind::Binding => b.bindings.map_values(|x| ChildModel::Binding(x)),
        ElementKind::Operation => b.operations.map_values(|x| ChildModel::Operation(x)),
        ElementKind::Service => b.services.map_values(|x| ChildModel::Service(x)),
        ElementKind::Port => b.ports.map_values(|x| ChildModel::Port(x)),
        _ => Seq::empty(),
    }
}

/// The kinds of children that a body keeps as a sequence.
pub open spec fn sequence_kind(k: ElementKind) -> bool {
    k == ElementKind::Types || k == ElementKind::Message || k == ElementKind::Part || k
        == ElementKind::PortType || k == ElementKind::Binding || k == ElementKind::Operation || k
        == ElementKind::Service || k == ElementKind::Port
}

/// The children of kind `k`, in order.
pub open spec fn of_kind(cs: Seq<ChildModel>, k: ElementKind) -> Seq<ChildModel>
    decreases cs.len(),
{
    if cs.len() == 0 {
        Seq::empty()
    } else if child_kind(cs.last()) == k {
        of_kind(cs.drop_last(), k).push(cs.last())
    } else {
        of_kind(cs.drop_last(), k)
    }
}

proof fn lemma_listed_add(b: BodyModel, c: ChildModel, k: ElementKind)
    requires
        sequence_kind(k),
    ensures
        listed(add_child(b, c), k) == if child_kind(c) == k {
            listed(b, k).push(c)
        } else {
            listed(b, k)
        },
{
    let a = add_child(b, c);
    match c {
        ChildModel::Types(x) => assert(a.types.map_values(|y| ChildModel::Types(y)) =~= b.types.map_values(|y| ChildModel::Types(y)).push(c)),
        ChildModel::Message(x) => assert(a.messages.map_values(|y| ChildModel::Message(y)) =~= b.messages.map_values(|y| ChildModel::Message(y)).push(c)),
        ChildModel::Part(x) => assert(a.parts.map_values(|y| ChildModel::Part(y)) =~= b.parts.map_values(|y| ChildModel::Part(y)).push(c)),
        ChildModel::PortType(x) => assert(a.port_types.map_values(|y| ChildModel::PortType(y)) =~= b.port_types.map_values(|y| ChildModel::PortType(y)).push(c)),
        ChildModel::Binding(x) => assert(a.bindings.map_values(|y| ChildModel::Binding(y)) =~= b.bindings.map_values(|y| ChildModel::Binding(y)).push(c)),
        ChildModel::Operation(x) => assert(a.operations.map_values(|y| ChildModel::Operation(y)) =~= b.operations.map_values(|y| ChildModel::Operation(y)).push(c)),
        ChildModel::Service(x) => assert(a.services.map_values(|y| ChildModel::Service(y)) =~= b.services.map_values(|y| ChildModel::Service(y)).push(c)),
        ChildModel::Port(x) => assert(a.ports.map_values(|y| ChildModel::Port(y)) =~= b.ports.map_values(|y| ChildModel::Port(y)).push(c)),
        _ => {},
    }
}

proof fn lemma_listed_add_all(acc: BodyModel, cs: Seq<ChildModel>, k: ElementKind)
    requires
        sequence_kind(k),
    ensures
        listed(add_all(acc, cs), k) == listed(acc, k) + of_kind(cs, k),
    decreases cs.len(),
{
    if cs.len() == 0 {
        assert(listed(acc, k) + of_kind(cs, k) =~= listed(acc, k));
    } else {
        lemma_listed_add_all(acc, cs.drop_last(), k);
        lemma_listed_add(add_all(acc, cs.drop_last()), cs.last(), k);
        assert((listed(acc, k) + of_kind(cs.drop_last(), k)).push(cs.last()) =~= listed(acc, k) + of_kind(cs.drop_last(), k).push(cs.last()));
    }
}

/// Sibling elements keep document order: when the body of any element
/// holds recognized children that read without error, followed by its own
/// end tag, the body lists the children of each sequence kind exactly
/// once each, duplicates included, in the order of the document (none
/// when there are none).
pub proof fn lemma_siblings_in_order(toks: Seq<XmlToken>, parent: ElementKind, starts: Seq<int>, cs: Seq<ChildModel>, k: ElementKind)
    requires
        children_read(toks, parent, starts, cs),
        toks[starts.last()] is End,
        is_wsdl_tag(toks[starts.last()]->End_name.namespace, toks[starts.last()]->End_name.local_name, tag_of(parent)),
        sequence_kind(k),
    ensures
        body_from(toks, starts[0], parent, empty_body()) == (
            Ok::<BodyModel, ErrorModel>(add_all(empty_body(), cs)),
            (starts.last() + 1 - starts[0]) as nat,
        ),
        listed(add_all(empty_body(), cs), k) == of_kind(cs, k),
{
    lemma_children_read_bounds(toks, parent, starts, cs);
    lemma_children_in_order(toks, parent, starts, cs, empty_body());
    lemma_listed_add_all(empty_body(), cs, k);
    assert(listed(empty_body(), k) + of_kind(cs, k) =~= of_kind(cs, k));
}

/// A recognized child that lacks a mandatory attribute, after children
/// that read without error, aborts the body that holds it with that error:
/// nothing read before it is kept.
pub proof fn lemma_missing_attribute_aborts(toks: Seq<XmlToken>, parent: ElementKind, starts: Seq<int>, cs: Seq<ChildModel>, acc: BodyModel, kind: ElementKind)
    requires
        children_read(toks, parent, starts, cs),
        toks[starts.last()] is Start,
        recognized(parent, toks[starts.last()]->Start_name.namespace, toks[starts.last()]->Start_name.local_name) == Some(kind),
        mandatory_failure(kind, start_attrs(toks[starts.last()])) is Some,
    ensures
        body_from(toks, starts[0], parent, acc).0 == Err::<BodyModel, ErrorModel>(mandatory_failure(kind, start_attrs(toks[starts.last()]))->Some_0),
{
    let i = starts.last();
    lemma_children_read_bounds(toks, parent, starts, cs);
    lemma_children_in_order(toks, parent, starts, cs, acc);
    lemma_mandatory_attribute(kind, start_attrs(toks[i]), start_scope(toks[i]), toks, i + 1);
    assert(start_attrs(toks[i]) == toks[i]->Start_attributes@);
    assert(start_scope(toks[i]) == namespace_bindings(toks[i]->Start_namespace));
}

/// An error in a recognized child aborts the body that holds it.
pub proof fn lemma_child_error_aborts(toks: Seq<XmlToken>, i: int, parent: ElementKind, acc: BodyModel, kind: ElementKind)
    requires
        0 <= i < toks.len(),
        toks[i] is Start,
        recognized(parent, toks[i]->Start_name.namespace, toks[i]->Start_name.local_name) == Some(kind),
        element(kind, start_attrs(toks[i]), start_scope(toks[i]), toks, i + 1).0 is Err,
    ensures
        body_from(toks, i, parent, acc).0 == Err::<BodyModel, ErrorModel>(element(kind, start_attrs(toks[i]), start_scope(toks[i]), toks, i + 1).0->Err_0),
{
    assert(start_attrs(toks[i]) == toks[i]->Start_attributes@);
    assert(start_scope(toks[i]) == namespace_bindings(toks[i]->Start_namespace));
}

/// `r` is the first `definitions` start tag of the WSDL namespace, and no
/// error comes before it.
pub open spec fn root_at(toks: Seq<XmlToken>, r: int) -> bool {
    &&& 0 <= r < toks.len()
    &&& toks[r] is Start
    &&& is_wsdl_tag(toks[r]->Start_name.namespace, toks[r]->Start_name.local_name, "definitions"@)
    &&& forall|k: int| 0 <= k < r ==> !(#[trigger] toks[k] is Malformed)
    &&& forall|k: int|
        0 <= k < r && #[trigger] toks[k] is Start ==> !is_wsdl_tag(toks[k]->Start_name.namespace, toks[k]->Start_name.local_name, "definitions"@)
}

proof fn lemma_root_from(toks: Seq<XmlToken>, r: int, i: int)
    requires
        root_at(toks, r),
        0 <= i <= r,
    ensures
        root_from(toks, i) == definitions_read(start_attrs(toks[r]), toks, r + 1),
    decreases r - i,
{
    if i < r {
        lemma_root_from(toks, r, i + 1);
    }
    assert(start_attrs(toks[r]) == toks[r]->Start_attributes@);
}

/// Sibling elements keep document order in the document: when the root's
/// body holds recognized children that read without error and then the
/// root's end tag, the document's sequences hold exactly those children of
/// each kind, in document order.
pub proof fn lemma_document_siblings_in_order(toks: Seq<XmlToken>, r: int, starts: Seq<int>, cs: Seq<ChildModel>)
    requires
        root_at(toks, r),
        starts.len() > 0,
        starts[0] == r + 1,
        children_read(toks, ElementKind::Definitions, starts, cs),
        toks[starts.last()] is End,
        is_wsdl_tag(toks[starts.last()]->End_name.namespace, toks[starts.last()]->End_name.local_name, "definitions"@),
    ensures
        parse_tokens(toks) is Ok,
        parse_tokens(toks)->Ok_0.services.map_values(|x| ChildModel::Service(x)) == of_kind(cs, ElementKind::Service),
        parse_tokens(toks)->Ok_0.messages.map_values(|x| ChildModel::Message(x)) == of_kind(cs, ElementKind::Message),
        parse_tokens(toks)->Ok_0.bindings.map_values(|x| ChildModel::Binding(x)) == of_kind(cs, ElementKind::Binding),
        parse_tokens(toks)->Ok_0.port_types.map_values(|x| ChildModel::PortType(x)) == of_kind(cs, ElementKind::PortType),
        parse_tokens(toks)->Ok_0.types.map_values(|x| ChildModel::Types(x)) == of_kind(cs, ElementKind::Types),
{
    reveal_strlit("definitions");
    lemma_root_from(toks, r, 0);
    lemma_siblings_in_order(toks, ElementKind::Definitions, starts, cs, ElementKind::Service);
    lemma_siblings_in_order(toks, ElementKind::Definitions, starts, cs, ElementKind::Message);
    lemma_siblings_in_order(toks, ElementKind::Definitions, starts, cs, ElementKind::Binding);
    lemma_siblings_in_order(toks, ElementKind::Definitions, starts, cs, ElementKind::PortType);
    lemma_siblings_in_order(toks, ElementKind::Definitions, starts, cs, ElementKind::Types);
}

/// A recognized child of the root that lacks a mandatory attribute, after
/// children that read without error, fails the whole document with that
/// error: no model is produced.
pub proof fn lemma_missing_attribute_fails_document(toks: Seq<XmlToken>, r: int, starts: Seq<int>, cs: Seq<ChildModel>, kind: ElementKind)
    requires
        root_at(toks, r),
        starts.len() > 0,
        starts[0] == r + 1,
        children_read(toks, ElementKind::Definitions, starts, cs),
        toks[starts.last()] is Start,
        recognized(ElementKind::Definitions, toks[starts.last()]->Start_name.namespace, toks[starts.last()]->Start_name.local_name) == Some(kind),
        mandatory_failure(kind, start_attrs(toks[starts.last()])) is Some,
    ensures
        parse_tokens(toks) == Err::<WsdlModel, ErrorModel>(mandatory_failure(kind, start_attrs(toks[starts.last()]))->Some_0),
{
    lemma_root_from(toks, r, 0);
    lemma_missing_attribute_aborts(toks, ElementKind::Definitions, starts, cs, empty_body(), kind);
}

} // verus!
