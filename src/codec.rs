//! The SOAP envelope codec: building request envelopes, and the textual
//! cleaning that makes response bodies searchable by bare tag name.
use vstd::prelude::*;
use crate::text::{chars_of, replace_all, replaced, string_of};
use crate::xml::{
    document_nodes, find_tag, find_tag_in, nodes_view, parse_nodes, subtree_end, subtree_end_of,
    NodeView, XmlNode,
};
use xml_builder::{XMLBuilder, XMLElement, XMLVersion};

verus! {

/// The attribute that declares the `u:` namespace of a service's responses.
pub open spec fn service_namespace_decl(service: Seq<char>) -> Seq<char> {
    "xmlns:u=\"urn:schemas-upnp-org:service:"@ + service + "\""@
}

/// The response element's name as the device sends it, and as cleaned.
pub open spec fn prefixed_response_tag(action: Seq<char>) -> Seq<char> {
    "u:"@ + action + "Response"@
}

pub open spec fn response_tag(action: Seq<char>) -> Seq<char> {
    action + "Response"@
}

/// The SOAP framing pass: `s:` prefixes on element tags, the envelope's
/// namespace and encoding-style declarations, and the service's namespace
/// declaration are removed, and `u:{action}Response` becomes
/// `{action}Response`, in that order.
pub open spec fn general_cleaned(xml: Seq<char>, action: Seq<char>, service: Seq<char>) -> Seq<
    char,
> {
    let a = replaced(xml, "<s:"@, "<"@);
    let b = replaced(a, "</s:"@, "</"@);
    let c = replaced(b, "xmlns:s=\"http://schemas.xmlsoap.org/soap/envelope/\""@, ""@);
    let d = replaced(c, "s:encodingStyle=\"http://schemas.xmlsoap.org/soap/encoding/\""@, ""@);
    let e = replaced(d, service_namespace_decl(service), ""@);
    replaced(e, prefixed_response_tag(action), response_tag(action))
}

/// The entity pass: `&quot;`, `&lt;` and `&gt;` become the characters they
/// stand for, in that order.
pub open spec fn entities_unescaped(xml: Seq<char>) -> Seq<char> {
    let a = replaced(xml, "&quot;"@, "\""@);
    let b = replaced(a, "&lt;"@, "<"@);
    replaced(b, "&gt;"@, ">"@)
}

/// The metadata pass: entities are unescaped, then the metadata namespace
/// declarations and the `dc:`, `upnp:` and `r:` tag prefixes are removed, in
/// that order.
pub open spec fn metadata_cleaned(xml: Seq<char>) -> Seq<char> {
    let a = entities_unescaped(xml);
    let b = replaced(a, "xmlns:dc=\"http://purl.org/dc/elements/1.1/\""@, ""@);
    let c = replaced(b, "xmlns:upnp=\"urn:schemas-upnp-org:metadata-1-0/upnp/\""@, ""@);
    let d = replaced(c, "xmlns:r=\"urn:schemas-rinconnetworks-com:metadata-1-0/\""@, ""@);
    let e = replaced(d, "xmlns=\"urn:schemas-upnp-org:metadata-1-0/DIDL-Lite/\""@, ""@);
    let f = replaced(e, "<dc:"@, "<"@);
    let g = replaced(f, "<upnp:"@, "<"@);
    let h = replaced(g, "<r:"@, "<"@);
    let i = replaced(h, "</dc:"@, "</"@);
    let j = replaced(i, "</upnp:"@, "</"@);
    replaced(j, "</r:"@, "</"@)
}

fn swap_literal(s: &Vec<char>, pat: &str, rep: &str) -> (r: Vec<char>)
    requires
        pat@.len() > 0,
    ensures
        r@ == replaced(s@, pat@, rep@),
{
    replace_all(s, &chars_of(pat), &chars_of(rep))
}

/// The SOAP framing pass of a response to `action_name` on the service named
/// `service_name` (see [`general_cleaned`]).
pub fn general_clean(xml: String, action_name: &str, service_name: &str) -> (r: String)
    ensures
        r@ == general_cleaned(xml@, action_name@, service_name@),
{
    proof {
        reveal_strlit("<s:");
        reveal_strlit("</s:");
        reveal_strlit("xmlns:s=\"http://schemas.xmlsoap.org/soap/envelope/\"");
        reveal_strlit("s:encodingStyle=\"http://schemas.xmlsoap.org/soap/encoding/\"");
        reveal_strlit("xmlns:u=\"urn:schemas-upnp-org:service:");
        reveal_strlit("u:");
    }
    let s = chars_of(xml.as_str());
    let s = swap_literal(&s, "<s:", "<");
    let s = swap_literal(&s, "</s:", "</");
    let s = swap_literal(&s, "xmlns:s=\"http://schemas.xmlsoap.org/soap/envelope/\"", "");
    let s = swap_literal(&s, "s:encodingStyle=\"http://schemas.xmlsoap.org/soap/encoding/\"", "");
    let mut decl = String::from_str("xmlns:u=\"urn:schemas-upnp-org:service:");
    decl.append(service_name);
    decl.append("\"");
    let s = replace_all(&s, &chars_of(decl.as_str()), &Vec::new());
    let mut old_tag = String::from_str("u:");
    old_tag.append(action_name);
    old_tag.append("Response");
    let mut new_tag = String::from_str(action_name);
    new_tag.append("Response");
    let s = replace_all(&s, &chars_of(old_tag.as_str()), &chars_of(new_tag.as_str()));
    assert(Seq::<char>::empty() == ""@) by {
        reveal_strlit("");
    }
    string_of(s.as_slice())
}

/// The entity pass of a response body (see [`entities_unescaped`]).
pub fn ampersands_to_tags(xml: String) -> (r: String)
    ensures
        r@ == entities_unescaped(xml@),
{
    proof {
        reveal_strlit("&quot;");
        reveal_strlit("&lt;");
        reveal_strlit("&gt;");
    }
    let s = chars_of(xml.as_str());
    let s = swap_literal(&s, "&quot;", "\"");
    let s = swap_literal(&s, "&lt;", "<");
    let s = swap_literal(&s, "&gt;", ">");
    string_of(s.as_slice())
}

/// The metadata pass of a response body (see [`metadata_cleaned`]).
pub fn clean_meta_data(xml: String) -> (r: String)
    ensures
        r@ == metadata_cleaned(xml@),
{
    proof {
        reveal_strlit("xmlns:dc=\"http://purl.org/dc/elements/1.1/\"");
        reveal_strlit("xmlns:upnp=\"urn:schemas-upnp-org:metadata-1-0/upnp/\"");
        reveal_strlit("xmlns:r=\"urn:schemas-rinconnetworks-com:metadata-1-0/\"");
        reveal_strlit("xmlns=\"urn:schemas-upnp-org:metadata-1-0/DIDL-Lite/\"");
        reveal_strlit("<dc:");
        reveal_strlit("<upnp:");
        reveal_strlit("<r:");
        reveal_strlit("</dc:");
        reveal_strlit("</upnp:");
        reveal_strlit("</r:");
    }
    let s = chars_of(ampersands_to_tags(xml).as_str());
    let s = swap_literal(&s, "xmlns:dc=\"http://purl.org/dc/elements/1.1/\"", "");
    let s = swap_literal(&s, "xmlns:upnp=\"urn:schemas-upnp-org:metadata-1-0/upnp/\"", "");
    let s = swap_literal(&s, "xmlns:r=\"urn:schemas-rinconnetworks-com:metadata-1-0/\"", "");
    let s = swap_literal(&s, "xmlns=\"urn:schemas-upnp-org:metadata-1-0/DIDL-Lite/\"", "");
    let s = swap_literal(&s, "<dc:", "<");
    let s = swap_literal(&s, "<upnp:", "<");
    let s = swap_literal(&s, "<r:", "<");
    let s = swap_literal(&s, "</dc:", "</");
    let s = swap_literal(&s, "</upnp:", "</");
    let s = swap_literal(&s, "</r:", "</");
    string_of(s.as_slice())
}

/// What an element holds, as `xml_builder` keeps it.
pub enum ContentTree {
    Empty,
    Text(Seq<char>),
    Elements(Seq<ElementTree>),
}

/// An element as `xml_builder` keeps it: its name, its attributes in the
/// order they were added (values as stored), and its content.
pub struct ElementTree {
    pub name: Seq<char>,
    pub attributes: Seq<(Seq<char>, Seq<char>)>,
    pub content: ContentTree,
}

/// What an `xml_builder` element holds.
pub uninterp spec fn element_tree(e: XMLElement) -> ElementTree;

/// The bytes of an XML 1.1 document with the given encoding and root.
pub uninterp spec fn rendered_document(root: ElementTree, encoding: Seq<char>) -> Seq<u8>;

/// An attribute value as `xml_builder` stores it: `&`, `"`, `'`, `<` and `>`
/// replaced by their entities, in that order.
pub open spec fn attribute_escaped(v: Seq<char>) -> Seq<char> {
    let a = replaced(v, "&"@, "&amp;"@);
    let b = replaced(a, "\""@, "&quot;"@);
    let c = replaced(b, "'"@, "&apos;"@);
    let d = replaced(c, "<"@, "&lt;"@);
    replaced(d, ">"@, "&gt;"@)
}

/// Element text as the envelope carries it: `&`, `<` and `>` replaced by
/// their entities, in that order.
pub open spec fn text_escaped(v: Seq<char>) -> Seq<char> {
    let a = replaced(v, "&"@, "&amp;"@);
    let b = replaced(a, "<"@, "&lt;"@);
    replaced(b, ">"@, "&gt;"@)
}

/// Whether `v` holds none of the characters that attribute escaping rewrites.
pub open spec fn free_of_markup(v: Seq<char>) -> bool {
    forall|i: int|
        0 <= i < v.len() ==> #[trigger] v[i] != '&' && v[i] != '"' && v[i] != '\'' && v[i] != '<'
            && v[i] != '>'
}

proof fn lemma_replace_absent(s: Seq<char>, c: char, rep: Seq<char>)
    requires
        forall|i: int| 0 <= i < s.len() ==> #[trigger] s[i] != c,
    ensures
        replaced(s, seq![c], rep) == s,
    decreases s.len(),
{
    if s.len() >= 1 {
        assert(s.subrange(0, 1)[0] == s[0]);
        let t = s.drop_first();
        assert forall|i: int| 0 <= i < t.len() implies #[trigger] t[i] != c by {
            assert(t[i] == s[i + 1]);
        }
        lemma_replace_absent(t, c, rep);
        assert(seq![s[0]] + t =~= s);
    }
}

/// A value free of markup is stored as it is.
pub proof fn lemma_markup_free_unescaped(v: Seq<char>)
    requires
        free_of_markup(v),
    ensures
        attribute_escaped(v) == v,
{
    reveal_strlit("&");
    reveal_strlit("\"");
    reveal_strlit("'");
    reveal_strlit("<");
    reveal_strlit(">");
    assert("&"@ =~= seq!['&']);
    assert("\""@ =~= seq!['"']);
    assert("'"@ =~= seq!['\'']);
    assert("<"@ =~= seq!['<']);
    assert(">"@ =~= seq!['>']);
    lemma_replace_absent(v, '&', "&amp;"@);
    lemma_replace_absent(v, '"', "&quot;"@);
    lemma_replace_absent(v, '\'', "&apos;"@);
    lemma_replace_absent(v, '<', "&lt;"@);
    lemma_replace_absent(v, '>', "&gt;"@);
}

/// The element type of `xml_builder`, held opaque.
#[verifier::external_type_specification]
#[verifier::external_body]
pub struct ExXMLElement(xml_builder::XMLElement);

/// Relies on `XMLElement::new`: an element with the given name, no
/// attributes and no content.
#[verifier::external_body]
fn new_element(name: &str) -> (r: XMLElement)
    ensures
        element_tree(r) == (ElementTree {
            name: name@,
            attributes: Seq::empty(),
            content: ContentTree::Empty,
        }),
{
    XMLElement::new(name)
}

/// Relies on `XMLElement::add_attribute`: appends the pair, the value passed
/// through `escape_str` (five `str::replace` passes, see [`attribute_escaped`]).
#[verifier::external_body]
fn add_attribute(e: &mut XMLElement, name: &str, value: &str)
    ensures
        element_tree(*final(e)) == (ElementTree {
            attributes: element_tree(*old(e)).attributes.push(
                (name@, attribute_escaped(value@)),
            ),
            ..element_tree(*old(e))
        }),
{
    e.add_attribute(name, value)
}

/// Relies on `XMLElement::add_text`: an empty element takes the text; any
/// other is refused and left unchanged.
#[verifier::external_body]
fn add_text(e: &mut XMLElement, text: String) -> (r: Result<(), String>)
    ensures
        element_tree(*old(e)).content is Empty ==> r is Ok && element_tree(*final(e)) == (
        ElementTree { content: ContentTree::Text(text@), ..element_tree(*old(e)) }),
        !(element_tree(*old(e)).content is Empty) ==> r is Err && *final(e) == *old(e),
{
    e.add_text(text).map_err(|err| err.to_string())
}

/// Relies on `XMLElement::add_child`: the child is appended to the element's
/// children; an element that holds text refuses it and is left unchanged.
#[verifier::external_body]
fn add_child(e: &mut XMLElement, child: XMLElement) -> (r: Result<(), String>)
    ensures
        match element_tree(*old(e)).content {
            ContentTree::Empty => r is Ok && element_tree(*final(e)) == (ElementTree {
                content: ContentTree::Elements(seq![element_tree(child)]),
                ..element_tree(*old(e))
            }),
            ContentTree::Elements(cs) => r is Ok && element_tree(*final(e)) == (ElementTree {
                content: ContentTree::Elements(cs.push(element_tree(child))),
                ..element_tree(*old(e))
            }),
            ContentTree::Text(_) => r is Err && *final(e) == *old(e),
        },
{
    e.add_child(child).map_err(|err| err.to_string())
}

/// Relies on `XMLBuilder` and `XML::generate`: an XML 1.1 document with the
/// given encoding and root element, written into a byte vector. Generation
/// fails only where the writer fails, and writing into a `Vec<u8>` does not.
#[verifier::external_body]
fn render_document(root: XMLElement, encoding: &str) -> (r: Result<Vec<u8>, String>)
    ensures
        r is Ok,
        r matches Ok(b) ==> b@ == rendered_document(element_tree(root), encoding@),
{
    let mut doc = XMLBuilder::new().version(XMLVersion::XML1_1).encoding(encoding.to_string()).build();
    doc.set_root_element(root);
    let mut out: Vec<u8> = Vec::new();
    doc.generate(&mut out).map_err(|err| err.to_string())?;
    Ok(out)
}

/// The namespace of a service's actions.
pub open spec fn service_namespace(service: Seq<char>) -> Seq<char> {
    "urn:schemas-upnp-org:service:"@ + service
}

/// An element named `name` holding the text `text`, escaped.
pub open spec fn text_element(name: Seq<char>, text: Seq<char>) -> ElementTree {
    ElementTree { name, attributes: Seq::empty(), content: ContentTree::Text(text_escaped(text)) }
}

/// One text element per argument, in order.
pub open spec fn argument_elements(args: Seq<(Seq<char>, Seq<char>)>) -> Seq<ElementTree> {
    args.map_values(|a: (Seq<char>, Seq<char>)| text_element(a.0, a.1))
}

/// The action element `u:{action}`, namespaced to its service, holding one
/// element per argument in order.
pub open spec fn action_element(
    action: Seq<char>,
    service: Seq<char>,
    args: Seq<(Seq<char>, Seq<char>)>,
) -> ElementTree {
    ElementTree {
        name: "u:"@ + action,
        attributes: seq![("xmlns:u"@, attribute_escaped(service_namespace(service)))],
        content: if args.len() == 0 {
            ContentTree::Empty
        } else {
            ContentTree::Elements(argument_elements(args))
        },
    }
}

/// The SOAP 1.1 envelope of a request: `s:Envelope` holding `s:Body` holding
/// the action element.
pub open spec fn envelope_tree(
    action: Seq<char>,
    service: Seq<char>,
    args: Seq<(Seq<char>, Seq<char>)>,
) -> ElementTree {
    ElementTree {
        name: "s:Envelope"@,
        attributes: seq![
            ("xmlns:s"@, attribute_escaped("http://schemas.xmlsoap.org/soap/envelope/"@)),
            ("s:encodingStyle"@, attribute_escaped("http://schemas.xmlsoap.org/soap/encoding/"@)),
        ],
        content: ContentTree::Elements(
            seq![
                ElementTree {
                    name: "s:Body"@,
                    attributes: Seq::empty(),
                    content: ContentTree::Elements(seq![action_element(action, service, args)]),
                },
            ],
        ),
    }
}

/// Escapes element text (see [`text_escaped`]).
pub fn escape_text(v: &str) -> (r: String)
    ensures
        r@ == text_escaped(v@),
{
    proof {
        reveal_strlit("&");
        reveal_strlit("<");
        reveal_strlit(">");
    }
    let s = chars_of(v);
    let s = swap_literal(&s, "&", "&amp;");
    let s = swap_literal(&s, "<", "&lt;");
    let s = swap_literal(&s, ">", "&gt;");
    string_of(s.as_slice())
}

/// The request body for `action` on the service named `service`: the
/// envelope of [`envelope_tree`], argument values escaped, rendered as a
/// UTF-8 declared XML 1.1 document. Building it always succeeds.
pub fn generate_xml(action: &str, service: &str, arguments: &Vec<(String, String)>) -> (r: Result<
    Vec<u8>,
    String,
>)
    ensures
        r matches Ok(b) && b@ == rendered_document(
            envelope_tree(action@, service@, arguments.deep_view()),
            "UTF-8"@,
        ),
{
    let ghost args = arguments.deep_view();
    let mut envelope = new_element("s:Envelope");
    add_attribute(&mut envelope, "xmlns:s", "http://schemas.xmlsoap.org/soap/envelope/");
    add_attribute(&mut envelope, "s:encodingStyle", "http://schemas.xmlsoap.org/soap/encoding/");
    let mut body = new_element("s:Body");
    let mut name = String::from_str("u:");
    name.append(action);
    let mut namespace = String::from_str("urn:schemas-upnp-org:service:");
    namespace.append(service);
    let mut action_el = new_element(name.as_str());
    add_attribute(&mut action_el, "xmlns:u", namespace.as_str());
    assert(element_tree(action_el).attributes =~= seq![
        ("xmlns:u"@, attribute_escaped(service_namespace(service@))),
    ]);
    let mut i: usize = 0;
    while i < arguments.len()
        invariant
            i <= arguments@.len(),
            args == arguments.deep_view(),
            element_tree(action_el) == action_element(
                action@,
                service@,
                args.subrange(0, i as int),
            ),
        decreases arguments@.len() - i,
    {
        let mut child = new_element(arguments[i].0.as_str());
        let _ = add_text(&mut child, escape_text(arguments[i].1.as_str()));
        let _ = add_child(&mut action_el, child);
        proof {
            let prefix = args.subrange(0, i as int);
            let next = args.subrange(0, i + 1);
            assert(next =~= prefix.push(args[i as int]));
            assert(argument_elements(next) =~= argument_elements(prefix).push(
                text_element(args[i as int].0, args[i as int].1),
            ));
            if i == 0 {
                assert(argument_elements(next) =~= seq![
                    text_element(args[i as int].0, args[i as int].1),
                ]);
            }
        }
        i = i + 1;
    }
    proof {
        assert(args.subrange(0, i as int) =~= args);
    }
    let _ = add_child(&mut body, action_el);
    let _ = add_child(&mut envelope, body);
    assert(element_tree(envelope).attributes =~= envelope_tree(
        action@,
        service@,
        args,
    ).attributes);
    assert(element_tree(envelope) =~= envelope_tree(action@, service@, args));
    render_document(envelope, "UTF-8")
}

/// The shape of every request envelope: `s:Envelope` holds exactly one
/// `s:Body`, which holds exactly one action element named `u:{action}` and
/// namespaced to its service (the namespace as given when the service name is
/// free of markup), whose children are one text element per argument, named
/// by the argument's key and holding its value, in the arguments' order.
pub proof fn lemma_envelope_shape(
    action: Seq<char>,
    service: Seq<char>,
    args: Seq<(Seq<char>, Seq<char>)>,
)
    ensures
        envelope_tree(action, service, args).name == "s:Envelope"@,
        envelope_tree(action, service, args).content matches ContentTree::Elements(body) && body.len()
            == 1 && body[0].name == "s:Body"@ && (body[0].content matches ContentTree::Elements(inner)
            && inner.len() == 1 && inner[0] == action_element(action, service, args)),
        action_element(action, service, args).name == "u:"@ + action,
        action_element(action, service, args).attributes.len() == 1,
        action_element(action, service, args).attributes[0].0 == "xmlns:u"@,
        free_of_markup(service) ==> action_element(action, service, args).attributes[0].1
            == service_namespace(service),
        args.len() == 0 ==> action_element(action, service, args).content is Empty,
        args.len() > 0 ==> (action_element(action, service, args).content matches ContentTree::Elements(
            children,
        ) && children.len() == args.len() && forall|i: int|
            0 <= i < args.len() ==> #[trigger] children[i] == text_element(args[i].0, args[i].1)),
{
    if free_of_markup(service) {
        let prefix = "urn:schemas-upnp-org:service:"@;
        reveal_strlit("urn:schemas-upnp-org:service:");
        let ns = service_namespace(service);
        assert forall|i: int| 0 <= i < ns.len() implies #[trigger] ns[i] != '&' && ns[i] != '"'
            && ns[i] != '\'' && ns[i] != '<' && ns[i] != '>' by {
            if i >= prefix.len() {
                assert(ns[i] == service[i - prefix.len()]);
            }
        }
        lemma_markup_free_unescaped(ns);
    }
}

/// The index of the first element among the nodes at `lo .. hi`.
pub open spec fn first_element(nodes: Seq<NodeView>, lo: int, hi: int) -> Option<int>
    decreases hi - lo,
{
    if lo < 0 || lo >= hi || lo >= nodes.len() {
        None
    } else if nodes[lo].is_element {
        Some(lo)
    } else {
        first_element(nodes, lo + 1, hi)
    }
}

/// The index after the subtree of node `j`, and at least `j + 1`.
pub open spec fn next_sibling_index(nodes: Seq<NodeView>, j: int) -> int {
    if subtree_end(nodes, j) > j {
        subtree_end(nodes, j)
    } else {
        j + 1
    }
}

/// The elements at `j .. hi` that are not inside another one of them, as
/// (local name, text) pairs in document order; an element without text
/// holds the empty text.
pub open spec fn child_elements(nodes: Seq<NodeView>, j: int, hi: int) -> Seq<
    (Seq<char>, Seq<char>),
>
    decreases nodes.len() - j,
{
    if j < 0 || j >= hi || j >= nodes.len() {
        Seq::empty()
    } else if nodes[j].is_element {
        seq![
            (
                nodes[j].name,
                match nodes[j].text {
                    Some(t) => t,
                    None => Seq::empty(),
                },
            ),
        ] + child_elements(nodes, next_sibling_index(nodes, j), hi)
    } else {
        child_elements(nodes, j + 1, hi)
    }
}

/// The action name and arguments of a parsed request envelope: the first
/// element inside `Body` is the action, and its child elements are the
/// arguments.
pub open spec fn request_of(nodes: Seq<NodeView>) -> Option<
    (Seq<char>, Seq<(Seq<char>, Seq<char>)>),
> {
    match find_tag(nodes, "Body"@, 0, nodes.len() as int) {
        Some(b) => match first_element(nodes, b + 1, subtree_end(nodes, b)) {
            Some(a) => Some((nodes[a].name, child_elements(nodes, a + 1, subtree_end(nodes, a)))),
            None => None,
        },
        None => None,
    }
}

fn first_element_in(nodes: &Vec<XmlNode>, lo: usize, hi: usize) -> (r: Option<usize>)
    ensures
        match r {
            Some(i) => first_element(nodes_view(nodes@), lo as int, hi as int) == Some(i as int)
                && i < nodes@.len(),
            None => first_element(nodes_view(nodes@), lo as int, hi as int) is None,
        },
{
    let ghost view = nodes_view(nodes@);
    let mut i: usize = lo;
    while i < hi && i < nodes.len()
        invariant
            lo <= i,
            view == nodes_view(nodes@),
            first_element(view, lo as int, hi as int) == first_element(view, i as int, hi as int),
        decreases hi - i,
    {
        assert(view[i as int] == nodes@[i as int]@);
        if nodes[i].is_element {
            return Some(i);
        }
        i = i + 1;
    }
    None
}

/// Reads the action name and arguments back from a parsed request envelope.
pub fn request_from_nodes(nodes: &Vec<XmlNode>) -> (r: Result<(String, Vec<(String, String)>), String>)
    ensures
        match request_of(nodes_view(nodes@)) {
            Some((name, args)) => r matches Ok((n, a)) && n@ == name && a.deep_view() == args,
            None => r is Err,
        },
{
    let ghost view = nodes_view(nodes@);
    assert(view.len() == nodes@.len());
    let b = match find_tag_in(nodes, "Body", 0, nodes.len()) {
        Some(b) => b,
        None => return Err(String::from_str("'Body' tag not found")),
    };
    let body_end = subtree_end_of(nodes, b);
    let a = match first_element_in(nodes, b + 1, body_end) {
        Some(a) => a,
        None => return Err(String::from_str("No action element found")),
    };
    let end = subtree_end_of(nodes, a);
    let mut args: Vec<(String, String)> = Vec::new();
    let mut j: usize = a + 1;
    assert(args.deep_view() + child_elements(view, j as int, end as int) =~= child_elements(
        view,
        j as int,
        end as int,
    ));
    while j < end
        invariant
            a < j <= nodes@.len(),
            end <= nodes@.len(),
            view == nodes_view(nodes@),
            view.len() == nodes@.len(),
            args.deep_view() + child_elements(view, j as int, end as int) == child_elements(
                view,
                a + 1,
                end as int,
            ),
        decreases nodes@.len() - j,
    {
        let ghost before = args.deep_view();
        assert(view[j as int] == nodes@[j as int]@);
        if nodes[j].is_element {
            let text = match &nodes[j].text {
                Some(t) => t.clone(),
                None => String::new(),
            };
            args.push((nodes[j].name.clone(), text));
            let next = subtree_end_of(nodes, j);
            let next = if next > j {
                next
            } else {
                j + 1
            };
            proof {
                let pair = (
                    view[j as int].name,
                    match view[j as int].text {
                        Some(t) => t,
                        None => Seq::empty(),
                    },
                );
                assert(args.deep_view() =~= before.push(pair));
                assert(before + child_elements(view, j as int, end as int) =~= args.deep_view()
                    + child_elements(view, next as int, end as int));
            }
            j = next;
        } else {
            j = j + 1;
        }
    }
    assert(child_elements(view, j as int, end as int) =~= Seq::empty());
    assert(args.deep_view() + Seq::<(Seq<char>, Seq<char>)>::empty() =~= args.deep_view());
    Ok((nodes[a].name.clone(), args))
}

/// Decodes a request envelope: the action name and its arguments in order.
/// Elements are matched by local name, so namespace prefixes need no
/// cleaning here.
pub fn decode_envelope(xml: &str) -> (r: Result<(String, Vec<(String, String)>), String>)
    ensures
        match document_nodes(xml@) {
            Some(nodes) => match request_of(nodes) {
                Some((name, args)) => r matches Ok((n, a)) && n@ == name && a.deep_view() == args,
                None => r is Err,
            },
            None => r is Err,
        },
{
    match parse_nodes(xml) {
        Ok(nodes) => request_from_nodes(&nodes),
        Err(e) => Err(e),
    }
}

} // verus!
