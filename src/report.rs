//! The claims report: every namespace of a document with its elements, one
//! line per element, leaving out the elements whose key is suppressed.
use vstd::prelude::*;

use crate::render::{convert_value_to_string, render};
use crate::value::{Document, Element, Namespace, TaggedValue};

verus! {

/// What `{:#?}` writes for a string: the text in double quotes, with its
/// special characters escaped. It depends on the characters alone.
pub uninterp spec fn debug_text(s: Seq<char>) -> Seq<char>;

/// Whether `key` is one of the `suppressed` field names.
pub open spec fn is_suppressed(key: Seq<char>, suppressed: Seq<String>) -> bool {
    exists|j: int| 0 <= j < suppressed.len() && (#[trigger] suppressed[j])@ == key
}

/// The report line of one element.
pub open spec fn element_line(key: Seq<char>, value: TaggedValue) -> Seq<char> {
    "  '"@ + key + "': "@ + render(value) + "\n"@
}

/// The lines of the elements whose key is not suppressed, in order.
pub open spec fn element_lines(elements: Seq<Element>, suppressed: Seq<String>) -> Seq<char>
    decreases elements.len(),
{
    if elements.len() == 0 {
        Seq::empty()
    } else {
        let e = elements.last();
        element_lines(elements.drop_last(), suppressed) + if is_suppressed(e.key@, suppressed) {
            Seq::empty()
        } else {
            element_line(e.key@, e.value)
        }
    }
}

/// The block of one namespace: its header with the quoted name, its element
/// lines, and a closing brace.
pub open spec fn namespace_block(
    quoted_name: Seq<char>,
    elements: Seq<Element>,
    suppressed: Seq<String>,
) -> Seq<char> {
    "namespace="@ + quoted_name + "\n{\n"@ + element_lines(elements, suppressed) + "}\n"@
}

/// The blocks of the namespaces, in order.
pub open spec fn namespace_blocks(namespaces: Seq<Namespace>, suppressed: Seq<String>) -> Seq<
    char,
>
    decreases namespaces.len(),
{
    if namespaces.len() == 0 {
        Seq::empty()
    } else {
        let ns = namespaces.last();
        namespace_blocks(namespaces.drop_last(), suppressed) + namespace_block(
            debug_text(ns.name@),
            ns.elements@,
            suppressed,
        )
    }
}

/// The whole claims report of a document: an empty line, then the block of
/// each namespace in document order.
pub open spec fn report_text(namespaces: Seq<Namespace>, suppressed: Seq<String>) -> Seq<char> {
    "\n"@ + namespace_blocks(namespaces, suppressed)
}

/// Relies on `<str as Debug>::fmt` in its alternate form, which quotes and
/// escapes a string as a function of its characters.
#[verifier::external_body]
fn debug_quoted(s: &str) -> (r: String)
    ensures
        r@ == debug_text(s@),
{
    format!("{:#?}", s)
}

/// The field names whose elements hold large image payloads and are left out
/// of a report by default: `portrait` and `portraits`.
pub fn bulky_fields() -> (r: Vec<String>)
    ensures
        r@.len() == 2,
        r@[0]@ == "portrait"@,
        r@[1]@ == "portraits"@,
{
    let mut r: Vec<String> = Vec::new();
    r.push(String::from_str("portrait"));
    r.push(String::from_str("portraits"));
    r
}

/// Whether `key` is one of the `suppressed` field names.
pub fn suppressed_key(key: &String, suppressed: &Vec<String>) -> (r: bool)
    ensures
        r == is_suppressed(key@, suppressed@),
{
    let mut i: usize = 0;
    while i < suppressed.len()
        invariant
            i <= suppressed@.len(),
            forall|j: int| 0 <= j < i ==> (#[trigger] suppressed@[j])@ != key@,
        decreases suppressed.len() - i,
    {
        if *key == suppressed[i] {
            return true;
        }
        i = i + 1;
    }
    false
}

/// The block of one namespace, under the header name `quoted_name` as it is
/// to be printed.
pub fn namespace_report(quoted_name: &str, ns: &Namespace, suppressed: &Vec<String>) -> (r: String)
    ensures
        r@ == namespace_block(quoted_name@, ns.elements@, suppressed@),
{
    let elements = &ns.elements;
    let mut lines = String::new();
    let mut i: usize = 0;
    while i < elements.len()
        invariant
            i <= elements@.len(),
            lines@ == element_lines(elements@.take(i as int), suppressed@),
        decreases elements.len() - i,
    {
        let e = &elements[i];
        assert(elements@.take(i + 1).drop_last() =~= elements@.take(i as int));
        if !suppressed_key(&e.key, suppressed) {
            let shown = convert_value_to_string(&e.value);
            lines.append("  '");
            lines.append(e.key.as_str());
            lines.append("': ");
            lines.append(shown.as_str());
            lines.append("\n");
        }
        i = i + 1;
    }
    assert(elements@.take(i as int) =~= elements@);
    let mut r = String::from_str("namespace=");
    r.append(quoted_name);
    r.append("\n{\n");
    r.append(lines.as_str());
    r.append("}\n");
    r
}

/// The claims report of a document, leaving out the elements whose key is
/// one of `suppressed`.
pub fn claims_report(doc: &Document, suppressed: &Vec<String>) -> (r: String)
    ensures
        r@ == report_text(doc.namespaces@, suppressed@),
{
    let namespaces = &doc.namespaces;
    let mut r = String::from_str("\n");
    let mut i: usize = 0;
    while i < namespaces.len()
        invariant
            i <= namespaces@.len(),
            r@ == report_text(namespaces@.take(i as int), suppressed@),
        decreases namespaces.len() - i,
    {
        let ns = &namespaces[i];
        let quoted = debug_quoted(ns.name.as_str());
        let block = namespace_report(quoted.as_str(), ns, suppressed);
        r.append(block.as_str());
        assert(namespaces@.take(i + 1).drop_last() =~= namespaces@.take(i as int));
        i = i + 1;
    }
    assert(namespaces@.take(i as int) =~= namespaces@);
    r
}

/// The names of a document's namespaces, in document order.
pub fn namespace_names(doc: &Document) -> (r: Vec<String>)
    ensures
        r@.len() == doc.namespaces@.len(),
        forall|i: int| 0 <= i < r@.len() ==> (#[trigger] r@[i])@ == doc.namespaces@[i].name@,
{
    let mut r: Vec<String> = Vec::new();
    let mut i: usize = 0;
    while i < doc.namespaces.len()
        invariant
            i <= doc.namespaces@.len(),
            r@.len() == i,
            forall|j: int| 0 <= j < i ==> (#[trigger] r@[j])@ == doc.namespaces@[j].name@,
        decreases doc.namespaces.len() - i,
    {
        r.push(doc.namespaces[i].name.clone());
        i = i + 1;
    }
    r
}

/// The keys of a namespace's elements, in document order, without their
/// values.
pub fn claim_keys(ns: &Namespace) -> (r: Vec<String>)
    ensures
        r@.len() == ns.elements@.len(),
        forall|i: int| 0 <= i < r@.len() ==> (#[trigger] r@[i])@ == ns.elements@[i].key@,
{
    let mut r: Vec<String> = Vec::new();
    let mut i: usize = 0;
    while i < ns.elements.len()
        invariant
            i <= ns.elements@.len(),
            r@.len() == i,
            forall|j: int| 0 <= j < i ==> (#[trigger] r@[j])@ == ns.elements@[j].key@,
        decreases ns.elements.len() - i,
    {
        r.push(ns.elements[i].key.clone());
        i = i + 1;
    }
    r
}

/// The elements whose key is not suppressed, in order.
pub open spec fn kept_elements(elements: Seq<Element>, suppressed: Seq<String>) -> Seq<Element> {
    elements.filter(is_kept(suppressed))
}

/// Whether an element's key is not suppressed.
pub open spec fn is_kept(suppressed: Seq<String>) -> spec_fn(Element) -> bool {
    |e: Element| !is_suppressed(e.key@, suppressed)
}

/// A suppressed element leaves no trace in a report, whatever its value: the
/// lines are those of the kept elements printed with nothing suppressed.
pub proof fn lemma_suppressed_elements_omitted(elements: Seq<Element>, suppressed: Seq<String>)
    ensures
        element_lines(elements, suppressed) == element_lines(
            kept_elements(elements, suppressed),
            Seq::empty(),
        ),
    decreases elements.len(),
{
    if elements.len() > 0 {
        let prev = elements.drop_last();
        let e = elements.last();
        lemma_suppressed_elements_omitted(prev, suppressed);
        let keep = is_kept(suppressed);
        reveal(Seq::filter);
        assert(elements.filter(keep) == if keep(e) {
            prev.filter(keep).push(e)
        } else {
            prev.filter(keep)
        });
        if !is_suppressed(e.key@, suppressed) {
            let kept = kept_elements(elements, suppressed);
            assert(kept == kept_elements(prev, suppressed).push(e));
            assert(kept.drop_last() =~= kept_elements(prev, suppressed));
            assert(!is_suppressed(e.key@, Seq::<String>::empty()));
        } else {
            assert(kept_elements(elements, suppressed) == kept_elements(prev, suppressed));
        }
    }
}

/// A namespace's block holds the lines of its kept elements only.
pub proof fn lemma_block_omits_suppressed(
    quoted_name: Seq<char>,
    elements: Seq<Element>,
    suppressed: Seq<String>,
)
    ensures
        namespace_block(quoted_name, elements, suppressed) == namespace_block(
            quoted_name,
            kept_elements(elements, suppressed),
            Seq::empty(),
        ),
{
    lemma_suppressed_elements_omitted(elements, suppressed);
}

/// Two namespaces are reported in the order they were supplied, each block
/// after the report of the one before.
pub proof fn lemma_namespace_order(a: Namespace, b: Namespace, suppressed: Seq<String>)
    ensures
        report_text(seq![a, b], suppressed) == "\n"@ + namespace_block(
            debug_text(a.name@),
            a.elements@,
            suppressed,
        ) + namespace_block(debug_text(b.name@), b.elements@, suppressed),
{
    let ns = seq![a, b];
    reveal_with_fuel(namespace_blocks, 3);
    assert(ns.drop_last() =~= seq![a]);
    assert(ns.drop_last().drop_last().len() == 0);
}

/// Within a namespace, the elements that are kept are printed in the order
/// they were supplied.
pub proof fn lemma_element_order(x: Element, y: Element, suppressed: Seq<String>)
    requires
        !is_suppressed(x.key@, suppressed),
        !is_suppressed(y.key@, suppressed),
    ensures
        element_lines(seq![x, y], suppressed) == element_line(x.key@, x.value) + element_line(
            y.key@,
            y.value,
        ),
{
    let e = seq![x, y];
    reveal_with_fuel(element_lines, 3);
    assert(e.drop_last() =~= seq![x]);
    assert(e.drop_last().drop_last().len() == 0);
}

} // verus!
