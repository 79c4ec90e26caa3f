//! Tree-to-markup writer.
//!
//! A value that can describe itself as a tagged node gives its attributes and
//! writes its inner content; the writer frames both with a start and an end
//! tag. Children appear in the order in which the node writes them. Tag names
//! are taken as they are: the caller supplies valid ones.

use vstd::prelude::*;
use vstd::string::StringExecFns;

verus! {

/// What stands in the document for one character of plain text.
pub open spec fn escaped_char(c: char) -> Seq<char> {
    if c == '<' {
        seq!['&', 'l', 't', ';']
    } else if c == '>' {
        seq!['&', 'g', 't', ';']
    } else if c == '\'' {
        seq!['&', 'a', 'p', 'o', 's', ';']
    } else if c == '&' {
        seq!['&', 'a', 'm', 'p', ';']
    } else if c == '"' {
        seq!['&', 'q', 'u', 'o', 't', ';']
    } else {
        seq![c]
    }
}

/// Plain text with each of the five special characters replaced by its entity.
pub open spec fn escaped_text(s: Seq<char>) -> Seq<char>
    decreases s.len(),
{
    if s.len() == 0 {
        Seq::empty()
    } else {
        escaped_text(s.drop_last()) + escaped_char(s.last())
    }
}

/// One attribute inside a start tag; `value` stands between the quotes as it is.
pub open spec fn attribute(name: Seq<char>, value: Seq<char>) -> Seq<char> {
    " "@ + name + "=\""@ + value + "\""@
}

/// The attributes of a start tag, each value escaped, in the order given.
pub open spec fn attributes(props: Seq<(Seq<char>, Seq<char>)>) -> Seq<char>
    decreases props.len(),
{
    if props.len() == 0 {
        Seq::empty()
    } else {
        attributes(props.drop_last()) + attribute(props.last().0, escaped_text(props.last().1))
    }
}

/// `<tag` followed by the attribute text and `>`.
pub open spec fn start_tag(tag: Seq<char>, attrs: Seq<char>) -> Seq<char> {
    "<"@ + tag + attrs + ">"@
}

/// `</tag>`.
pub open spec fn end_tag(tag: Seq<char>) -> Seq<char> {
    "</"@ + tag + ">"@
}

/// A whole element: start tag with attributes, inner content, matching end tag.
#[verifier::opaque]
pub open spec fn element(
    tag: Seq<char>,
    props: Seq<(Seq<char>, Seq<char>)>,
    inner: Seq<char>,
) -> Seq<char> {
    start_tag(tag, attributes(props)) + inner + end_tag(tag)
}

/// Text embedded as an opaque literal block.
pub open spec fn cdata_section(text: Seq<char>) -> Seq<char> {
    "<![CDATA["@ + text + "]]>"@
}

/// An element without attributes whose content is one literal block.
#[verifier::opaque]
pub open spec fn cdata_element(tag: Seq<char>, text: Seq<char>) -> Seq<char> {
    start_tag(tag, Seq::empty()) + cdata_section(text) + end_tag(tag)
}

/// The text of a string that may be absent: an absent one reads as empty.
pub open spec fn text_or_empty(v: Option<String>) -> Seq<char> {
    match v {
        Some(s) => s@,
        None => Seq::empty(),
    }
}

/// The character of one decimal digit.
pub open spec fn digit(d: int) -> char {
    if d == 0 {
        '0'
    } else if d == 1 {
        '1'
    } else if d == 2 {
        '2'
    } else if d == 3 {
        '3'
    } else if d == 4 {
        '4'
    } else if d == 5 {
        '5'
    } else if d == 6 {
        '6'
    } else if d == 7 {
        '7'
    } else if d == 8 {
        '8'
    } else {
        '9'
    }
}

/// A natural number in decimal, without leading zeros.
pub open spec fn decimal(n: nat) -> Seq<char>
    decreases n,
{
    if n < 10 {
        seq![digit(n as int)]
    } else {
        decimal(n / 10).push(digit((n % 10) as int))
    }
}

/// An integer in decimal, with a minus sign in front of a negative one.
pub open spec fn signed_decimal(v: int) -> Seq<char> {
    if v < 0 {
        seq!['-'] + decimal((-v) as nat)
    } else {
        decimal(v as nat)
    }
}

/// Calls `quick_xml::escape::escape` on the UTF-8 bytes of `raw` and reads the
/// result back as text. That function copies its input and puts `&lt;`, `&gt;`,
/// `&apos;`, `&amp;` and `&quot;` in place of the five special bytes; all of
/// them are ASCII, so whole characters are replaced and the result is UTF-8
/// again.
#[verifier::external_body]
fn escape_markup(raw: &str) -> (r: String)
    ensures
        r@ == escaped_text(raw@),
{
    let escaped = quick_xml::escape::escape(raw.as_bytes());
    String::from_utf8_lossy(&escaped).into_owned()
}

fn digit_str(d: u64) -> (s: &'static str)
    requires
        d < 10,
    ensures
        s@ == seq![digit(d as int)],
{
    proof {
        reveal_strlit("0");
        reveal_strlit("1");
        reveal_strlit("2");
        reveal_strlit("3");
        reveal_strlit("4");
        reveal_strlit("5");
        reveal_strlit("6");
        reveal_strlit("7");
        reveal_strlit("8");
        reveal_strlit("9");
    }
    if d == 0 {
        "0"
    } else if d == 1 {
        "1"
    } else if d == 2 {
        "2"
    } else if d == 3 {
        "3"
    } else if d == 4 {
        "4"
    } else if d == 5 {
        "5"
    } else if d == 6 {
        "6"
    } else if d == 7 {
        "7"
    } else if d == 8 {
        "8"
    } else {
        "9"
    }
}

fn append_decimal(out: &mut String, n: u64)
    ensures
        final(out)@ == old(out)@ + decimal(n as nat),
    decreases n,
{
    if n >= 10 {
        append_decimal(out, n / 10);
    }
    out.append(digit_str(n % 10));
}

/// A scalar that renders as text.
pub trait LeafValue {
    /// The text of the value.
    spec fn spec_text(&self) -> Seq<char>;

    fn text(&self) -> (s: String)
        ensures
            s@ == self.spec_text(),
    ;
}

impl LeafValue for i64 {
    open spec fn spec_text(&self) -> Seq<char> {
        signed_decimal(*self as int)
    }

    fn text(&self) -> (s: String) {
        let mut s = String::new();
        if *self < 0 {
            proof {
                reveal_strlit("-");
            }
            s.append("-");
            let below: i64 = -(*self + 1);
            append_decimal(&mut s, below as u64 + 1);
        } else {
            append_decimal(&mut s, *self as u64);
        }
        s
    }
}

impl LeafValue for u64 {
    open spec fn spec_text(&self) -> Seq<char> {
        decimal(*self as nat)
    }

    fn text(&self) -> (s: String) {
        let mut s = String::new();
        append_decimal(&mut s, *self);
        s
    }
}

impl LeafValue for String {
    open spec fn spec_text(&self) -> Seq<char> {
        self@
    }

    fn text(&self) -> (s: String) {
        self.clone()
    }
}

impl<'a> LeafValue for &'a str {
    open spec fn spec_text(&self) -> Seq<char> {
        self@
    }

    fn text(&self) -> (s: String) {
        String::from_str(*self)
    }
}

/// A value that can be written as a tagged node.
pub trait WriteXml {
    /// The attributes of the node's start tag, by name and unescaped value.
    spec fn spec_props(&self) -> Seq<(Seq<char>, Seq<char>)>;

    /// The markup between the node's start and end tags.
    spec fn spec_inner(&self) -> Seq<char>;

    /// Appends the node's inner content.
    fn write_inner(&self, out: &mut String)
        ensures
            final(out)@ == old(out)@ + self.spec_inner(),
    ;

    /// The attributes of the node's start tag.
    fn props(&self) -> (r: Vec<(&str, &str)>)
        ensures
            r.deep_view() == self.spec_props(),
    ;

    /// Appends the node as one element named `tag_name`.
    fn tagged(&self, out: &mut String, tag_name: &str)
        ensures
            final(out)@ == old(out)@ + element(tag_name@, self.spec_props(), self.spec_inner()),
    {
        let props = self.props();
        out.append("<");
        out.append(tag_name);
        let ghost before = out@;
        let mut i: usize = 0;
        while i < props.len()
            invariant
                i <= props.len(),
                out@ == before + attributes(props.deep_view().take(i as int)),
            decreases props.len() - i,
        {
            let (name, value) = props[i];
            let escaped = escape_markup(value);
            proof {
                let seen = props.deep_view().take(i + 1);
                assert(seen.drop_last() =~= props.deep_view().take(i as int));
            }
            out.append(" ");
            out.append(name);
            out.append("=\"");
            out.append(escaped.as_str());
            out.append("\"");
            i += 1;
        }
        proof {
            assert(props.deep_view().take(i as int) =~= props.deep_view());
        }
        out.append(">");
        self.write_inner(out);
        out.append("</");
        out.append(tag_name);
        out.append(">");
        proof {
            reveal(element);
        }
    }
}

/// A value that can be written as a literal block.
pub trait Cdata: WriteXml {
    /// The text of the block.
    spec fn spec_raw(&self) -> Seq<char>;

    /// Appends the value as a literal block.
    fn cdata(&self, out: &mut String)
        ensures
            final(out)@ == old(out)@ + cdata_section(self.spec_raw()),
    ;

    /// Appends an element named `tag_name` that holds the value as a literal
    /// block.
    fn cdata_tag(&self, out: &mut String, tag_name: &str)
        ensures
            final(out)@ == old(out)@ + cdata_element(tag_name@, self.spec_raw()),
    {
        reveal(cdata_element);
        out.append("<");
        out.append(tag_name);
        out.append(">");
        self.cdata(out);
        out.append("</");
        out.append(tag_name);
        out.append(">");
    }
}

impl<T: LeafValue> WriteXml for T {
    open spec fn spec_props(&self) -> Seq<(Seq<char>, Seq<char>)> {
        Seq::empty()
    }

    open spec fn spec_inner(&self) -> Seq<char> {
        escaped_text(self.spec_text())
    }

    fn write_inner(&self, out: &mut String) {
        let plain = self.text();
        let escaped = escape_markup(plain.as_str());
        out.append(escaped.as_str());
    }

    fn props(&self) -> (r: Vec<(&str, &str)>) {
        Vec::new()
    }
}

impl<T: LeafValue> Cdata for T {
    open spec fn spec_raw(&self) -> Seq<char> {
        self.spec_text()
    }

    fn cdata(&self, out: &mut String) {
        let plain = self.text();
        out.append("<![CDATA[");
        out.append(plain.as_str());
        out.append("]]>");
    }
}

/// The element that `node` makes under the name `tag`.
pub open spec fn node_element<T: WriteXml + ?Sized>(tag: Seq<char>, node: &T) -> Seq<char> {
    element(tag, node.spec_props(), node.spec_inner())
}

/// The element of a number that may be absent: nothing stands for an absent one.
pub open spec fn optional_element(tag: Seq<char>, v: Option<u64>) -> Seq<char> {
    match v {
        Some(n) => node_element(tag, &n),
        None => Seq::empty(),
    }
}

/// The elements of a sequence of nodes, all under one tag name, in order.
#[verifier::opaque]
pub open spec fn elements<T: WriteXml>(items: Seq<T>, tag: Seq<char>) -> Seq<char>
    decreases items.len(),
{
    if items.len() == 0 {
        Seq::empty()
    } else {
        elements(items.drop_last(), tag) + node_element(tag, &items.last())
    }
}

/// Appends an element named `tag_name` that holds `value`, or nothing where it
/// is absent, as a literal block.
pub fn write_optional_cdata(value: &Option<String>, out: &mut String, tag_name: &str)
    ensures
        final(out)@ == old(out)@ + cdata_element(tag_name@, text_or_empty(*value)),
{
    match value {
        Some(text) => text.cdata_tag(out, tag_name),
        None => String::new().cdata_tag(out, tag_name),
    }
}

/// Appends each node of `items` as an element named `tag_name`.
pub fn write_each<T: WriteXml>(items: &Vec<T>, out: &mut String, tag_name: &str)
    ensures
        final(out)@ == old(out)@ + elements(items@, tag_name@),
{
    proof {
        reveal(elements);
    }
    let mut i: usize = 0;
    while i < items.len()
        invariant
            i <= items.len(),
            out@ == old(out)@ + elements(items@.take(i as int), tag_name@),
        decreases items.len() - i,
    {
        proof {
            reveal(elements);
            assert(items@.take(i + 1).drop_last() =~= items@.take(i as int));
        }
        items[i].tagged(out, tag_name);
        i += 1;
    }
    proof {
        assert(items@.take(i as int) =~= items@);
    }
}

/// A node whose markup depends on nothing but its view: two nodes that are
/// equal as values are written alike.
pub trait MarkupOfView: WriteXml + DeepView {
    proof fn lemma_markup_of_view(&self, other: &Self)
        requires
            self.deep_view() == other.deep_view(),
        ensures
            self.spec_props() == other.spec_props(),
            self.spec_inner() == other.spec_inner(),
    ;
}

impl MarkupOfView for i64 {
    proof fn lemma_markup_of_view(&self, other: &Self) {
    }
}

impl MarkupOfView for u64 {
    proof fn lemma_markup_of_view(&self, other: &Self) {
    }
}

impl MarkupOfView for String {
    proof fn lemma_markup_of_view(&self, other: &Self) {
    }
}

/// Sequences of nodes that are equal one by one, as values, make the same
/// elements.
pub proof fn lemma_elements_of_view<T: MarkupOfView>(a: Seq<T>, b: Seq<T>, tag: Seq<char>)
    requires
        a.len() == b.len(),
        forall|i: int| 0 <= i < a.len() ==> (#[trigger] a[i]).deep_view() == b[i].deep_view(),
    ensures
        elements(a, tag) == elements(b, tag),
    decreases a.len(),
{
    reveal(elements);
    if a.len() > 0 {
        lemma_elements_of_view(a.drop_last(), b.drop_last(), tag);
        a.last().lemma_markup_of_view(&b.last());
    }
}

/// Vectors with one deep view make the same elements.
pub proof fn lemma_elements_of_vec_view<T: MarkupOfView>(a: Vec<T>, b: Vec<T>, tag: Seq<char>)
    requires
        a.deep_view() == b.deep_view(),
    ensures
        elements(a@, tag) == elements(b@, tag),
{
    assert(b@.len() == b.deep_view().len());
    assert forall|i: int| 0 <= i < a@.len() implies (#[trigger] a@[i]).deep_view()
        == b@[i].deep_view() by {
        assert(b.deep_view()[i] == b@[i].deep_view());
    }
    lemma_elements_of_view(a@, b@, tag);
}

} // verus!
