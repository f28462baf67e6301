use vstd::prelude::*;
use vstd::std_specs::iter::IteratorSpec;
use crate::state::clone_texts;
use crate::text::str_eq;

verus! {

/// An element of a widget template: its tag name, its text, the text of its
/// `styles` attribute, and the elements inside it.
#[derive(Debug)]
pub struct Node {
    pub name: String,
    pub text: Option<String>,
    pub styles: Option<String>,
    pub children: Vec<Node>,
}

/// What a `Node` stands for.
pub struct NodeView {
    pub name: Seq<char>,
    pub text: Option<Seq<char>>,
    pub styles: Option<Seq<char>>,
    pub children: Seq<NodeView>,
}

/// What an element stands for.
pub open spec fn node_view(el: Node) -> NodeView
    decreases el,
{
    NodeView {
        name: el.name@,
        text: match el.text {
            Some(t) => Some(t@),
            None => None,
        },
        styles: match el.styles {
            Some(t) => Some(t@),
            None => None,
        },
        children: children_views(el.children@, el.children@.len() as int),
    }
}

/// What the first `n` of these elements stand for.
pub open spec fn children_views(children: Seq<Node>, n: int) -> Seq<NodeView>
    decreases children, n,
{
    if n <= 0 || n > children.len() {
        Seq::empty()
    } else {
        children_views(children, n - 1).push(node_view(children[n - 1]))
    }
}

impl View for Node {
    type V = NodeView;

    open spec fn view(&self) -> NodeView {
        node_view(*self)
    }
}

/// A display primitive that a template element stands for.
#[derive(Debug)]
pub enum El {
    /// Lines of text, each a run of spans.
    Paragraph(Vec<Vec<String>>),
    /// One line of text: a run of spans.
    Spans(Vec<String>),
    /// A piece of text.
    Span(String),
}

/// What an `El` stands for.
pub enum ElView {
    Paragraph(Seq<Seq<Seq<char>>>),
    Spans(Seq<Seq<char>>),
    Span(Seq<char>),
}

impl View for El {
    type V = ElView;

    open spec fn view(&self) -> ElView {
        match self {
            El::Paragraph(lines) => ElView::Paragraph(lines.deep_view()),
            El::Spans(spans) => ElView::Spans(spans.deep_view()),
            El::Span(text) => ElView::Span(text@),
        }
    }
}

impl DeepView for El {
    type V = ElView;

    open spec fn deep_view(&self) -> ElView {
        self@
    }
}

/// Why a template is not a widget tree.
#[derive(Clone, Copy, Debug, PartialEq, Eq, Structural)]
pub enum DomError {
    /// An element has a tag that is none of `Paragraph`, `Spans`, `Span`.
    UnknownToken,
    /// A paragraph holds something that is no run of spans, or a run of
    /// spans holds something that is no span.
    NotATextNode,
    /// A `styles` attribute does not hold JSON.
    InvalidStyles,
}

/// An element of an XML document, as the XML library holds it.
#[verifier::external_type_specification]
#[verifier::external_body]
pub struct ExTreeElement(treexml::Element);

/// Why a template gave no element.
#[derive(Clone, Copy, Debug, PartialEq, Eq, Structural)]
pub enum TemplateError {
    /// The template could not be filled in: it is no valid template, it
    /// may include a partial, or the data is no JSON.
    Render,
    /// What was filled in is no XML document with a root element.
    Xml,
}

/// The root element of the document that an XML text holds, if the text is
/// a well-formed document with a root. Of each element it keeps the name,
/// the text, the elements inside it, and the value of the attribute called
/// `attribute` in the place of the styles.
pub uninterp spec fn xml_root(xml: Seq<char>, attribute: Seq<char>) -> Option<NodeView>;

/// The text that a template gives when it is filled in with the value that
/// the data, which is written as JSON, stands for; nothing if the template
/// is malformed or cannot be filled in.
pub uninterp spec fn rendered(template: Seq<char>, data: Seq<char>) -> Option<Seq<char>>;

/// The view of an element that may be there.
pub open spec fn root_view(r: Option<Node>) -> Option<NodeView> {
    match r {
        Some(el) => Some(el@),
        None => None,
    }
}

/// Copies out of an element of the XML library what a template element
/// holds, with the value of the attribute called `attribute` as its styles.
/// Trusted: field by field, for the element and all inside it.
#[verifier::external_body]
fn model(el: &treexml::Element, attribute: &str) -> (r: Node) {
    Node {
        name: el.name.clone(),
        text: el.text.clone(),
        styles: el.attributes.get(attribute).cloned(),
        children: el.children.iter().map(|child| model(child, attribute)).collect(),
    }
}

/// Reads an XML text. Trusted: the result is the root of what
/// `treexml::Document::parse` reads from the text, which depends on the
/// text alone; nothing is returned where that call fails or finds no root.
#[verifier::external_body]
fn read_document(xml: &str, attribute: &str) -> (r: Option<Node>)
    ensures
        root_view(r) == xml_root(xml@, attribute@),
{
    match treexml::Document::parse(xml.as_bytes()) {
        Ok(doc) => doc.root.map(|root| model(&root, attribute)),
        Err(_) => None,
    }
}

/// Reads an XML text and returns its root element, if the text is a
/// well-formed document with a root. The styles of an element are the value
/// of its `styles` attribute.
pub fn parse_xml(xml: &str) -> (r: Option<Node>)
    ensures
        root_view(r) == xml_root(xml@, "styles"@),
{
    read_document(xml, "styles")
}

/// Whether the expression that opens with `{{` at `i` is still open at `j`:
/// no `}` stands between the two.
pub open spec fn open_from(t: Seq<char>, i: int, j: int) -> bool {
    &&& 0 <= i
    &&& i + 1 < j <= t.len()
    &&& t[i] == '{'
    &&& t[i + 1] == '{'
    &&& forall|k: int| i + 1 < k < j ==> t[k] != '}'
}

/// Whether a template may include a partial: somewhere a `>` stands inside
/// an expression, that is, after a `{{` and with no `}` between the two.
/// Every inclusion of a partial has this form, in whatever way it is
/// written; a template that merely looks so is counted with them.
pub open spec fn includes_partial(t: Seq<char>) -> bool {
    exists|i: int, j: int| #[trigger] open_from(t, i, j) && j < t.len() && t[j] == '>'
}

/// Tests whether a template may include a partial.
pub fn has_partial(template: &str) -> (r: bool)
    ensures
        r == includes_partial(template@),
{
    let n = template.unicode_len();
    let mut it = template.chars();
    let mut p: usize = 0;
    let mut open = false;
    let mut after_brace = false;
    let ghost mut w: int = 0;
    loop
        invariant
            n == template@.len(),
            p <= n,
            it.remaining() == template@.subrange(p as int, n as int),
            after_brace == (p >= 1 && template@[p - 1] == '{'),
            open ==> open_from(template@, w, p as int),
            !open ==> forall|i: int| !#[trigger] open_from(template@, i, p as int),
            forall|i: int, j: int|
                j < p ==> !(#[trigger] open_from(template@, i, j) && template@[j] == '>'),
        decreases n - p,
    {
        match it.next() {
            None => {
                return false;
            },
            Some(c) => {
                assert(c == template@[p as int]);
                if open && c == '>' {
                    assert(open_from(template@, w, p as int) && p < template@.len()
                        && template@[p as int] == '>');
                    return true;
                }
                let stays = open && c != '}';
                let opens = after_brace && c == '{';
                proof {
                    let t = template@;
                    assert forall|i: int, j: int| j < p + 1 implies !(#[trigger] open_from(t, i, j)
                        && t[j] == '>') by {
                        if j == p && open_from(t, i, j) {
                            assert(open);
                        }
                    }
                    if stays {
                        assert(open_from(t, w, p + 1));
                    } else if opens {
                        assert(open_from(t, p - 1, p + 1));
                        w = p - 1;
                    } else {
                        assert forall|i: int| !#[trigger] open_from(t, i, p + 1) by {
                            if open_from(t, i, p + 1) {
                                if i + 1 < p {
                                    assert(open_from(t, i, p as int));
                                    assert(t[p as int] != '}');
                                }
                            }
                        }
                    }
                    assert(t.subrange(p as int, n as int).drop_first() == t.subrange(
                        p + 1,
                        n as int,
                    ));
                }
                open = stays || opens;
                after_brace = c == '{';
                p += 1;
            },
        }
    }
}

/// Fills a template in. Trusted: the result is what
/// `Handlebars::render_template` of a new registry gives for the template
/// and the value that the data stands for, which depends on the two texts
/// alone; nothing is returned where that call fails. The data has to be
/// JSON, so that `serde_json::from_str` turns it into the value. The
/// template has to include no partial: the one thing that could be included
/// here is a partial that the template itself defines, and one that
/// includes itself is filled in without end.
#[verifier::external_body]
fn render_template(template: &str, data: &str) -> (r: Option<String>)
    requires
        !includes_partial(template@),
        valid_json(data@),
    ensures
        match r {
            Some(text) => rendered(template@, data@) == Some(text@),
            None => rendered(template@, data@) is None,
        },
{
    let value: serde_json::Value = serde_json::from_str(data).ok()?;
    handlebars::Handlebars::new().render_template(template, &value).ok()
}

/// What a template gives when it is filled in with data: nothing if the
/// template may include a partial or the data is no JSON.
pub open spec fn filled(template: Seq<char>, data: Seq<char>) -> Option<Seq<char>> {
    if includes_partial(template) || !valid_json(data) {
        None
    } else {
        rendered(template, data)
    }
}

/// The element of a template that was filled in: the root of the text, if
/// there is a text and it is an XML document with a root.
pub open spec fn parsed(filled: Option<Seq<char>>) -> Result<NodeView, TemplateError> {
    match filled {
        None => Err(TemplateError::Render),
        Some(text) => match xml_root(text, "styles"@) {
            Some(root) => Ok(root),
            None => Err(TemplateError::Xml),
        },
    }
}

/// The view of a result of `try_parse`.
pub open spec fn parse_view(r: Result<Node, TemplateError>) -> Result<
    NodeView,
    TemplateError,
> {
    match r {
        Ok(el) => Ok(el@),
        Err(e) => Err(e),
    }
}

/// Reads the element of a template that was filled in.
pub fn parse_rendered(filled: Option<String>) -> (r: Result<Node, TemplateError>)
    ensures
        parse_view(r) == parsed(
            match filled {
                Some(text) => Some(text@),
                None => None,
            },
        ),
{
    match filled {
        None => Err(TemplateError::Render),
        Some(text) => match parse_xml(text.as_str()) {
            Some(root) => Ok(root),
            None => Err(TemplateError::Xml),
        },
    }
}

/// Fills a template in with data, which is written as JSON, and reads the
/// element that this gives. The template has to be one that can be filled in
/// and then holds an XML document with a root. `try_parse` tests that.
pub fn parse(template: &str, data: &str) -> (r: Node)
    requires
        parsed(filled(template@, data@)) is Ok,
    ensures
        parsed(filled(template@, data@)) == Ok::<NodeView, TemplateError>(r@),
{
    match try_parse(template, data) {
        Ok(root) => root,
        Err(_) => unreached(),
    }
}

/// Fills a template in with data, which is written as JSON, and reads the
/// element that this gives, or says what went wrong. A template that may
/// include a partial is not filled in.
pub fn try_parse(template: &str, data: &str) -> (r: Result<Node, TemplateError>)
    ensures
        parse_view(r) == parsed(filled(template@, data@)),
{
    if has_partial(template) || !json_is_valid(data) {
        return Err(TemplateError::Render);
    }
    parse_rendered(render_template(template, data))
}

/// Whether a text is well-formed JSON.
pub uninterp spec fn valid_json(text: Seq<char>) -> bool;

/// Tests whether a text is well-formed JSON. Trusted: the result tells
/// whether `serde_json::from_str` reads the text as a `serde_json::Value`,
/// which depends on the text alone.
#[verifier::external_body]
fn json_is_valid(text: &str) -> (r: bool)
    ensures
        r == valid_json(text@),
{
    serde_json::from_str::<serde_json::Value>(text).is_ok()
}

/// The text of an element, empty where it has none.
pub open spec fn text_of(text: Option<Seq<char>>) -> Seq<char> {
    match text {
        Some(t) => t,
        None => Seq::empty(),
    }
}

/// The lines of a paragraph whose children are these: each child has to be
/// a run of spans.
pub open spec fn lines_of(kids: Seq<ElView>) -> Result<Seq<Seq<Seq<char>>>, DomError>
    decreases kids.len(),
{
    if kids.len() == 0 {
        Ok(Seq::empty())
    } else {
        match lines_of(kids.drop_last()) {
            Err(e) => Err(e),
            Ok(lines) => match kids.last() {
                ElView::Spans(spans) => Ok(lines.push(spans)),
                _ => Err(DomError::NotATextNode),
            },
        }
    }
}

/// The spans of a run whose children are these: each child has to be a span.
pub open spec fn spans_of(kids: Seq<ElView>) -> Result<Seq<Seq<char>>, DomError>
    decreases kids.len(),
{
    if kids.len() == 0 {
        Ok(Seq::empty())
    } else {
        match spans_of(kids.drop_last()) {
            Err(e) => Err(e),
            Ok(spans) => match kids.last() {
                ElView::Span(text) => Ok(spans.push(text)),
                _ => Err(DomError::NotATextNode),
            },
        }
    }
}

/// The primitive for a tag, given its text and what its children stand for.
/// A paragraph is made of its children, which have to be runs of spans. A
/// run of spans is made of its children, which have to be spans, or of its
/// own text as a single span when it has no children. A span is its text.
pub open spec fn assemble(name: Seq<char>, text: Seq<char>, kids: Seq<ElView>) -> Result<
    ElView,
    DomError,
> {
    if name == "Paragraph"@ {
        match lines_of(kids) {
            Ok(lines) => Ok(ElView::Paragraph(lines)),
            Err(e) => Err(e),
        }
    } else if name == "Spans"@ {
        if kids.len() > 0 {
            match spans_of(kids) {
                Ok(spans) => Ok(ElView::Spans(spans)),
                Err(e) => Err(e),
            }
        } else {
            Ok(ElView::Spans(seq![text]))
        }
    } else if name == "Span"@ {
        Ok(ElView::Span(text))
    } else {
        Err(DomError::UnknownToken)
    }
}

/// What an element stands for. Its children come first, in their order, and
/// the first of them that stands for nothing decides; then its `styles`
/// attribute, which has to hold JSON if it is there; then its own tag.
pub open spec fn create_spec(el: NodeView) -> Result<ElView, DomError>
    decreases el, 1int, 0int,
{
    match children_spec(el, el.children.len() as int) {
        Err(e) => Err(e),
        Ok(kids) => if el.styles matches Some(s) && !valid_json(s) {
            Err(DomError::InvalidStyles)
        } else {
            assemble(el.name, text_of(el.text), kids)
        },
    }
}

/// What the first `n` children of an element stand for.
pub open spec fn children_spec(el: NodeView, n: int) -> Result<Seq<ElView>, DomError>
    decreases el, 0int, n,
{
    if n <= 0 || n > el.children.len() {
        Ok(Seq::empty())
    } else {
        match children_spec(el, n - 1) {
            Err(e) => Err(e),
            Ok(done) => match create_spec(el.children[n - 1]) {
                Err(e) => Err(e),
                Ok(kid) => Ok(done.push(kid)),
            },
        }
    }
}

/// The first `n` of some elements stand for as many views, each the view
/// of its element.
pub proof fn lemma_children_views(children: Seq<Node>, n: int)
    requires
        0 <= n <= children.len(),
    ensures
        children_views(children, n).len() == n,
        forall|i: int| 0 <= i < n ==> children_views(children, n)[i] == children[i]@,
    decreases n,
{
    if n > 0 {
        lemma_children_views(children, n - 1);
    }
}

/// The view of an element holds the views of its children, in their order.
pub proof fn lemma_view_children(el: Node)
    ensures
        el@.name == el.name@,
        el@.children.len() == el.children.len(),
        forall|i: int| 0 <= i < el.children.len() ==> el@.children[i] == el.children[i]@,
        el.text is Some ==> el@.text == Some(el.text->Some_0@),
        el.text is None ==> el@.text is None,
        el.styles is Some ==> el@.styles == Some(el.styles->Some_0@),
        el.styles is None ==> el@.styles is None,
{
    lemma_children_views(el.children@, el.children@.len() as int);
}

/// Once a child stands for nothing, so do the children up to any later one.
proof fn lemma_children_err(el: NodeView, i: int, n: int)
    requires
        0 <= i <= n <= el.children.len(),
        children_spec(el, i) is Err,
    ensures
        children_spec(el, n) == children_spec(el, i),
    decreases n - i,
{
    if i < n {
        lemma_children_err(el, i, n - 1);
    }
}

/// Once a child is no run of spans, the whole is no paragraph.
proof fn lemma_lines_err(kids: Seq<ElView>, i: int)
    requires
        0 <= i <= kids.len(),
        lines_of(kids.take(i)) is Err,
    ensures
        lines_of(kids) == lines_of(kids.take(i)),
    decreases kids.len() - i,
{
    if i < kids.len() {
        assert(kids.take(i + 1).drop_last() == kids.take(i));
        lemma_lines_err(kids, i + 1);
    } else {
        assert(kids.take(i) == kids);
    }
}

/// Once a child is no span, the whole is no run of spans.
proof fn lemma_spans_err(kids: Seq<ElView>, i: int)
    requires
        0 <= i <= kids.len(),
        spans_of(kids.take(i)) is Err,
    ensures
        spans_of(kids) == spans_of(kids.take(i)),
    decreases kids.len() - i,
{
    if i < kids.len() {
        assert(kids.take(i + 1).drop_last() == kids.take(i));
        lemma_spans_err(kids, i + 1);
    } else {
        assert(kids.take(i) == kids);
    }
}

/// Collects the lines of a paragraph from its children.
fn collect_lines(kids: &Vec<El>) -> (r: Result<Vec<Vec<String>>, DomError>)
    ensures
        match r {
            Ok(lines) => lines_of(kids.deep_view()) == Ok::<Seq<Seq<Seq<char>>>, DomError>(
                lines.deep_view(),
            ),
            Err(e) => lines_of(kids.deep_view()) == Err::<Seq<Seq<Seq<char>>>, DomError>(e),
        },
{
    let mut lines: Vec<Vec<String>> = Vec::new();
    let mut i: usize = 0;
    assert(lines.deep_view() =~= Seq::<Seq<Seq<char>>>::empty());
    assert(kids.deep_view().take(0) =~= Seq::<ElView>::empty());
    while i < kids.len()
        invariant
            i <= kids.len(),
            lines_of(kids.deep_view().take(i as int)) == Ok::<Seq<Seq<Seq<char>>>, DomError>(
                lines.deep_view(),
            ),
        decreases kids.len() - i,
    {
        let ghost before = lines.deep_view();
        assert(kids.deep_view().take(i + 1).drop_last() == kids.deep_view().take(i as int));
        assert(kids.deep_view().take(i + 1).last() == kids[i as int]@);
        match &kids[i] {
            El::Spans(spans) => {
                lines.push(clone_texts(spans));
                assert(lines.deep_view() =~= before.push(spans.deep_view()));
            },
            _ => {
                proof {
                    lemma_lines_err(kids.deep_view(), i + 1);
                }
                return Err(DomError::NotATextNode);
            },
        }
        i += 1;
    }
    assert(kids.deep_view().take(i as int) == kids.deep_view());
    Ok(lines)
}

/// Collects the spans of a run from its children.
fn collect_spans(kids: &Vec<El>) -> (r: Result<Vec<String>, DomError>)
    ensures
        match r {
            Ok(spans) => spans_of(kids.deep_view()) == Ok::<Seq<Seq<char>>, DomError>(
                spans.deep_view(),
            ),
            Err(e) => spans_of(kids.deep_view()) == Err::<Seq<Seq<char>>, DomError>(e),
        },
{
    let mut spans: Vec<String> = Vec::new();
    let mut i: usize = 0;
    assert(spans.deep_view() =~= Seq::<Seq<char>>::empty());
    assert(kids.deep_view().take(0) =~= Seq::<ElView>::empty());
    while i < kids.len()
        invariant
            i <= kids.len(),
            spans_of(kids.deep_view().take(i as int)) == Ok::<Seq<Seq<char>>, DomError>(
                spans.deep_view(),
            ),
        decreases kids.len() - i,
    {
        let ghost before = spans.deep_view();
        assert(kids.deep_view().take(i + 1).drop_last() == kids.deep_view().take(i as int));
        assert(kids.deep_view().take(i + 1).last() == kids[i as int]@);
        match &kids[i] {
            El::Span(text) => {
                spans.push(text.clone());
                assert(spans.deep_view() =~= before.push(text@));
            },
            _ => {
                proof {
                    lemma_spans_err(kids.deep_view(), i + 1);
                }
                return Err(DomError::NotATextNode);
            },
        }
        i += 1;
    }
    assert(kids.deep_view().take(i as int) == kids.deep_view());
    Ok(spans)
}

/// The view of a result of `try_create_element`.
pub open spec fn created(r: Result<El, DomError>) -> Result<ElView, DomError> {
    match r {
        Ok(el) => Ok(el@),
        Err(e) => Err(e),
    }
}

/// Turns a template element into the display primitive it stands for. The
/// element has to stand for one: every tag in it is one of the three, a
/// paragraph holds runs of spans only, a run of spans holds spans only, and
/// every `styles` attribute holds JSON. `try_create_element` tests that.
pub fn create_element(el: &Node) -> (r: El)
    requires
        create_spec(el@) is Ok,
    ensures
        create_spec(el@) == Ok::<ElView, DomError>(r@),
{
    match try_create_element(el) {
        Ok(primitive) => primitive,
        Err(_) => unreached(),
    }
}

/// Turns a template element into the display primitive it stands for, or
/// says why it stands for none.
pub fn try_create_element(el: &Node) -> (r: Result<El, DomError>)
    ensures
        created(r) == create_spec(el@),
    decreases el,
{
    let mut kids: Vec<El> = Vec::new();
    assert(kids.deep_view() =~= Seq::<ElView>::empty());
    let mut i: usize = 0;
    proof {
        lemma_view_children(*el);
    }
    while i < el.children.len()
        invariant
            i <= el.children.len(),
            el@.children.len() == el.children.len(),
            forall|j: int| 0 <= j < el.children.len() ==> el@.children[j] == el.children[j]@,
            children_spec(el@, i as int) == Ok::<Seq<ElView>, DomError>(kids.deep_view()),
        decreases el.children.len() - i,
    {
        let ghost before = kids.deep_view();
        match try_create_element(&el.children[i]) {
            Ok(kid) => {
                kids.push(kid);
                assert(kids.deep_view() =~= before.push(kid@));
            },
            Err(e) => {
                proof {
                    lemma_children_err(el@, i + 1, el.children.len() as int);
                }
                return Err(e);
            },
        }
        i += 1;
    }
    match &el.styles {
        Some(styles) => {
            if !json_is_valid(styles.as_str()) {
                return Err(DomError::InvalidStyles);
            }
        },
        None => {},
    }
    let text = match &el.text {
        Some(t) => t.clone(),
        None => String::new(),
    };
    let name = el.name.as_str();
    if str_eq(name, "Paragraph") {
        match collect_lines(&kids) {
            Ok(lines) => Ok(El::Paragraph(lines)),
            Err(e) => Err(e),
        }
    } else if str_eq(name, "Spans") {
        if kids.len() > 0 {
            match collect_spans(&kids) {
                Ok(spans) => Ok(El::Spans(spans)),
                Err(e) => Err(e),
            }
        } else {
            let mut spans: Vec<String> = Vec::new();
            let ghost t = text@;
            spans.push(text);
            assert(spans.deep_view() =~= seq![t]);
            Ok(El::Spans(spans))
        }
    } else if str_eq(name, "Span") {
        Ok(El::Span(text))
    } else {
        Err(DomError::UnknownToken)
    }
}

} // verus!
