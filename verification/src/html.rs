//! What the library reads out of an HTML page, and patterns in text.

use vstd::prelude::*;

verus! {

/// The first node inside an element.
#[derive(Debug)]
pub enum FirstChild {
    /// The element has nothing inside.
    Nothing,
    /// The node is a text, with these characters.
    Text(String),
    /// The node is something else: an element, a comment.
    Other,
}

/// `FirstChild` as a mathematical value.
pub enum FirstChildView {
    /// The element has nothing inside.
    Nothing,
    /// The node is a text, with these characters.
    Text(Seq<char>),
    /// The node is something else.
    Other,
}

impl View for FirstChild {
    type V = FirstChildView;

    open spec fn view(&self) -> FirstChildView {
        match self {
            FirstChild::Nothing => FirstChildView::Nothing,
            FirstChild::Text(text) => FirstChildView::Text(text@),
            FirstChild::Other => FirstChildView::Other,
        }
    }
}

/// An element of a page, as far as the library reads it.
#[derive(Debug)]
pub struct Element {
    /// The value of the attribute that was asked for, where the element
    /// has the attribute.
    pub attribute: Option<String>,
    /// The element and all inside it as HTML.
    pub html: String,
    /// The first node inside the element.
    pub first_child: FirstChild,
}

/// `Element` as a mathematical value.
pub struct ElementView {
    /// The value of the attribute that was asked for.
    pub attribute: Option<Seq<char>>,
    /// The element and all inside it as HTML.
    pub html: Seq<char>,
    /// The first node inside the element.
    pub first_child: FirstChildView,
}

/// The characters of a text that may be missing.
pub open spec fn text_view(text: Option<String>) -> Option<Seq<char>> {
    match text {
        Some(text) => Some(text@),
        None => None,
    }
}

impl View for Element {
    type V = ElementView;

    open spec fn view(&self) -> ElementView {
        ElementView {
            attribute: text_view(self.attribute),
            html: self.html@,
            first_child: self.first_child@,
        }
    }
}

/// The elements of a list as mathematical values.
pub open spec fn elements_view(elements: Seq<Element>) -> Seq<ElementView> {
    Seq::new(elements.len(), |at: int| elements[at]@)
}

/// The groups of a match as mathematical values.
pub open spec fn groups_view(groups: Seq<Option<String>>) -> Seq<Option<Seq<char>>> {
    Seq::new(groups.len(), |at: int| text_view(groups[at]))
}

/// What the `scraper` crate finds in a document for a selector: each
/// element that matches, in the order of the document, with the value of the
/// given attribute, its markup and the first node inside it; or the message
/// of the error where the selector is not valid.
pub uninterp spec fn elements_of(
    document: Seq<char>,
    selector: Seq<char>,
    attribute: Seq<char>,
) -> Result<Seq<ElementView>, Seq<char>>;

/// What the `regex` crate finds in a text for a pattern: the groups of the
/// leftmost match, the whole match first, each with the text it matched
/// where it took part; nothing where the pattern does not match; or the
/// message of the error where the pattern is not valid.
pub uninterp spec fn captures_of(pattern: Seq<char>, text: Seq<char>) -> Result<
    Option<Seq<Option<Seq<char>>>>,
    Seq<char>,
>;

/// `Selector::parse`, `Html::parse_document` and `Html::select` of the
/// `scraper` crate; then, on each element selected, `ElementRef::attr`,
/// `ElementRef::html`, and `Node::as_text` on the first of its `children`.
/// All that is claimed is that the outcome depends on the three texts alone:
/// it is what `elements_of` names.
#[verifier::external_body]
pub(crate) fn elements(document: &str, selector: &str, attribute: &str) -> (found: Result<
    Vec<Element>,
    String,
>)
    ensures
        match found {
            Ok(list) => elements_of(document@, selector@, attribute@) == Ok::<
                Seq<ElementView>,
                Seq<char>,
            >(elements_view(list@)),
            Err(fault) => elements_of(document@, selector@, attribute@) == Err::<
                Seq<ElementView>,
                Seq<char>,
            >(fault@),
        },
{
    let selector = match scraper::Selector::parse(selector) {
        Ok(selector) => selector,
        Err(error) => return Err(error.to_string()),
    };
    let page = scraper::Html::parse_document(document);
    let each = page.select(&selector).map(|e| Element {
        attribute: e.attr(attribute).map(str::to_string),
        html: e.html(),
        first_child: match e.children().next().map(|node| node.value().as_text()) {
            None => FirstChild::Nothing,
            Some(None) => FirstChild::Other,
            Some(Some(text)) => FirstChild::Text(text.to_string()),
        },
    });
    Ok(each.collect())
}

/// `Regex::new` and `Regex::captures` of the `regex` crate, then
/// `Captures::iter` and `Match::as_str` on each group. All that is claimed is
/// that the outcome depends on the pattern and the text alone: it is what
/// `captures_of` names.
#[verifier::external_body]
pub(crate) fn captures(pattern: &str, text: &str) -> (found: Result<
    Option<Vec<Option<String>>>,
    String,
>)
    ensures
        match found {
            Ok(Some(groups)) => captures_of(pattern@, text@) == Ok::<
                Option<Seq<Option<Seq<char>>>>,
                Seq<char>,
            >(Some(groups_view(groups@))),
            Ok(None) => captures_of(pattern@, text@) == Ok::<
                Option<Seq<Option<Seq<char>>>>,
                Seq<char>,
            >(None),
            Err(fault) => captures_of(pattern@, text@) == Err::<
                Option<Seq<Option<Seq<char>>>>,
                Seq<char>,
            >(fault@),
        },
{
    let regex = match regex::Regex::new(pattern) {
        Ok(regex) => regex,
        Err(error) => return Err(error.to_string()),
    };
    let found = regex.captures(text);
    Ok(found.map(|groups| groups.iter().map(|group| group.map(|m| m.as_str().to_string())).collect()))
}

} // verus!
