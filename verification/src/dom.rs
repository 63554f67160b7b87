//! The crate's view of parsed HTML. Document parsing and CSS selection
//! are done by the `scraper` crate behind trusted wrappers; everything
//! a wrapper returns is plain data — row fragments as strings, an
//! element's direct children as [`DomToken`]s — and the text rules
//! over those tokens are verified here.

use vstd::prelude::*;
use vstd::string::*;
use crate::text::{trim_spec, trim_str, str_eq};

verus! {

/// One direct child of a selected element, reduced to what the text
/// rules read: a text node's contents, or a child element's tag name.
pub enum DomToken {
    /// A text node's raw contents.
    Text(String),
    /// A child element's tag name; only `br` matters to the text rules.
    Elem(String),
}

/// The view of a [`DomToken`]: the same shape over character sequences.
pub enum TokenView {
    /// A text node's contents.
    Text(Seq<char>),
    /// A child element's tag name.
    Elem(Seq<char>),
}

impl View for DomToken {
    type V = TokenView;

    open spec fn view(&self) -> TokenView {
        match self {
            DomToken::Text(s) => TokenView::Text(s@),
            DomToken::Elem(s) => TokenView::Elem(s@),
        }
    }
}

impl DeepView for DomToken {
    type V = TokenView;

    open spec fn deep_view(&self) -> TokenView {
        self@
    }
}

/// What the listing document yields for a board and row selector: the
/// inner HTML of each row under the second board-container match, in
/// document order, or nothing when that second match is absent or a
/// selector is invalid.
pub uninterp spec fn listing_rows_of(html: Seq<char>, board_sel: Seq<char>, row_sel: Seq<char>) -> Option<
    Seq<Seq<char>>,
>;

/// What an HTML fragment yields for a selector: the direct children of
/// the first matching element, as tokens, or nothing when no element
/// matches or the selector is invalid.
pub uninterp spec fn frag_tokens_of(fragment: Seq<char>, sel: Seq<char>) -> Option<Seq<TokenView>>;

/// What an HTML fragment yields for a selector and attribute name: the
/// attribute's value on the first matching element, or nothing when no
/// element matches, the attribute is absent or the selector is invalid.
pub uninterp spec fn frag_attr_of(fragment: Seq<char>, sel: Seq<char>, attr: Seq<char>) -> Option<
    Seq<char>,
>;

/// What a full HTML document yields for a selector: the direct
/// children of the first matching element, as tokens, or nothing when
/// no element matches or the selector is invalid.
pub uninterp spec fn doc_tokens_of(html: Seq<char>, sel: Seq<char>) -> Option<Seq<TokenView>>;

/// Relies on scraper's `Html::parse_document`, `Selector::parse` and
/// CSS selection: takes the second element matching `board_sel`, and
/// returns the inner HTML of each of its `row_sel` matches in document
/// order.
#[verifier::external_body]
pub(crate) fn board_rows(html: &str, board_sel: &str, row_sel: &str) -> (r: Option<Vec<String>>)
    ensures
        r.deep_view() == listing_rows_of(html@, board_sel@, row_sel@),
{
    let bs = scraper::Selector::parse(board_sel).ok()?;
    let rs = scraper::Selector::parse(row_sel).ok()?;
    let doc = scraper::Html::parse_document(html);
    let board = doc.select(&bs).nth(1)?;
    let mut out = Vec::new();
    for e in board.select(&rs) {
        out.push(e.inner_html());
    }
    Some(out)
}

/// Relies on scraper's `Html::parse_fragment`, `Selector::parse` and
/// CSS selection: reduces the first matching element's direct children
/// to text contents and child tag names, in order.
#[verifier::external_body]
pub(crate) fn frag_first_tokens(fragment: &str, sel: &str) -> (r: Option<Vec<DomToken>>)
    ensures
        r.deep_view() == frag_tokens_of(fragment@, sel@),
{
    let s = scraper::Selector::parse(sel).ok()?;
    let doc = scraper::Html::parse_fragment(fragment);
    let elem = doc.select(&s).next()?;
    let mut out = Vec::new();
    for child in elem.children() {
        match child.value() {
            scraper::Node::Text(t) => out.push(DomToken::Text(t.to_string())),
            scraper::Node::Element(e) => out.push(DomToken::Elem(e.name().to_string())),
            _ => {},
        }
    }
    Some(out)
}

/// Relies on scraper's `Html::parse_fragment`, `Selector::parse` and
/// `Element::attr`: the named attribute of the first matching element.
#[verifier::external_body]
pub(crate) fn frag_first_attr(fragment: &str, sel: &str, attr: &str) -> (r: Option<String>)
    ensures
        r.deep_view() == frag_attr_of(fragment@, sel@, attr@),
{
    let s = scraper::Selector::parse(sel).ok()?;
    let doc = scraper::Html::parse_fragment(fragment);
    let elem = doc.select(&s).next()?;
    elem.value().attr(attr).map(|a| a.to_string())
}

/// Relies on scraper's `Html::parse_document`, `Selector::parse` and
/// CSS selection: reduces the first matching element's direct children
/// to text contents and child tag names, in order.
#[verifier::external_body]
pub(crate) fn doc_first_tokens(html: &str, sel: &str) -> (r: Option<Vec<DomToken>>)
    ensures
        r.deep_view() == doc_tokens_of(html@, sel@),
{
    let s = scraper::Selector::parse(sel).ok()?;
    let doc = scraper::Html::parse_document(html);
    let elem = doc.select(&s).next()?;
    let mut out = Vec::new();
    for child in elem.children() {
        match child.value() {
            scraper::Node::Text(t) => out.push(DomToken::Text(t.to_string())),
            scraper::Node::Element(e) => out.push(DomToken::Elem(e.name().to_string())),
            _ => {},
        }
    }
    Some(out)
}

/// The text one token contributes: a text node's contents with outer
/// whitespace trimmed, a newline for a `br` element, nothing for any
/// other child element.
pub open spec fn token_text(t: TokenView) -> Seq<char> {
    match t {
        TokenView::Text(s) => trim_spec(s),
        TokenView::Elem(name) => if name == "br"@ {
            "\n"@
        } else {
            Seq::empty()
        },
    }
}

/// The text a whole token run contributes, in order.
pub open spec fn tokens_text(ts: Seq<TokenView>) -> Seq<char>
    decreases ts.len(),
{
    if ts.len() == 0 {
        Seq::empty()
    } else {
        tokens_text(ts.drop_last()) + token_text(ts.last())
    }
}

/// Assembles the text of an element's children: each text node is
/// trimmed and concatenated, each `br` child becomes a newline, every
/// other child element contributes nothing.
pub fn node_text(tokens: &Vec<DomToken>) -> (r: String)
    ensures
        r@ == tokens_text(tokens.deep_view()),
{
    let mut out = String::new();
    let mut i: usize = 0;
    while i < tokens.len()
        invariant
            0 <= i <= tokens@.len(),
            tokens.deep_view().len() == tokens@.len(),
            out@ == tokens_text(tokens.deep_view().subrange(0, i as int)),
        decreases tokens@.len() - i,
    {
        let ghost pre = tokens.deep_view().subrange(0, i as int);
        let ghost cur = tokens.deep_view().subrange(0, i + 1);
        proof {
            assert(cur.drop_last() =~= pre);
            assert(cur.last() == tokens.deep_view()[i as int]);
        }
        match &tokens[i] {
            DomToken::Text(s) => {
                let t = trim_str(s.as_str());
                out.append(t.as_str());
            },
            DomToken::Elem(name) => {
                if str_eq(name.as_str(), "br") {
                    out.append("\n");
                } else {
                    proof {
                        assert(out@ + token_text(cur.last()) =~= out@);
                    }
                }
            },
        }
        i = i + 1;
    }
    proof {
        assert(tokens.deep_view().subrange(0, tokens.deep_view().len() as int) =~= tokens.deep_view());
    }
    out
}

} // verus!
