//! The rule that headings must have content, and content that a screen
//! reader can reach.
//!
//! A heading `h1` to `h6` is reported where it is hidden by `aria-hidden`,
//! and where it has nothing to show: no `dangerouslySetInnerHTML`, no
//! `children` attribute with a value that may be truthy, no spread that
//! might bring either, and no accessible child.
//!
//! `<h1 />`, `<h1></h1>` and `<h1><div aria-hidden /></h1>` are reported;
//! `<h1>heading</h1>` and `<h1><div aria-hidden />visible content</h1>` are
//! not.

use crate::diagnostic::{Diagnostic, DiagnosticView};
use crate::jsx::AnyJsxElement;
use crate::rule::{Ast, Rule};
use crate::text::{str_eq, TextRange};
use vstd::prelude::*;

verus! {

pub struct UseHeadingContent;

/// Whether `name` names a heading.
pub open spec fn is_heading_element(name: Seq<char>) -> bool {
    ||| name == "h1"@
    ||| name == "h2"@
    ||| name == "h3"@
    ||| name == "h4"@
    ||| name == "h5"@
    ||| name == "h6"@
}

/// Whether the attributes of `node` may give it content: it has the
/// attribute `dangerouslySetInnerHTML`; or it has the attribute `children`
/// with a value that is not known to be falsy; or it has a spread, which may
/// bring either.
pub open spec fn spec_has_valid_heading_content(node: &AnyJsxElement) -> bool {
    ||| node.spec_find_attribute_by_name("dangerouslySetInnerHTML"@) is Some
    ||| match node.spec_find_attribute_by_name("children"@) {
        Some(attribute) => attribute.initializer is Some && match attribute.spec_as_static_value() {
            Some(constant) => !constant.spec_is_falsy(),
            None => true,
        },
        None => false,
    }
    ||| node.spec_has_spread_prop()
}

/// Whether `node` is the tag of a heading.
pub open spec fn is_heading(node: &AnyJsxElement) -> bool {
    node.spec_name_value_token() matches Some(name) && is_heading_element(name)
}

/// Whether the rule reports `node`: it is a heading, and it is hidden or has
/// nothing to show.
pub open spec fn lacks_content(node: &AnyJsxElement) -> bool {
    &&& is_heading(node)
    &&& {
        ||| node.spec_has_truthy_attribute("aria-hidden"@)
        ||| !spec_has_valid_heading_content(node) && !node.spec_has_accessible_child()
    }
}

/// The range that a report on `node` is about: for an opening tag the whole
/// element that it opens, for a self-closing tag the tag. An opening tag that
/// knows no element has none.
pub open spec fn reported_range(node: &AnyJsxElement) -> Option<TextRange> {
    match node {
        AnyJsxElement::JsxOpeningElement { parent: Some(parent), .. } => Some(parent.text_range),
        AnyJsxElement::JsxOpeningElement { parent: None, .. } => None,
        AnyJsxElement::JsxSelfClosingElement(element) => Some(element.range),
    }
}

fn is_heading_name(name: &str) -> (heading: bool)
    ensures
        heading == is_heading_element(name@),
{
    str_eq(name, "h1") || str_eq(name, "h2") || str_eq(name, "h3") || str_eq(name, "h4") || str_eq(
        name,
        "h5",
    ) || str_eq(name, "h6")
}

/// Checks whether the attributes of the node may give it content.
pub fn has_valid_heading_content(node: &AnyJsxElement) -> (valid: bool)
    ensures
        valid == spec_has_valid_heading_content(node),
{
    if node.find_attribute_by_name("dangerouslySetInnerHTML").is_some() {
        return true;
    }
    let children = match node.find_attribute_by_name("children") {
        Some(attribute) => attribute.initializer.is_some() && match attribute.as_static_value() {
            Some(constant) => !constant.is_falsy(),
            None => true,
        },
        None => false,
    };
    children || node.has_spread_prop()
}

impl<'a> Rule<Ast<AnyJsxElement<'a>>> for UseHeadingContent {
    type State = ();

    /// One signal where the node lacks content, none where it does not.
    open spec fn signals(query: &Ast<AnyJsxElement<'a>>) -> Seq<()> {
        if lacks_content(&query.node) {
            seq![()]
        } else {
            Seq::empty()
        }
    }

    open spec fn report(query: &Ast<AnyJsxElement<'a>>, state: &()) -> Option<DiagnosticView> {
        match reported_range(&query.node) {
            Some(range) => Some(
                DiagnosticView {
                    category: "lint/a11y/useHeadingContent"@,
                    range,
                    message: "Provide screen reader accessible content when using heading  elements."@,
                    details: Seq::empty(),
                    notes: seq![
                        "All headings on a page should have content that is accessible to screen readers."@,
                    ],
                },
            ),
            None => None,
        }
    }

    fn run(query: &Ast<AnyJsxElement<'a>>) -> (signals: Vec<()>) {
        let node = &query.node;
        let mut signals: Vec<()> = Vec::new();
        let name = match node.name_value_token() {
            Some(name) => name,
            None => {
                return signals;
            },
        };
        if is_heading_name(name) {
            if node.has_truthy_attribute("aria-hidden") {
                signals.push(());
                return signals;
            }
            if has_valid_heading_content(node) {
                return signals;
            }
            if !node.has_accessible_child() {
                signals.push(());
            }
        }
        signals
    }

    fn diagnostic(query: &Ast<AnyJsxElement<'a>>, state: &()) -> (diagnostic: Option<Diagnostic>) {
        let range = match &query.node {
            AnyJsxElement::JsxOpeningElement { parent: Some(parent), .. } => parent.text_range,
            AnyJsxElement::JsxOpeningElement { parent: None, .. } => {
                return None;
            },
            AnyJsxElement::JsxSelfClosingElement(element) => element.range,
        };
        Some(
            Diagnostic::new(
                "lint/a11y/useHeadingContent",
                range,
                "Provide screen reader accessible content when using heading  elements.",
            ).note(
                "All headings on a page should have content that is accessible to screen readers.",
            ),
        )
    }
}

/// A tag without content of any kind is reported exactly where it is a
/// heading: where it has no attribute `children`, no attribute
/// `dangerouslySetInnerHTML`, no spread and no child, a heading gives one
/// signal and any other tag gives none.
pub proof fn lemma_bare_tag<'a>(query: Ast<AnyJsxElement<'a>>)
    requires
        query.node.spec_find_attribute_by_name("children"@) is None,
        query.node.spec_find_attribute_by_name("dangerouslySetInnerHTML"@) is None,
        !query.node.spec_has_spread_prop(),
        query.node matches AnyJsxElement::JsxOpeningElement { parent: Some(parent), .. }
            ==> parent.children@.len() == 0,
    ensures
        is_heading(&query.node) ==> UseHeadingContent::signals(&query) == seq![()],
        !is_heading(&query.node) ==> UseHeadingContent::signals(&query) == Seq::<()>::empty(),
{
}

/// A heading with a truthy `aria-hidden` is reported, whatever it holds.
pub proof fn lemma_hidden_heading<'a>(query: Ast<AnyJsxElement<'a>>)
    requires
        is_heading(&query.node),
        query.node.spec_has_truthy_attribute("aria-hidden"@),
    ensures
        UseHeadingContent::signals(&query) == seq![()],
{
}

/// A heading whose children hold one that is accessible is not reported
/// for want of content, whatever stands before that child.
pub proof fn lemma_later_sibling_gives_content<'a>(query: Ast<AnyJsxElement<'a>>, i: int)
    requires
        query.node matches AnyJsxElement::JsxOpeningElement { parent: Some(parent), .. } && 0 <= i
            < parent.children@.len() && crate::jsx::is_accessible(parent.children@[i]),
        !query.node.spec_has_truthy_attribute("aria-hidden"@),
    ensures
        UseHeadingContent::signals(&query) == Seq::<()>::empty(),
{
}

} // verus!
