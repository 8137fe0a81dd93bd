//! The markup elements, as far as the rules read them, and the structural
//! predicates over them.

use crate::js::Expression;
use crate::rule::{NodeKind, SyntaxNode};
use crate::search::{first, first_from};
use crate::static_value::StaticValue;
use crate::text::{is_blank, str_eq, text_is_blank, TextRange};
use vstd::prelude::*;

verus! {

/// The form of an element's name.
#[derive(Clone, Copy, Debug, PartialEq, Eq, Structural)]
pub enum ElementNameKind {
    /// A plain lower-case name: `<div>`. The element is one of the markup
    /// language itself.
    Name,
    /// A reference to a binding: `<Button>`.
    ReferenceIdentifier,
    /// A member of an object: `<ui.Button>`.
    MemberName,
    /// A name in a namespace: `<svg:rect>`.
    NamespaceName,
}

/// The name of an element.
#[derive(Debug)]
pub struct JsxElementName {
    pub kind: ElementNameKind,
    /// The last part of the name, the one that names the element itself:
    /// `Button` of `ui.Button`, `rect` of `svg:rect`. Absent where the
    /// source lacks it.
    pub value: Option<String>,
}

/// The name of an attribute.
#[derive(Debug)]
pub enum JsxAttributeName {
    /// A plain name: `class`, `aria-hidden`.
    Name(String),
    /// A name in a namespace: `xlink:href`. No lookup by name finds it.
    NamespaceName,
    /// The name is missing from the source.
    Missing,
}

/// What stands behind the `=` of an attribute.
#[derive(Debug)]
pub enum JsxAttributeValue {
    /// An element: `icon=<Star />`.
    Tag,
    /// An expression in braces: `value={1}`.
    Expression(Expression),
    /// A string: the text between its quotes.
    String(String),
    /// The source holds nothing that can be read as a value.
    Missing,
}

/// An attribute `name` or `name=value`.
#[derive(Debug)]
pub struct JsxAttribute {
    pub name: JsxAttributeName,
    /// The value given to the attribute; absent where the attribute is
    /// merely present.
    pub initializer: Option<JsxAttributeValue>,
    pub range: TextRange,
}

/// One slot of an element's attribute list.
#[derive(Debug)]
pub enum AnyJsxAttribute {
    JsxAttribute(JsxAttribute),
    /// `{...props}`: attributes that are known only when the program runs.
    JsxSpreadAttribute,
}

/// The opening tag `<name attributes>` of an element with children.
#[derive(Debug)]
pub struct JsxOpeningElement {
    /// Absent where the source lacks the name.
    pub name: Option<JsxElementName>,
    pub attributes: Vec<AnyJsxAttribute>,
    pub range: TextRange,
}

/// An element without children: `<name attributes />`.
#[derive(Debug)]
pub struct JsxSelfClosingElement {
    /// Absent where the source lacks the name.
    pub name: Option<JsxElementName>,
    pub attributes: Vec<AnyJsxAttribute>,
    pub range: TextRange,
}

/// An element with an opening tag, children and a closing tag.
#[derive(Debug)]
pub struct JsxElement {
    pub opening_element: JsxOpeningElement,
    pub children: Vec<AnyJsxChild>,
    /// The range that the children cover together, from the first to the
    /// last.
    pub children_range: TextRange,
    /// The range of the whole element, together with the blanks and comments
    /// that lead up to it.
    pub text_range: TextRange,
}

/// A child of an element or of a fragment.
#[derive(Debug)]
pub enum AnyJsxChild {
    JsxElement(JsxElement),
    /// `{expression}`; the braces may be empty.
    JsxExpressionChild(Option<Expression>),
    /// `<>children</>`.
    JsxFragment(Vec<AnyJsxChild>),
    JsxSelfClosingElement(JsxSelfClosingElement),
    /// `{...children}`.
    JsxSpreadChild,
    /// Text between tags.
    JsxText(String),
}

/// Either kind of tag that carries a name and attributes. The value borrows
/// from the tree; for an opening tag it also knows the element that the tag
/// opens, through which the children are reached.
#[derive(Clone, Copy, Debug)]
pub enum AnyJsxElement<'a> {
    JsxOpeningElement { element: &'a JsxOpeningElement, parent: Option<&'a JsxElement> },
    JsxSelfClosingElement(&'a JsxSelfClosingElement),
}

impl JsxAttributeValue {
    /// The constant that the value denotes, if it denotes one.
    pub open spec fn spec_as_static_value(&self) -> Option<StaticValue> {
        match self {
            JsxAttributeValue::Expression(expression) => expression.spec_as_static_value(),
            JsxAttributeValue::String(text) => Some(StaticValue::String(*text)),
            JsxAttributeValue::Tag | JsxAttributeValue::Missing => None,
        }
    }

    pub fn as_static_value(&self) -> (value: Option<StaticValue>)
        ensures
            value == self.spec_as_static_value(),
    {
        match self {
            JsxAttributeValue::Expression(expression) => expression.as_static_value(),
            JsxAttributeValue::String(text) => Some(StaticValue::String(text.clone())),
            JsxAttributeValue::Tag | JsxAttributeValue::Missing => None,
        }
    }
}

impl JsxAttribute {
    /// The constant that the attribute is set to, if it is set to one. An
    /// attribute without a value has none.
    pub open spec fn spec_as_static_value(&self) -> Option<StaticValue> {
        match self.initializer {
            Some(value) => value.spec_as_static_value(),
            None => None,
        }
    }

    /// Whether the attribute is switched on: it is merely present, or it is
    /// set to a constant that neither is falsy nor reads `false`. An
    /// attribute set to anything that folds to no constant is not known to
    /// be on.
    pub open spec fn spec_is_truthy(&self) -> bool {
        match self.initializer {
            None => true,
            Some(value) => match value.spec_as_static_value() {
                Some(constant) => !constant.spec_denies(),
                None => false,
            },
        }
    }

    pub fn as_static_value(&self) -> (value: Option<StaticValue>)
        ensures
            value == self.spec_as_static_value(),
    {
        match &self.initializer {
            Some(value) => value.as_static_value(),
            None => None,
        }
    }

    #[verifier::when_used_as_spec(spec_is_truthy)]
    pub fn is_truthy(&self) -> (truthy: bool)
        ensures
            truthy == self.spec_is_truthy(),
    {
        match &self.initializer {
            None => true,
            Some(value) => match value.as_static_value() {
                Some(constant) => !constant.denies(),
                None => false,
            },
        }
    }
}

/// Whether `attribute` is an attribute with the plain name `name`, compared
/// character by character.
pub open spec fn is_attribute_named(attribute: AnyJsxAttribute, name: Seq<char>) -> bool {
    attribute matches AnyJsxAttribute::JsxAttribute(JsxAttribute {
        name: JsxAttributeName::Name(text),
        ..
    }) && text@ == name
}

/// The property of being an attribute named `name`.
pub open spec fn named(name: Seq<char>) -> spec_fn(AnyJsxAttribute) -> bool {
    |attribute: AnyJsxAttribute| is_attribute_named(attribute, name)
}

/// The first attribute of the list, in source order, whose plain name is
/// `name`. Spread slots, names in a namespace and missing names are passed
/// over.
pub open spec fn attribute_by_name(attributes: Seq<AnyJsxAttribute>, name: Seq<char>) -> Option<
    JsxAttribute,
> {
    match first(attributes, named(name)) {
        Some(i) => match attributes[i] {
            AnyJsxAttribute::JsxAttribute(attribute) => Some(attribute),
            AnyJsxAttribute::JsxSpreadAttribute => None,
        },
        None => None,
    }
}

/// Whether some slot of the list is a spread.
pub open spec fn has_spread(attributes: Seq<AnyJsxAttribute>) -> bool {
    exists|i: int| 0 <= i < attributes.len() && #[trigger] attributes[i] is JsxSpreadAttribute
}

/// Whether the list holds an attribute named `name` and the first such
/// attribute is switched on.
pub open spec fn has_truthy(attributes: Seq<AnyJsxAttribute>, name: Seq<char>) -> bool {
    match attribute_by_name(attributes, name) {
        Some(attribute) => attribute.spec_is_truthy(),
        None => false,
    }
}

/// Whether a name is that of a component: it is there and is no plain name.
pub open spec fn names_component(name: Option<JsxElementName>) -> bool {
    name matches Some(n) && n.kind != ElementNameKind::Name
}

/// Whether a tag with this name and these attributes may count as content:
/// it is a component, or no truthy `aria-hidden` hides it.
pub open spec fn tag_is_accessible(
    name: Option<JsxElementName>,
    attributes: Seq<AnyJsxAttribute>,
) -> bool {
    names_component(name) || !has_truthy(attributes, "aria-hidden"@)
}

/// Whether the accessibility tree holds `child`: text that is not blank, an
/// expression that is not known to be falsy, an element of the markup
/// language that no truthy `aria-hidden` hides, any component (what a
/// component does with `aria-hidden` is not known), a fragment with such a
/// child. What cannot be classified counts as accessible.
pub open spec fn is_accessible(child: AnyJsxChild) -> bool
    decreases child,
{
    match child {
        AnyJsxChild::JsxText(text) => !is_blank(text@),
        AnyJsxChild::JsxExpressionChild(None) => true,
        AnyJsxChild::JsxExpressionChild(Some(expression)) => !expression.spec_is_falsy(),
        AnyJsxChild::JsxElement(element) => tag_is_accessible(
            element.opening_element.name,
            element.opening_element.attributes@,
        ),
        AnyJsxChild::JsxSelfClosingElement(element) => tag_is_accessible(
            element.name,
            element.attributes@,
        ),
        AnyJsxChild::JsxFragment(children) => exists|i: int|
            0 <= i < children@.len() && is_accessible(#[trigger] children@[i]),
        AnyJsxChild::JsxSpreadChild => true,
    }
}

/// Whether some child of the list is accessible. An empty list has none.
pub open spec fn has_accessible(children: Seq<AnyJsxChild>) -> bool {
    exists|i: int| 0 <= i < children.len() && is_accessible(#[trigger] children[i])
}

/// Finds the first attribute with the plain name `name`.
pub fn find_by_name<'a>(attributes: &'a Vec<AnyJsxAttribute>, name: &str) -> (found: Option<
    &'a JsxAttribute,
>)
    ensures
        match found {
            Some(attribute) => attribute_by_name(attributes@, name@) == Some(*attribute),
            None => attribute_by_name(attributes@, name@) is None,
        },
{
    let ghost wanted = named(name@);
    let mut i: usize = 0;
    while i < attributes.len()
        invariant
            i <= attributes.len(),
            wanted == named(name@),
            first(attributes@, wanted) == first_from(attributes@, wanted, i as int),
        decreases attributes.len() - i,
    {
        if let AnyJsxAttribute::JsxAttribute(attribute) = &attributes[i] {
            if let JsxAttributeName::Name(text) = &attribute.name {
                if str_eq(text.as_str(), name) {
                    return Some(attribute);
                }
            }
        }
        i += 1;
    }
    None
}

/// Whether the list holds a spread.
pub fn list_has_spread(attributes: &Vec<AnyJsxAttribute>) -> (spread: bool)
    ensures
        spread == has_spread(attributes@),
{
    let mut i: usize = 0;
    while i < attributes.len()
        invariant
            i <= attributes.len(),
            forall|j: int| 0 <= j < i ==> !(#[trigger] attributes@[j] is JsxSpreadAttribute),
        decreases attributes.len() - i,
    {
        if let AnyJsxAttribute::JsxSpreadAttribute = &attributes[i] {
            return true;
        }
        i += 1;
    }
    false
}

/// Whether the list holds a truthy attribute named `name`.
pub fn list_has_truthy(attributes: &Vec<AnyJsxAttribute>, name: &str) -> (truthy: bool)
    ensures
        truthy == has_truthy(attributes@, name@),
{
    match find_by_name(attributes, name) {
        Some(attribute) => attribute.is_truthy(),
        None => false,
    }
}

fn name_is_component(name: &Option<JsxElementName>) -> (component: bool)
    ensures
        component == names_component(*name),
{
    match name {
        Some(n) => match n.kind {
            ElementNameKind::Name => false,
            _ => true,
        },
        None => false,
    }
}

impl AnyJsxChild {
    /// Whether the child is content for a screen reader.
    pub fn is_accessible_node(&self) -> (accessible: bool)
        ensures
            accessible == is_accessible(*self),
        decreases *self,
    {
        match self {
            AnyJsxChild::JsxText(text) => !text_is_blank(text.as_str()),
            AnyJsxChild::JsxExpressionChild(None) => true,
            AnyJsxChild::JsxExpressionChild(Some(expression)) => !expression.is_falsy(),
            AnyJsxChild::JsxElement(element) => name_is_component(&element.opening_element.name)
                || !list_has_truthy(&element.opening_element.attributes, "aria-hidden"),
            AnyJsxChild::JsxSelfClosingElement(element) => name_is_component(&element.name)
                || !list_has_truthy(&element.attributes, "aria-hidden"),
            AnyJsxChild::JsxFragment(children) => any_accessible(children),
            AnyJsxChild::JsxSpreadChild => true,
        }
    }
}

/// Whether some child of the list is content for a screen reader.
pub fn any_accessible(children: &Vec<AnyJsxChild>) -> (accessible: bool)
    ensures
        accessible == has_accessible(children@),
    decreases *children,
{
    let mut i: usize = 0;
    while i < children.len()
        invariant
            i <= children.len(),
            forall|j: int| 0 <= j < i ==> !is_accessible(#[trigger] children@[j]),
        decreases children.len() - i,
    {
        if children[i].is_accessible_node() {
            return true;
        }
        i += 1;
    }
    false
}

impl JsxOpeningElement {
    pub fn find_attribute_by_name(&self, name: &str) -> (found: Option<&JsxAttribute>)
        ensures
            match found {
                Some(attribute) => attribute_by_name(self.attributes@, name@) == Some(*attribute),
                None => attribute_by_name(self.attributes@, name@) is None,
            },
    {
        find_by_name(&self.attributes, name)
    }
}

impl JsxSelfClosingElement {
    pub fn find_attribute_by_name(&self, name: &str) -> (found: Option<&JsxAttribute>)
        ensures
            match found {
                Some(attribute) => attribute_by_name(self.attributes@, name@) == Some(*attribute),
                None => attribute_by_name(self.attributes@, name@) is None,
            },
    {
        find_by_name(&self.attributes, name)
    }
}

impl<'a> AnyJsxElement<'a> {
    /// The opening tag of `element`, with the way back to the element.
    pub fn opening_of(element: &'a JsxElement) -> (tag: AnyJsxElement<'a>)
        ensures
            tag == (AnyJsxElement::JsxOpeningElement {
                element: &element.opening_element,
                parent: Some(element),
            }),
    {
        AnyJsxElement::JsxOpeningElement { element: &element.opening_element, parent: Some(element) }
    }

    pub open spec fn spec_name(&self) -> Option<JsxElementName> {
        match self {
            AnyJsxElement::JsxOpeningElement { element, .. } => element.name,
            AnyJsxElement::JsxSelfClosingElement(element) => element.name,
        }
    }

    pub open spec fn spec_attributes(&self) -> Seq<AnyJsxAttribute> {
        match self {
            AnyJsxElement::JsxOpeningElement { element, .. } => element.attributes@,
            AnyJsxElement::JsxSelfClosingElement(element) => element.attributes@,
        }
    }

    /// The text of the part of the name that names the element itself;
    /// none where the name or that part of it is missing.
    pub open spec fn spec_name_value_token(&self) -> Option<Seq<char>> {
        match self.spec_name() {
            Some(JsxElementName { value: Some(text), .. }) => Some(text@),
            _ => None,
        }
    }

    /// Whether the tag is that of a component: `<Button />` is, `<span />`
    /// is not, nor is a tag without a name.
    pub open spec fn spec_is_custom_component(&self) -> bool {
        names_component(self.spec_name())
    }

    /// Whether some attribute slot of the tag is a spread.
    pub open spec fn spec_has_spread_prop(&self) -> bool {
        has_spread(self.spec_attributes())
    }

    /// The first attribute of the tag with the plain name `name`.
    pub open spec fn spec_find_attribute_by_name(&self, name: Seq<char>) -> Option<JsxAttribute> {
        attribute_by_name(self.spec_attributes(), name)
    }

    /// Whether the tag has an attribute named `name` that is switched on.
    pub open spec fn spec_has_truthy_attribute(&self, name: Seq<char>) -> bool {
        has_truthy(self.spec_attributes(), name)
    }

    /// Whether the element that this tag opens has a child that a screen
    /// reader can reach. A self-closing tag has no children, and an opening
    /// tag that knows no element has none to show.
    pub open spec fn spec_has_accessible_child(&self) -> bool {
        match self {
            AnyJsxElement::JsxOpeningElement { parent: Some(parent), .. } => has_accessible(
                parent.children@,
            ),
            _ => false,
        }
    }

    pub fn name(&self) -> (name: &'a Option<JsxElementName>)
        ensures
            *name == self.spec_name(),
    {
        match self {
            AnyJsxElement::JsxOpeningElement { element, .. } => &element.name,
            AnyJsxElement::JsxSelfClosingElement(element) => &element.name,
        }
    }

    pub fn attributes(&self) -> (attributes: &'a Vec<AnyJsxAttribute>)
        ensures
            attributes@ == self.spec_attributes(),
    {
        match self {
            AnyJsxElement::JsxOpeningElement { element, .. } => &element.attributes,
            AnyJsxElement::JsxSelfClosingElement(element) => &element.attributes,
        }
    }

    pub fn name_value_token(&self) -> (token: Option<&'a str>)
        ensures
            match token {
                Some(text) => self.spec_name_value_token() == Some(text@),
                None => self.spec_name_value_token() is None,
            },
    {
        match self.name() {
            Some(name) => match &name.value {
                Some(text) => Some(text.as_str()),
                None => None,
            },
            None => None,
        }
    }

    #[verifier::when_used_as_spec(spec_is_custom_component)]
    pub fn is_custom_component(&self) -> (component: bool)
        ensures
            component == self.spec_is_custom_component(),
    {
        name_is_component(self.name())
    }

    #[verifier::when_used_as_spec(spec_has_spread_prop)]
    pub fn has_spread_prop(&self) -> (spread: bool)
        ensures
            spread == self.spec_has_spread_prop(),
    {
        list_has_spread(self.attributes())
    }

    pub fn find_attribute_by_name(&self, name: &str) -> (found: Option<&'a JsxAttribute>)
        ensures
            match found {
                Some(attribute) => self.spec_find_attribute_by_name(name@) == Some(*attribute),
                None => self.spec_find_attribute_by_name(name@) is None,
            },
    {
        find_by_name(self.attributes(), name)
    }

    pub fn has_truthy_attribute(&self, name: &str) -> (truthy: bool)
        ensures
            truthy == self.spec_has_truthy_attribute(name@),
    {
        list_has_truthy(self.attributes(), name)
    }

    #[verifier::when_used_as_spec(spec_has_accessible_child)]
    pub fn has_accessible_child(&self) -> (accessible: bool)
        ensures
            accessible == self.spec_has_accessible_child(),
    {
        match self {
            AnyJsxElement::JsxOpeningElement { parent: Some(parent), .. } => any_accessible(
                &parent.children,
            ),
            _ => false,
        }
    }
}

impl<'a> NodeKind<'a> for AnyJsxElement<'a> {
    open spec fn spec_cast(node: SyntaxNode<'a>) -> Option<Self> {
        match node {
            SyntaxNode::JsxOpeningElement { element, parent } => Some(
                AnyJsxElement::JsxOpeningElement { element, parent },
            ),
            SyntaxNode::JsxSelfClosingElement(element) => Some(
                AnyJsxElement::JsxSelfClosingElement(element),
            ),
            _ => None,
        }
    }

    fn cast(node: SyntaxNode<'a>) -> (found: Option<Self>) {
        match node {
            SyntaxNode::JsxOpeningElement { element, parent } => Some(
                AnyJsxElement::JsxOpeningElement { element, parent },
            ),
            SyntaxNode::JsxSelfClosingElement(element) => Some(
                AnyJsxElement::JsxSelfClosingElement(element),
            ),
            _ => None,
        }
    }
}

} // verus!
