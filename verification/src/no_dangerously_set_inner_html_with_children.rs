//! The rule that an element is not given both children and the attribute
//! `dangerouslySetInnerHTML`: the HTML that is set replaces the children.
//!
//! The rule reads an element written in markup and a call of
//! `createElement` alike. Each of these is reported:
//!
//! ```text
//! <Component dangerouslySetInnerHTML={createMarkup()}>"child1"</Component>
//! <Component dangerouslySetInnerHTML={createMarkup()} children="child1" />
//! React.createElement('div', { dangerouslySetInnerHTML: { __html: 'HTML' } }, 'children')
//! ```

use crate::diagnostic::{DetailView, Diagnostic, DiagnosticView};
use crate::js::{
    property_by_name, CallArgument, Expression, ExpressionKind, JsCallExpression,
    JsPropertyObjectMember,
};
use crate::jsx::{attribute_by_name, JsxAttribute, JsxElement, JsxSelfClosingElement};
use crate::react::{children_of, is_create_element, props_of, ReactCreateElementCall};
use crate::rule::{NodeKind, Rule, Semantic, SyntaxNode};
use crate::semantic::{Declaration, SemanticModel};
use crate::text::TextRange;
use vstd::prelude::*;

verus! {

pub struct NoDangerouslySetInnerHtmlWithChildren;

/// An attribute in either of its forms: of a tag, or of the object that a
/// call of `createElement` passes.
#[derive(Clone, Copy, Debug)]
pub enum DangerousProp<'a> {
    JsxAttribute(&'a JsxAttribute),
    JsPropertyObjectMember(&'a JsPropertyObjectMember),
}

impl<'a> DangerousProp<'a> {
    pub open spec fn spec_range(&self) -> TextRange {
        match self {
            DangerousProp::JsxAttribute(attribute) => attribute.range,
            DangerousProp::JsPropertyObjectMember(property) => property.range,
        }
    }

    /// Where the attribute stands in the source.
    #[verifier::when_used_as_spec(spec_range)]
    pub fn range(&self) -> (range: TextRange)
        ensures
            range == self.spec_range(),
    {
        match self {
            DangerousProp::JsxAttribute(attribute) => attribute.range,
            DangerousProp::JsPropertyObjectMember(property) => property.range,
        }
    }
}

/// The kind of children found, with the place where they stand.
#[derive(Clone, Copy, Debug, PartialEq, Eq, Structural)]
pub enum ChildrenKind {
    /// As an attribute: `<Component children="child" />`.
    Prop(TextRange),
    /// As direct descendants: `<ComponentA><ComponentB /> </ComponentA>`.
    Direct(TextRange),
}

impl ChildrenKind {
    pub open spec fn spec_range(&self) -> TextRange {
        match self {
            ChildrenKind::Prop(range) | ChildrenKind::Direct(range) => *range,
        }
    }

    /// Where the children stand in the source.
    pub fn range(&self) -> (range: &TextRange)
        ensures
            *range == self.spec_range(),
    {
        match self {
            ChildrenKind::Prop(range) | ChildrenKind::Direct(range) => range,
        }
    }
}

/// What the rule keeps of a match.
#[derive(Clone, Copy, Debug, PartialEq, Eq, Structural)]
pub struct RuleState {
    /// The place of the attribute `dangerouslySetInnerHTML`.
    pub dangerous_prop: TextRange,
    /// The kind of children found.
    pub children_kind: ChildrenKind,
}

/// Anything that creates an element: an element with children, a
/// self-closing element, or a call that may be one of `createElement`.
#[derive(Clone, Copy, Debug)]
pub enum AnyJsCreateElement<'a> {
    JsxElement(&'a JsxElement),
    JsxSelfClosingElement(&'a JsxSelfClosingElement),
    JsCallExpression(&'a JsCallExpression),
}

/// The place of the children that a call with these arguments passes
/// directly: that of the first argument after the attributes, where it is an
/// expression.
pub open spec fn direct_children_of(arguments: Seq<CallArgument>) -> Option<TextRange> {
    let children = children_of(arguments);
    if children.len() > 0 {
        match children[0] {
            CallArgument::Expression(child) => Some(child.range),
            _ => None,
        }
    } else {
        None
    }
}

impl<'a> AnyJsCreateElement<'a> {
    /// The place of the direct children, if the element has any. An
    /// attribute `children` is no direct child. A call that is not known to
    /// be one of `createElement` has none.
    pub open spec fn spec_has_children(&self, model: &SemanticModel) -> Option<TextRange> {
        match self {
            AnyJsCreateElement::JsxElement(element) => if element.children@.len() > 0 {
                Some(element.children_range)
            } else {
                None
            },
            AnyJsCreateElement::JsxSelfClosingElement(_) => None,
            AnyJsCreateElement::JsCallExpression(call) => if is_create_element(**call, *model) {
                direct_children_of(call.arguments->0@)
            } else {
                None
            },
        }
    }

    /// The first attribute named `name` that the element is given: of the
    /// tag, or of the object that the call passes. A call that is not known
    /// to be one of `createElement` has none.
    pub open spec fn spec_find_prop(&self, model: &SemanticModel, name: Seq<char>) -> Option<
        DangerousProp<'a>,
    > {
        match self {
            AnyJsCreateElement::JsxElement(element) => match attribute_by_name(
                element.opening_element.attributes@,
                name,
            ) {
                Some(attribute) => Some(DangerousProp::JsxAttribute(&attribute)),
                None => None,
            },
            AnyJsCreateElement::JsxSelfClosingElement(element) => match attribute_by_name(
                element.attributes@,
                name,
            ) {
                Some(attribute) => Some(DangerousProp::JsxAttribute(&attribute)),
                None => None,
            },
            AnyJsCreateElement::JsCallExpression(call) => if is_create_element(**call, *model) {
                match props_of(call.arguments->0@) {
                    Some(props) => match property_by_name(props.members@, name) {
                        Some(property) => Some(DangerousProp::JsPropertyObjectMember(&property)),
                        None => None,
                    },
                    None => None,
                }
            } else {
                None
            },
        }
    }

    /// What the rule finds on the element: the place of the attribute
    /// `dangerouslySetInnerHTML` together with the place of the children,
    /// which are the direct children where there are any and else the
    /// attribute `children`. Without the one or without the other it finds
    /// nothing.
    pub open spec fn spec_conflict(&self, model: &SemanticModel) -> Option<RuleState> {
        match self.spec_find_prop(model, "dangerouslySetInnerHTML"@) {
            Some(dangerous_prop) => match self.spec_has_children(model) {
                Some(children) => Some(
                    RuleState {
                        dangerous_prop: dangerous_prop.spec_range(),
                        children_kind: ChildrenKind::Direct(children),
                    },
                ),
                None => match self.spec_find_prop(model, "children"@) {
                    Some(children_prop) => Some(
                        RuleState {
                            dangerous_prop: dangerous_prop.spec_range(),
                            children_kind: ChildrenKind::Prop(children_prop.spec_range()),
                        },
                    ),
                    None => None,
                },
            },
            None => None,
        }
    }

    /// Checks whether the element has direct children (no `children`
    /// attribute), and says where they stand.
    pub fn has_children(&self, model: &SemanticModel) -> (children: Option<TextRange>)
        ensures
            children == self.spec_has_children(model),
    {
        match self {
            AnyJsCreateElement::JsxElement(element) => {
                if element.children.len() > 0 {
                    Some(element.children_range)
                } else {
                    None
                }
            },
            AnyJsCreateElement::JsxSelfClosingElement(_) => None,
            AnyJsCreateElement::JsCallExpression(call) => {
                let react_create_element = match ReactCreateElementCall::from_call_expression(
                    call,
                    model,
                ) {
                    Some(react_create_element) => react_create_element,
                    None => {
                        return None;
                    },
                };
                if react_create_element.children.len() > 0 {
                    match &react_create_element.children[0] {
                        CallArgument::Expression(Expression { range, .. }) => Some(*range),
                        _ => None,
                    }
                } else {
                    None
                }
            },
        }
    }

    fn find_prop(&self, model: &SemanticModel, name: &str) -> (found: Option<DangerousProp<'a>>)
        ensures
            found == self.spec_find_prop(model, name@),
    {
        match self {
            AnyJsCreateElement::JsxElement(element) => {
                match element.opening_element.find_attribute_by_name(name) {
                    Some(attribute) => Some(DangerousProp::JsxAttribute(attribute)),
                    None => None,
                }
            },
            AnyJsCreateElement::JsxSelfClosingElement(element) => {
                match element.find_attribute_by_name(name) {
                    Some(attribute) => Some(DangerousProp::JsxAttribute(attribute)),
                    None => None,
                }
            },
            AnyJsCreateElement::JsCallExpression(call) => {
                let react_create_element = match ReactCreateElementCall::from_call_expression(
                    call,
                    model,
                ) {
                    Some(react_create_element) => react_create_element,
                    None => {
                        return None;
                    },
                };
                match react_create_element.find_prop_by_name(name) {
                    Some(property) => Some(DangerousProp::JsPropertyObjectMember(property)),
                    None => None,
                }
            },
        }
    }

    /// Finds the attribute `dangerouslySetInnerHTML` of the element.
    pub fn find_dangerous_prop(&self, model: &SemanticModel) -> (found: Option<DangerousProp<'a>>)
        ensures
            found == self.spec_find_prop(model, "dangerouslySetInnerHTML"@),
    {
        self.find_prop(model, "dangerouslySetInnerHTML")
    }

    /// Finds the attribute `children` of the element.
    pub fn find_children_prop(&self, model: &SemanticModel) -> (found: Option<DangerousProp<'a>>)
        ensures
            found == self.spec_find_prop(model, "children"@),
    {
        self.find_prop(model, "children")
    }
}

impl<'a> NodeKind<'a> for AnyJsCreateElement<'a> {
    open spec fn spec_cast(node: SyntaxNode<'a>) -> Option<Self> {
        match node {
            SyntaxNode::JsxElement(element) => Some(AnyJsCreateElement::JsxElement(element)),
            SyntaxNode::JsxSelfClosingElement(element) => Some(
                AnyJsCreateElement::JsxSelfClosingElement(element),
            ),
            SyntaxNode::JsCallExpression(call) => Some(AnyJsCreateElement::JsCallExpression(call)),
            _ => None,
        }
    }

    fn cast(node: SyntaxNode<'a>) -> (found: Option<Self>) {
        match node {
            SyntaxNode::JsxElement(element) => Some(AnyJsCreateElement::JsxElement(element)),
            SyntaxNode::JsxSelfClosingElement(element) => Some(
                AnyJsCreateElement::JsxSelfClosingElement(element),
            ),
            SyntaxNode::JsCallExpression(call) => Some(AnyJsCreateElement::JsCallExpression(call)),
            _ => None,
        }
    }
}

impl<'a> Rule<Semantic<'a, AnyJsCreateElement<'a>>> for NoDangerouslySetInnerHtmlWithChildren {
    type State = RuleState;

    /// One signal where the element has both, none where it does not.
    open spec fn signals(query: &Semantic<'a, AnyJsCreateElement<'a>>) -> Seq<RuleState> {
        match query.node.spec_conflict(query.model) {
            Some(state) => seq![state],
            None => Seq::empty(),
        }
    }

    /// Every signal is reported: at the attribute, with the children as a
    /// further place.
    open spec fn report(
        query: &Semantic<'a, AnyJsCreateElement<'a>>,
        state: &RuleState,
    ) -> Option<DiagnosticView> {
        Some(
            DiagnosticView {
                category: "lint/security/noDangerouslySetInnerHtmlWithChildren"@,
                range: state.dangerous_prop,
                message: "Avoid passing both children and the dangerouslySetInnerHTML prop."@,
                details: seq![
                    DetailView {
                        range: state.children_kind.spec_range(),
                        message: "This is the source of the children prop"@,
                    },
                ],
                notes: seq![
                    "Setting HTML content will inadvertently override any passed children in React"@,
                ],
            },
        )
    }

    fn run(query: &Semantic<'a, AnyJsCreateElement<'a>>) -> (signals: Vec<RuleState>) {
        let node = &query.node;
        let model = query.model;
        let mut signals: Vec<RuleState> = Vec::new();
        if let Some(dangerous_prop) = node.find_dangerous_prop(model) {
            let dangerous_prop = dangerous_prop.range();
            if let Some(children) = node.has_children(model) {
                signals.push(RuleState { children_kind: ChildrenKind::Direct(children), dangerous_prop });
            } else if let Some(children_prop) = node.find_children_prop(model) {
                signals.push(
                    RuleState { children_kind: ChildrenKind::Prop(children_prop.range()), dangerous_prop },
                );
            }
        }
        signals
    }

    fn diagnostic(
        query: &Semantic<'a, AnyJsCreateElement<'a>>,
        state: &RuleState,
    ) -> (diagnostic: Option<Diagnostic>) {
        Some(
            Diagnostic::new(
                "lint/security/noDangerouslySetInnerHtmlWithChildren",
                state.dangerous_prop,
                "Avoid passing both children and the dangerouslySetInnerHTML prop.",
            ).detail(*state.children_kind.range(), "This is the source of the children prop").note(
                "Setting HTML content will inadvertently override any passed children in React",
            ),
        )
    }
}

/// The rule gives at most one signal on an element.
pub proof fn lemma_at_most_one_signal<'a>(query: Semantic<'a, AnyJsCreateElement<'a>>)
    ensures
        NoDangerouslySetInnerHtmlWithChildren::signals(&query).len() <= 1,
{
}

/// A call whose callee resolves to a declaration of the file itself is never
/// reported, whatever its arguments are: neither where the callee is such a
/// name, nor where it is a member of such a name.
pub proof fn lemma_shadowed_callee<'a>(query: Semantic<'a, AnyJsCreateElement<'a>>)
    requires
        ({
            &&& query.node matches AnyJsCreateElement::JsCallExpression(call)
            &&& call.callee matches Some(callee)
            &&& {
                let callee = callee.spec_omit_parentheses();
                ||| callee.kind is Identifier && query.model.spec_binding(callee.range) == Some(
                    Declaration::Local,
                )
                ||| (callee.kind matches ExpressionKind::Member { object, .. }
                    && query.model.spec_binding(object.spec_omit_parentheses().range) == Some(
                    Declaration::Local,
                ))
            }
        }),
    ensures
        NoDangerouslySetInnerHtmlWithChildren::signals(&query) == Seq::<RuleState>::empty(),
{
}

/// An element written in markup that has the attribute
/// `dangerouslySetInnerHTML` and no direct children is reported exactly
/// where it also has the attribute `children`, and then the children are
/// found at that attribute.
pub proof fn lemma_children_attribute<'a>(
    query: Semantic<'a, AnyJsCreateElement<'a>>,
    dangerous_prop: DangerousProp<'a>,
)
    requires
        !(query.node is JsCallExpression),
        query.node.spec_has_children(query.model) is None,
        query.node.spec_find_prop(query.model, "dangerouslySetInnerHTML"@) == Some(dangerous_prop),
    ensures
        match query.node.spec_find_prop(query.model, "children"@) {
            Some(children_prop) => NoDangerouslySetInnerHtmlWithChildren::signals(&query) == seq![
                RuleState {
                    dangerous_prop: dangerous_prop.spec_range(),
                    children_kind: ChildrenKind::Prop(children_prop.spec_range()),
                },
            ],
            None => NoDangerouslySetInnerHtmlWithChildren::signals(&query) == Seq::<
                RuleState,
            >::empty(),
        },
{
}

/// A call of `createElement` whose attributes hold `dangerouslySetInnerHTML`
/// and whose first argument after the attributes is an expression is
/// reported: at the property, with that argument as the place of the
/// children.
pub proof fn lemma_call_with_children<'a>(
    query: Semantic<'a, AnyJsCreateElement<'a>>,
    dangerous_prop: JsPropertyObjectMember,
    child: Expression,
)
    requires
        ({
            &&& query.node matches AnyJsCreateElement::JsCallExpression(call)
            &&& is_create_element(*call, *query.model)
            &&& call.arguments matches Some(arguments)
            &&& arguments@.len() >= 3
            &&& arguments@[2] == CallArgument::Expression(child)
            &&& props_of(arguments@) matches Some(props)
            &&& property_by_name(props.members@, "dangerouslySetInnerHTML"@) == Some(dangerous_prop)
        }),
    ensures
        NoDangerouslySetInnerHtmlWithChildren::signals(&query) == seq![
            RuleState {
                dangerous_prop: dangerous_prop.range,
                children_kind: ChildrenKind::Direct(child.range),
            },
        ],
{
}

} // verus!
