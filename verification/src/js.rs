//! The expressions of the scripting language, as far as the rules read them.

use crate::search::{first, first_from};
use crate::static_value::StaticValue;
use crate::text::{str_eq, TextRange};
use vstd::prelude::*;

verus! {

/// One piece of a template literal.
#[derive(Debug)]
pub enum TemplateElement {
    /// Literal text between two substitutions.
    Chunk(String),
    /// A substitution `${..}`.
    Substitution,
}

/// The name of a member of an object literal.
#[derive(Debug)]
pub enum MemberName {
    /// An identifier, a string or a number; the text is held without quotes.
    Literal(String),
    /// A computed name `[..]`.
    Computed,
    /// The name is missing from the source.
    Missing,
}

/// A member `name: value` of an object literal.
#[derive(Debug)]
pub struct JsPropertyObjectMember {
    pub name: MemberName,
    /// The range of the whole member, name and value.
    pub range: TextRange,
}

/// A member of an object literal.
#[derive(Debug)]
pub enum AnyJsObjectMember {
    JsPropertyObjectMember(JsPropertyObjectMember),
    /// A shorthand property, a method, an accessor, a spread, or a member
    /// that could not be parsed.
    Other,
}

/// An object literal.
#[derive(Debug)]
pub struct JsObjectExpression {
    pub members: Vec<AnyJsObjectMember>,
}

/// What an expression is.
#[derive(Debug)]
pub enum ExpressionKind {
    Boolean(bool),
    Null,
    /// A number literal, as written.
    Number(String),
    /// A big integer literal, as written.
    BigInt(String),
    /// A string literal: its text between the quotes.
    String(String),
    Regex,
    /// A template literal, piece by piece.
    Template(Vec<TemplateElement>),
    /// A reference to a name. The range of the expression identifies the
    /// reference in the semantic model.
    Identifier(String),
    /// A member access `object.member` or `object["member"]`; `member` is
    /// absent where the member is computed from anything but a string.
    Member { object: Box<Expression>, member: Option<String> },
    Object(JsObjectExpression),
    /// An expression in parentheses.
    Parenthesized(Box<Expression>),
    /// Any other expression: its value is not known before it runs.
    Other,
}

/// An expression and where it stands in the source.
#[derive(Debug)]
pub struct Expression {
    pub kind: ExpressionKind,
    pub range: TextRange,
}

/// An argument of a call.
#[derive(Debug)]
pub enum CallArgument {
    Expression(Expression),
    /// A spread argument `...rest`.
    Spread,
    /// A hole in the list: the source holds no argument where one belongs.
    Missing,
}

/// A call `callee(arguments)`.
#[derive(Debug)]
pub struct JsCallExpression {
    /// The called expression; absent where the source holds none.
    pub callee: Option<Expression>,
    /// The arguments; absent where the source holds no argument list.
    pub arguments: Option<Vec<CallArgument>>,
    pub range: TextRange,
}

/// The constant that a template denotes: the empty string where it has no
/// piece, its text where it is a single chunk, none where it substitutes.
pub open spec fn template_static_value(elements: Seq<TemplateElement>) -> Option<StaticValue> {
    if elements.len() == 0 {
        Some(StaticValue::EmptyString)
    } else if elements.len() > 1 {
        None
    } else {
        match elements[0] {
            TemplateElement::Chunk(text) => Some(StaticValue::String(text)),
            TemplateElement::Substitution => None,
        }
    }
}

impl Expression {
    /// The constant that the expression denotes, if it denotes one as it
    /// stands: a literal but a regular expression, a template without
    /// substitutions, or the name `undefined`. Parentheses are not looked
    /// through.
    pub open spec fn spec_as_static_value(&self) -> Option<StaticValue> {
        match self.kind {
            ExpressionKind::Boolean(value) => Some(StaticValue::Boolean(value)),
            ExpressionKind::Null => Some(StaticValue::Null),
            ExpressionKind::Number(text) => Some(StaticValue::Number(text)),
            ExpressionKind::BigInt(text) => Some(StaticValue::BigInt(text)),
            ExpressionKind::String(text) => Some(StaticValue::String(text)),
            ExpressionKind::Template(elements) => template_static_value(elements@),
            ExpressionKind::Identifier(name) => if name@ == "undefined"@ {
                Some(StaticValue::Undefined)
            } else {
                None
            },
            _ => None,
        }
    }

    /// Whether the expression is known to be falsy. An expression that folds
    /// to no constant is not.
    pub open spec fn spec_is_falsy(&self) -> bool {
        match self.spec_as_static_value() {
            Some(value) => value.spec_is_falsy(),
            None => false,
        }
    }

    /// The expression inside all the parentheses around it.
    pub open spec fn spec_omit_parentheses(&self) -> Expression
        decreases *self,
    {
        match self.kind {
            ExpressionKind::Parenthesized(inner) => inner.spec_omit_parentheses(),
            _ => *self,
        }
    }

    pub fn as_static_value(&self) -> (value: Option<StaticValue>)
        ensures
            value == self.spec_as_static_value(),
    {
        match &self.kind {
            ExpressionKind::Boolean(value) => Some(StaticValue::Boolean(*value)),
            ExpressionKind::Null => Some(StaticValue::Null),
            ExpressionKind::Number(text) => Some(StaticValue::Number(text.clone())),
            ExpressionKind::BigInt(text) => Some(StaticValue::BigInt(text.clone())),
            ExpressionKind::String(text) => Some(StaticValue::String(text.clone())),
            ExpressionKind::Template(elements) => {
                if elements.len() == 0 {
                    Some(StaticValue::EmptyString)
                } else if elements.len() > 1 {
                    None
                } else {
                    match &elements[0] {
                        TemplateElement::Chunk(text) => Some(StaticValue::String(text.clone())),
                        TemplateElement::Substitution => None,
                    }
                }
            },
            ExpressionKind::Identifier(name) => {
                if str_eq(name.as_str(), "undefined") {
                    Some(StaticValue::Undefined)
                } else {
                    None
                }
            },
            _ => None,
        }
    }

    #[verifier::when_used_as_spec(spec_is_falsy)]
    pub fn is_falsy(&self) -> (falsy: bool)
        ensures
            falsy == self.spec_is_falsy(),
    {
        match self.as_static_value() {
            Some(value) => value.is_falsy(),
            None => false,
        }
    }

    pub fn omit_parentheses(&self) -> (inner: &Expression)
        ensures
            *inner == self.spec_omit_parentheses(),
            !(inner.kind is Parenthesized),
        decreases *self,
    {
        match &self.kind {
            ExpressionKind::Parenthesized(inner) => inner.omit_parentheses(),
            _ => self,
        }
    }
}

/// Whether the value of `expression` is not known before it runs: it is
/// neither a literal nor the name `undefined` nor a template without
/// substitutions.
pub open spec fn is_dynamic(expression: Expression) -> bool {
    match expression.kind {
        ExpressionKind::Identifier(name) => name@ != "undefined"@,
        ExpressionKind::Template(elements) => elements@.len() > 1 || (elements@.len() == 1
            && elements@[0] is Substitution),
        ExpressionKind::Regex | ExpressionKind::Member { .. } | ExpressionKind::Object(_)
        | ExpressionKind::Parenthesized(_) | ExpressionKind::Other => true,
        _ => false,
    }
}

/// A dynamic expression folds to no constant and is never taken for falsy;
/// every other expression folds to one.
pub proof fn lemma_dynamic_is_not_falsy(expression: Expression)
    ensures
        is_dynamic(expression) <==> expression.spec_as_static_value() is None,
        is_dynamic(expression) ==> !expression.spec_is_falsy(),
{
}

/// Whether `member` is a property with the literal name `name`.
pub open spec fn is_property_named(member: AnyJsObjectMember, name: Seq<char>) -> bool {
    member matches AnyJsObjectMember::JsPropertyObjectMember(JsPropertyObjectMember {
        name: MemberName::Literal(text),
        ..
    }) && text@ == name
}

/// The property of being a property named `name`.
pub open spec fn property_named(name: Seq<char>) -> spec_fn(AnyJsObjectMember) -> bool {
    |member: AnyJsObjectMember| is_property_named(member, name)
}

/// The first member of the list, in source order, that is a property with
/// the literal name `name`. Members of any other form are passed over.
pub open spec fn property_by_name(members: Seq<AnyJsObjectMember>, name: Seq<char>) -> Option<
    JsPropertyObjectMember,
> {
    match first(members, property_named(name)) {
        Some(i) => match members[i] {
            AnyJsObjectMember::JsPropertyObjectMember(property) => Some(property),
            AnyJsObjectMember::Other => None,
        },
        None => None,
    }
}

impl JsObjectExpression {
    /// Finds the first property with the literal name `name`.
    pub fn find_property_by_name(&self, name: &str) -> (found: Option<&JsPropertyObjectMember>)
        ensures
            match found {
                Some(property) => property_by_name(self.members@, name@) == Some(*property),
                None => property_by_name(self.members@, name@) is None,
            },
    {
        let ghost wanted = property_named(name@);
        let mut i: usize = 0;
        while i < self.members.len()
            invariant
                i <= self.members.len(),
                wanted == property_named(name@),
                first(self.members@, wanted) == first_from(self.members@, wanted, i as int),
            decreases self.members.len() - i,
        {
            if let AnyJsObjectMember::JsPropertyObjectMember(property) = &self.members[i] {
                if let MemberName::Literal(text) = &property.name {
                    if str_eq(text.as_str(), name) {
                        return Some(property);
                    }
                }
            }
            i += 1;
        }
        None
    }
}

} // verus!
