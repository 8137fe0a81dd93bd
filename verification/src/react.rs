//! Recognizing calls of the element factory `createElement`, so that a rule
//! can read such a call as it reads an element written in markup.

use crate::js::{
    property_by_name, CallArgument, Expression, ExpressionKind, JsCallExpression,
    JsObjectExpression, JsPropertyObjectMember,
};
use crate::semantic::SemanticModel;
use crate::text::str_eq;
use vstd::prelude::*;
use vstd::slice::slice_subrange;

verus! {

/// A library whose functions the rules know.
#[derive(Clone, Copy, Debug, PartialEq, Eq, Structural)]
pub enum ReactLibrary {
    React,
    ReactDOM,
}

impl ReactLibrary {
    /// The module that the library is imported from.
    pub open spec fn spec_import_name(self) -> Seq<char> {
        match self {
            ReactLibrary::React => "react"@,
            ReactLibrary::ReactDOM => "react-dom"@,
        }
    }

    /// The global under which the library is found where it is not imported.
    pub open spec fn spec_global_name(self) -> Seq<char> {
        match self {
            ReactLibrary::React => "React"@,
            ReactLibrary::ReactDOM => "ReactDOM"@,
        }
    }

    pub fn import_name(self) -> (name: &'static str)
        ensures
            name@ == self.spec_import_name(),
    {
        match self {
            ReactLibrary::React => "react",
            ReactLibrary::ReactDOM => "react-dom",
        }
    }

    pub fn global_name(self) -> (name: &'static str)
        ensures
            name@ == self.spec_global_name(),
    {
        match self {
            ReactLibrary::React => "React",
            ReactLibrary::ReactDOM => "ReactDOM",
        }
    }
}

/// Whether `callee` names the function `api_name` of `lib`. Parentheses
/// around the callee and around the object of a member access do not count.
///
/// - `object.api_name` does where `object` is a reference that resolves to
///   an import from the library's module, or is unresolved and is the
///   library's global.
/// - A reference does where it resolves to the named import of `api_name`
///   from the library's module, under whatever local name.
/// - Nothing else does: a reference that resolves to a declaration of the
///   file itself never names the library, whatever it is called.
pub open spec fn spec_is_react_call_api(
    callee: Expression,
    model: SemanticModel,
    lib: ReactLibrary,
    api_name: Seq<char>,
) -> bool {
    let callee = callee.spec_omit_parentheses();
    match callee.kind {
        ExpressionKind::Member { object, member } => {
            let object = object.spec_omit_parentheses();
            &&& member matches Some(member_name) && member_name@ == api_name
            &&& object.kind matches ExpressionKind::Identifier(object_name) && match model.spec_binding(
                object.range,
            ) {
                Some(declaration) => declaration.spec_is_import_from(lib.spec_import_name()),
                None => object_name@ == lib.spec_global_name(),
            }
        },
        ExpressionKind::Identifier(_) => match model.spec_binding(callee.range) {
            Some(declaration) => declaration.spec_is_named_import(lib.spec_import_name(), api_name),
            None => false,
        },
        _ => false,
    }
}

pub fn is_react_call_api(
    callee: &Expression,
    model: &SemanticModel,
    lib: ReactLibrary,
    api_name: &str,
) -> (known: bool)
    ensures
        known == spec_is_react_call_api(*callee, *model, lib, api_name@),
{
    let callee = callee.omit_parentheses();
    match &callee.kind {
        ExpressionKind::Member { object, member } => {
            let object = object.omit_parentheses();
            let member_matches = match member {
                Some(member_name) => str_eq(member_name.as_str(), api_name),
                None => false,
            };
            if !member_matches {
                return false;
            }
            match &object.kind {
                ExpressionKind::Identifier(object_name) => match model.binding(object.range) {
                    Some(declaration) => declaration.is_import_from(lib.import_name()),
                    None => str_eq(object_name.as_str(), lib.global_name()),
                },
                _ => false,
            }
        },
        ExpressionKind::Identifier(_) => match model.binding(callee.range) {
            Some(declaration) => declaration.is_named_import(lib.import_name(), api_name),
            None => false,
        },
        _ => false,
    }
}

/// A call of `createElement`, read as the element it creates. The value
/// borrows the arguments of the call; it changes nothing.
#[derive(Clone, Copy, Debug)]
pub struct ReactCreateElementCall<'a> {
    /// The first argument: what kind of element to create.
    pub element_type: &'a CallArgument,
    /// The second argument where it is an object literal: the attributes.
    pub props: Option<&'a JsObjectExpression>,
    /// The arguments after the second: the children, in order.
    pub children: &'a [CallArgument],
}

/// The attributes that a call with these arguments passes: the second
/// argument, where there is one and it is an object literal.
pub open spec fn props_of(arguments: Seq<CallArgument>) -> Option<JsObjectExpression> {
    if arguments.len() >= 2 {
        match arguments[1] {
            CallArgument::Expression(Expression { kind: ExpressionKind::Object(object), .. }) => Some(
                object,
            ),
            _ => None,
        }
    } else {
        None
    }
}

/// The children that a call with these arguments passes: the arguments after
/// the second.
pub open spec fn children_of(arguments: Seq<CallArgument>) -> Seq<CallArgument> {
    if arguments.len() >= 2 {
        arguments.subrange(2, arguments.len() as int)
    } else {
        Seq::empty()
    }
}

/// Whether `call` is a call of the element factory that can be read as an
/// element: its callee names `createElement` of React, and its first
/// argument is there.
pub open spec fn is_create_element(call: JsCallExpression, model: SemanticModel) -> bool {
    &&& call.callee matches Some(callee) && spec_is_react_call_api(
        callee,
        model,
        ReactLibrary::React,
        "createElement"@,
    )
    &&& call.arguments matches Some(arguments) && arguments@.len() > 0 && !(arguments@[0] is Missing)
}

impl<'a> ReactCreateElementCall<'a> {
    /// Reads `call` as the creation of an element. There is a result
    /// exactly where `is_create_element` holds; it then exposes the first
    /// argument, the attributes and the children of the call.
    pub fn from_call_expression(call: &'a JsCallExpression, model: &SemanticModel) -> (found: Option<
        ReactCreateElementCall<'a>,
    >)
        ensures
            found is Some <==> is_create_element(*call, *model),
            found matches Some(view) ==> {
                &&& call.arguments matches Some(arguments)
                &&& *view.element_type == arguments@[0]
                &&& match view.props {
                    Some(props) => props_of(arguments@) == Some(*props),
                    None => props_of(arguments@) is None,
                }
                &&& view.children@ == children_of(arguments@)
            },
    {
        let callee = match &call.callee {
            Some(callee) => callee,
            None => {
                return None;
            },
        };
        if !is_react_call_api(callee, model, ReactLibrary::React, "createElement") {
            return None;
        }
        let arguments = match &call.arguments {
            Some(arguments) => arguments,
            None => {
                return None;
            },
        };
        if arguments.len() == 0 {
            return None;
        }
        if let CallArgument::Missing = &arguments[0] {
            return None;
        }
        let props = if arguments.len() >= 2 {
            match &arguments[1] {
                CallArgument::Expression(Expression { kind: ExpressionKind::Object(object), .. }) => Some(
                    object,
                ),
                _ => None,
            }
        } else {
            None
        };
        let all = arguments.as_slice();
        let children = if arguments.len() >= 2 {
            slice_subrange(all, 2, arguments.len())
        } else {
            slice_subrange(all, 0, 0)
        };
        Some(ReactCreateElementCall { element_type: &arguments[0], props, children })
    }

    /// The first property of the attributes with the literal name `name`.
    pub open spec fn spec_find_prop_by_name(&self, name: Seq<char>) -> Option<
        JsPropertyObjectMember,
    > {
        match self.props {
            Some(props) => property_by_name(props.members@, name),
            None => None,
        }
    }

    /// Finds a property of the attributes by its name, as an attribute of a
    /// tag is found by its name: the first one in source order.
    pub fn find_prop_by_name(&self, name: &str) -> (found: Option<&'a JsPropertyObjectMember>)
        ensures
            match found {
                Some(property) => self.spec_find_prop_by_name(name@) == Some(*property),
                None => self.spec_find_prop_by_name(name@) is None,
            },
    {
        match self.props {
            Some(props) => props.find_property_by_name(name),
            None => None,
        }
    }
}

} // verus!
