use biome_js_parser::JsParserOptions;
use biome_js_semantic::SemanticModelOptions;
use biome_js_syntax::jsx_ext::AnyJsxElement as SourceTag;
use biome_js_syntax::{
    AnyJsArrayElement, AnyJsCallArgument, AnyJsExpression, AnyJsLiteralExpression, AnyJsMemberExpression,
    AnyJsObjectMemberName, AnyJsRoot, AnyJsTemplateElement, AnyJsxAttributeName, AnyJsxAttributeValue,
    AnyJsxElementName, JsFileSource, JsImport, JsNamedImportSpecifier, JsReferenceIdentifier,
    JsShorthandNamedImportSpecifier,
};
use biome_rowan::AstNode;
use jsx_analyze::diagnostic::Diagnostic;
use jsx_analyze::js::{
    AnyJsObjectMember, CallArgument, Expression, ExpressionKind, JsCallExpression, JsObjectExpression,
    JsPropertyObjectMember, MemberName, TemplateElement,
};
use jsx_analyze::jsx::{
    AnyJsxAttribute, AnyJsxChild, AnyJsxElement, ElementNameKind, JsxAttribute, JsxAttributeName,
    JsxAttributeValue, JsxElement, JsxElementName, JsxOpeningElement, JsxSelfClosingElement,
};
use jsx_analyze::no_dangerously_set_inner_html_with_children::{
    AnyJsCreateElement, NoDangerouslySetInnerHtmlWithChildren,
};
use jsx_analyze::react::ReactCreateElementCall;
use jsx_analyze::rule::{visit, Ast, Semantic, SyntaxNode};
use jsx_analyze::semantic::{Binding, Declaration, SemanticModel};
use jsx_analyze::text::TextRange;
use jsx_analyze::use_heading_content::UseHeadingContent;

fn range_of(range: biome_rowan::TextRange) -> TextRange {
    TextRange::new(range.start().into(), range.end().into())
}

fn lower_expression(expression: &AnyJsExpression) -> Expression {
    let range = range_of(expression.syntax().text_trimmed_range());
    Expression { kind: lower_kind(expression).unwrap_or(ExpressionKind::Other), range }
}

fn lower_kind(expression: &AnyJsExpression) -> Option<ExpressionKind> {
    if let Some(member) = AnyJsMemberExpression::cast_ref(expression.syntax()) {
        let object = member.object().ok()?;
        return Some(ExpressionKind::Member {
            object: Box::new(lower_expression(&object)),
            member: member.member_name().map(|name| name.text().to_string()),
        });
    }
    Some(match expression {
        AnyJsExpression::AnyJsLiteralExpression(literal) => match literal {
            AnyJsLiteralExpression::JsBooleanLiteralExpression(value) => {
                ExpressionKind::Boolean(value.value_token().ok()?.text_trimmed() == "true")
            }
            AnyJsLiteralExpression::JsNullLiteralExpression(value) => {
                value.value_token().ok()?;
                ExpressionKind::Null
            }
            AnyJsLiteralExpression::JsNumberLiteralExpression(value) => {
                ExpressionKind::Number(value.value_token().ok()?.text_trimmed().to_string())
            }
            AnyJsLiteralExpression::JsBigintLiteralExpression(value) => {
                ExpressionKind::BigInt(value.value_token().ok()?.text_trimmed().to_string())
            }
            AnyJsLiteralExpression::JsStringLiteralExpression(value) => {
                ExpressionKind::String(value.inner_string_text().ok()?.text().to_string())
            }
            AnyJsLiteralExpression::JsRegexLiteralExpression(_) => ExpressionKind::Regex,
        },
        AnyJsExpression::JsTemplateExpression(template) => ExpressionKind::Template(
            template
                .elements()
                .into_iter()
                .map(|element| match element {
                    AnyJsTemplateElement::JsTemplateChunkElement(chunk) => match chunk.template_chunk_token() {
                        Ok(token) => TemplateElement::Chunk(token.text_trimmed().to_string()),
                        Err(_) => TemplateElement::Substitution,
                    },
                    AnyJsTemplateElement::JsTemplateElement(_) => TemplateElement::Substitution,
                })
                .collect(),
        ),
        AnyJsExpression::JsIdentifierExpression(identifier) => {
            ExpressionKind::Identifier(identifier.name().ok()?.value_token().ok()?.text_trimmed().to_string())
        }
        AnyJsExpression::JsObjectExpression(object) => ExpressionKind::Object(JsObjectExpression {
            members: object
                .members()
                .into_iter()
                .map(|member| match member {
                    Ok(biome_js_syntax::AnyJsObjectMember::JsPropertyObjectMember(property)) => {
                        AnyJsObjectMember::JsPropertyObjectMember(JsPropertyObjectMember {
                            name: match property.name() {
                                Ok(AnyJsObjectMemberName::JsLiteralMemberName(name)) => match name.name() {
                                    Ok(text) => MemberName::Literal(text.text().to_string()),
                                    Err(_) => MemberName::Missing,
                                },
                                Ok(AnyJsObjectMemberName::JsComputedMemberName(_)) => MemberName::Computed,
                                Err(_) => MemberName::Missing,
                            },
                            range: range_of(property.range()),
                        })
                    }
                    _ => AnyJsObjectMember::Other,
                })
                .collect(),
        }),
        AnyJsExpression::JsParenthesizedExpression(parenthesized) => {
            ExpressionKind::Parenthesized(Box::new(lower_expression(&parenthesized.expression().ok()?)))
        }
        _ => ExpressionKind::Other,
    })
}

fn lower_call(call: &biome_js_syntax::JsCallExpression) -> JsCallExpression {
    JsCallExpression {
        callee: call.callee().ok().map(|callee| lower_expression(&callee)),
        arguments: call.arguments().ok().map(|arguments| {
            arguments
                .args()
                .into_iter()
                .map(|argument| match argument {
                    Ok(AnyJsCallArgument::AnyJsExpression(expression)) => {
                        CallArgument::Expression(lower_expression(&expression))
                    }
                    Ok(AnyJsCallArgument::JsSpread(_)) => CallArgument::Spread,
                    Err(_) => CallArgument::Missing,
                })
                .collect()
        }),
        range: range_of(call.range()),
    }
}

fn lower_name(name: biome_rowan::SyntaxResult<AnyJsxElementName>) -> Option<JsxElementName> {
    let name = name.ok()?;
    let kind = match name {
        AnyJsxElementName::JsxName(_) => ElementNameKind::Name,
        AnyJsxElementName::JsxReferenceIdentifier(_) => ElementNameKind::ReferenceIdentifier,
        AnyJsxElementName::JsxMemberName(_) => ElementNameKind::MemberName,
        AnyJsxElementName::JsxNamespaceName(_) => ElementNameKind::NamespaceName,
    };
    Some(JsxElementName { kind, value: name.name_value_token().map(|token| token.text_trimmed().to_string()) })
}

fn lower_attributes(attributes: biome_js_syntax::JsxAttributeList) -> Vec<AnyJsxAttribute> {
    attributes
        .into_iter()
        .map(|attribute| match attribute {
            biome_js_syntax::AnyJsxAttribute::JsxAttribute(attribute) => AnyJsxAttribute::JsxAttribute(JsxAttribute {
                name: match attribute.name() {
                    Ok(AnyJsxAttributeName::JsxName(name)) => match name.value_token() {
                        Ok(token) => JsxAttributeName::Name(token.text_trimmed().to_string()),
                        Err(_) => JsxAttributeName::Missing,
                    },
                    Ok(AnyJsxAttributeName::JsxNamespaceName(_)) => JsxAttributeName::NamespaceName,
                    Err(_) => JsxAttributeName::Missing,
                },
                initializer: attribute.initializer().map(|initializer| match initializer.value() {
                    Ok(AnyJsxAttributeValue::AnyJsxTag(_)) => JsxAttributeValue::Tag,
                    Ok(AnyJsxAttributeValue::JsxExpressionAttributeValue(value)) => match value.expression() {
                        Ok(expression) => JsxAttributeValue::Expression(lower_expression(&expression)),
                        Err(_) => JsxAttributeValue::Missing,
                    },
                    Ok(AnyJsxAttributeValue::JsxString(string)) => match string.inner_string_text() {
                        Ok(text) => JsxAttributeValue::String(text.text().to_string()),
                        Err(_) => JsxAttributeValue::Missing,
                    },
                    Err(_) => JsxAttributeValue::Missing,
                }),
                range: range_of(attribute.range()),
            }),
            biome_js_syntax::AnyJsxAttribute::JsxSpreadAttribute(_) => AnyJsxAttribute::JsxSpreadAttribute,
        })
        .collect()
}

fn lower_self_closing(element: &biome_js_syntax::JsxSelfClosingElement) -> JsxSelfClosingElement {
    JsxSelfClosingElement {
        name: lower_name(element.name()),
        attributes: lower_attributes(element.attributes()),
        range: range_of(element.syntax().text_trimmed_range()),
    }
}

fn lower_opening(element: &biome_js_syntax::JsxOpeningElement) -> JsxOpeningElement {
    JsxOpeningElement {
        name: lower_name(element.name()),
        attributes: lower_attributes(element.attributes()),
        range: range_of(element.syntax().text_trimmed_range()),
    }
}

fn lower_children(children: biome_js_syntax::JsxChildList) -> Vec<AnyJsxChild> {
    children
        .into_iter()
        .map(|child| match child {
            biome_js_syntax::AnyJsxChild::JsxText(text) => match text.value_token() {
                Ok(token) => AnyJsxChild::JsxText(token.text_trimmed().to_string()),
                Err(_) => AnyJsxChild::JsxExpressionChild(None),
            },
            biome_js_syntax::AnyJsxChild::JsxExpressionChild(child) => {
                AnyJsxChild::JsxExpressionChild(child.expression().map(|expression| lower_expression(&expression)))
            }
            biome_js_syntax::AnyJsxChild::JsxElement(element) => match lower_element(&element) {
                Some(element) => AnyJsxChild::JsxElement(element),
                None => AnyJsxChild::JsxExpressionChild(None),
            },
            biome_js_syntax::AnyJsxChild::JsxSelfClosingElement(element) => {
                AnyJsxChild::JsxSelfClosingElement(lower_self_closing(&element))
            }
            biome_js_syntax::AnyJsxChild::JsxFragment(fragment) => {
                AnyJsxChild::JsxFragment(lower_children(fragment.children()))
            }
            biome_js_syntax::AnyJsxChild::JsxSpreadChild(_) => AnyJsxChild::JsxSpreadChild,
        })
        .collect()
}

fn lower_element(element: &biome_js_syntax::JsxElement) -> Option<JsxElement> {
    Some(JsxElement {
        opening_element: lower_opening(&element.opening_element().ok()?),
        children: lower_children(element.children()),
        children_range: range_of(element.children().syntax().text_trimmed_range()),
        text_range: range_of(element.syntax().text_range()),
    })
}

fn lower_declaration(binding: &biome_js_semantic::Binding) -> Declaration {
    let node = binding.syntax();
    let source = node
        .ancestors()
        .find_map(JsImport::cast)
        .and_then(|import| import.source_text().ok())
        .map(|source| source.text().to_string());
    let Some(source) = source else {
        return Declaration::Local;
    };
    let specifier = node.parent();
    if let Some(named) = specifier.clone().and_then(JsNamedImportSpecifier::cast) {
        return match named.name().and_then(|name| name.value()) {
            Ok(token) => Declaration::NamedImport { source, imported: token.text_trimmed().to_string() },
            Err(_) => Declaration::Local,
        };
    }
    if specifier.and_then(JsShorthandNamedImportSpecifier::cast).is_some() {
        return Declaration::NamedImport { source, imported: node.text_trimmed().to_string() };
    }
    Declaration::ModuleImport { source }
}

fn lower_model(root: &AnyJsRoot) -> SemanticModel {
    let model = biome_js_semantic::semantic_model(root, SemanticModelOptions::default());
    let mut bindings = Vec::new();
    for reference in root.syntax().descendants().filter_map(JsReferenceIdentifier::cast) {
        if let Some(binding) = model.binding(&reference) {
            bindings.push(Binding {
                reference: range_of(reference.syntax().text_trimmed_range()),
                declaration: lower_declaration(&binding),
            });
        }
    }
    SemanticModel { bindings }
}

fn parse(source: &str) -> AnyJsRoot {
    let parsed = biome_js_parser::parse(source, JsFileSource::jsx(), JsParserOptions::default());
    assert!(!parsed.has_errors(), "{}", source);
    parsed.tree()
}

/// Every diagnostic that the heading rule gives on the tags of `source`, in
/// the order of the tags.
fn check_headings(source: &str) -> Vec<Diagnostic> {
    let root = parse(source);
    let model = SemanticModel { bindings: vec![] };
    let mut found = Vec::new();
    for node in root.syntax().descendants() {
        if let Some(opening) = biome_js_syntax::JsxOpeningElement::cast_ref(&node) {
            let parent = opening.syntax().parent().and_then(biome_js_syntax::JsxElement::cast);
            let parent = parent.as_ref().and_then(lower_element);
            let element = lower_opening(&opening);
            let node = SyntaxNode::JsxOpeningElement { element: &element, parent: parent.as_ref() };
            found.extend(visit::<Ast<AnyJsxElement>, UseHeadingContent>(node, &model));
        } else if let Some(element) = biome_js_syntax::JsxSelfClosingElement::cast_ref(&node) {
            let element = lower_self_closing(&element);
            let node = SyntaxNode::JsxSelfClosingElement(&element);
            found.extend(visit::<Ast<AnyJsxElement>, UseHeadingContent>(node, &model));
        } else {
            found.extend(visit::<Ast<AnyJsxElement>, UseHeadingContent>(SyntaxNode::Other, &model));
        }
    }
    found
}

/// Every diagnostic that the rule on `dangerouslySetInnerHTML` gives on the
/// elements and calls of `source`, in the order of the nodes.
fn check_dangerous(source: &str) -> Vec<Diagnostic> {
    let root = parse(source);
    let model = lower_model(&root);
    let mut found = Vec::new();
    for node in root.syntax().descendants() {
        if let Some(element) = biome_js_syntax::JsxElement::cast_ref(&node) {
            if let Some(element) = lower_element(&element) {
                found.extend(visit::<Semantic<AnyJsCreateElement>, NoDangerouslySetInnerHtmlWithChildren>(
                    SyntaxNode::JsxElement(&element),
                    &model,
                ));
            }
        } else if let Some(element) = biome_js_syntax::JsxSelfClosingElement::cast_ref(&node) {
            let element = lower_self_closing(&element);
            found.extend(visit::<Semantic<AnyJsCreateElement>, NoDangerouslySetInnerHtmlWithChildren>(
                SyntaxNode::JsxSelfClosingElement(&element),
                &model,
            ));
        } else if let Some(call) = biome_js_syntax::JsCallExpression::cast_ref(&node) {
            let call = lower_call(&call);
            found.extend(visit::<Semantic<AnyJsCreateElement>, NoDangerouslySetInnerHtmlWithChildren>(
                SyntaxNode::JsCallExpression(&call),
                &model,
            ));
        }
    }
    found
}

fn at(source: &str, part: &str) -> TextRange {
    let start = source.find(part).unwrap();
    TextRange::new(start as u32, (start + part.len()) as u32)
}

#[test]
fn headings_without_content_in_source() {
    for source in ["<h1 />", "<h1></h1>", "<h1><div aria-hidden /></h1>", "<h1 aria-hidden>title</h1>", "<h6> </h6>"] {
        let found = check_headings(source);
        let reported: Vec<&Diagnostic> = found.iter().filter(|d| d.range() == at(source, source)).collect();
        assert_eq!(reported.len(), 1, "{}", source);
        assert_eq!(reported[0].category(), "lint/a11y/useHeadingContent");
    }
}

#[test]
fn headings_with_content_in_source() {
    for source in [
        "<h1>heading</h1>",
        "<h1><div aria-hidden=\"true\"></div>visible content</h1>",
        "<h1 dangerouslySetInnerHTML={{ __html: \"heading\" }} />",
        "<h1><div aria-hidden />visible content</h1>",
        "<h1 children=\"heading\" />",
        "<h1 {...props} />",
        "<h1><Title aria-hidden /></h1>",
        "<h1>{title}</h1>",
        "<div />",
        "<Heading />",
    ] {
        assert!(check_headings(source).is_empty(), "{}", source);
    }
}

#[test]
fn heading_is_reported_over_the_whole_element() {
    let source = "let a = <h2><span aria-hidden=\"true\">x</span></h2>;";
    let found = check_headings(source);
    assert_eq!(found.len(), 1);
    let start = source.find("<h2>").unwrap() as u32;
    assert_eq!(found[0].range().end(), source.find(';').unwrap() as u32);
    assert!(found[0].range().start() <= start);
    assert_eq!(found[0].notes().len(), 1);
}

#[test]
fn create_element_call_with_children_in_source() {
    let source = "React.createElement(\"div\", { dangerouslySetInnerHTML: { __html: \"x\" } }, \"child\")";
    let root = parse(source);
    let model = lower_model(&root);
    let call = root.syntax().descendants().find_map(biome_js_syntax::JsCallExpression::cast).unwrap();
    let call = lower_call(&call);
    let view = ReactCreateElementCall::from_call_expression(&call, &model).unwrap();
    assert!(view.find_prop_by_name("dangerouslySetInnerHTML").is_some());
    assert_eq!(view.children.len(), 1);

    let found = check_dangerous(source);
    assert_eq!(found.len(), 1);
    assert_eq!(found[0].range(), at(source, "dangerouslySetInnerHTML: { __html: \"x\" }"));
    assert_eq!(found[0].details().len(), 1);
    assert_eq!(found[0].details()[0].range, at(source, "\"child\""));
}

#[test]
fn children_attribute_in_source() {
    let source = "<Component dangerouslySetInnerHTML={x} children=\"y\" />";
    let found = check_dangerous(source);
    assert_eq!(found.len(), 1);
    assert_eq!(found[0].range(), at(source, "dangerouslySetInnerHTML={x}"));
    assert_eq!(found[0].details().len(), 1);
    assert_eq!(found[0].details()[0].range, at(source, "children=\"y\""));
    assert_eq!(found[0].details()[0].message, "This is the source of the children prop");
}

#[test]
fn direct_children_in_source() {
    let source = "function createMarkup() { return { __html: 'child' } }\n<Component dangerouslySetInnerHTML={createMarkup()}>\"child1\"</Component>";
    let found = check_dangerous(source);
    assert_eq!(found.len(), 1);
    assert_eq!(found[0].range(), at(source, "dangerouslySetInnerHTML={createMarkup()}"));
    assert_eq!(found[0].details()[0].range, at(source, "\"child1\""));
}

#[test]
fn shadowed_factory_in_source() {
    let shadowed = "function f() { const React = { createElement() {} }; return React.createElement('div', { dangerouslySetInnerHTML: { __html: 'HTML' } }, 'children'); }";
    assert!(check_dangerous(shadowed).is_empty());
    let local = "function createElement() {}\ncreateElement('div', { dangerouslySetInnerHTML: { __html: 'HTML' } }, 'children')";
    assert!(check_dangerous(local).is_empty());
    let other = "import React from 'preact';\nReact.createElement('div', { dangerouslySetInnerHTML: { __html: 'HTML' } }, 'children')";
    assert!(check_dangerous(other).is_empty());
    let unknown = "h('div', { dangerouslySetInnerHTML: { __html: 'HTML' } }, 'children')";
    assert!(check_dangerous(unknown).is_empty());
}

#[test]
fn imported_factory_in_source() {
    for source in [
        "React.createElement('div', { dangerouslySetInnerHTML: { __html: 'HTML' } }, 'children')",
        "import React from 'react';\nReact.createElement('div', { dangerouslySetInnerHTML: { __html: 'HTML' } }, 'children')",
        "import * as R from 'react';\nR.createElement('div', { dangerouslySetInnerHTML: { __html: 'HTML' } }, 'children')",
        "import { createElement } from 'react';\ncreateElement('div', { dangerouslySetInnerHTML: { __html: 'HTML' } }, 'children')",
        "import { createElement as h } from 'react';\nh('div', { dangerouslySetInnerHTML: { __html: 'HTML' } }, 'children')",
        "import React from 'react';\n(React.createElement)('div', { 'dangerouslySetInnerHTML': { __html: 'HTML' }, children: 'x' })",
        "React['createElement']('div', { dangerouslySetInnerHTML: { __html: 'HTML' } }, 'children')",
    ] {
        assert_eq!(check_dangerous(source).len(), 1, "{}", source);
    }
    for source in [
        "import { cloneElement as createElement } from 'react';\ncreateElement('div', { dangerouslySetInnerHTML: { __html: 'HTML' } }, 'children')",
        "React.createElement('div', { dangerouslySetInnerHTML: { __html: 'HTML' } })",
        "React.createElement('div', { children: 'x' }, 'children')",
        "React.createElement('div', props, 'children')",
        "React.createElement()",
        "React.cloneElement('div', { dangerouslySetInnerHTML: { __html: 'HTML' } }, 'children')",
        "<div dangerouslySetInnerHTML={x} />",
        "<div>children</div>",
    ] {
        assert!(check_dangerous(source).is_empty(), "{}", source);
    }
}

fn tags_of(source: &str) -> Vec<(SourceTag, JsxSelfClosingElement)> {
    let root = parse(source);
    root.syntax()
        .descendants()
        .filter_map(biome_js_syntax::JsxSelfClosingElement::cast)
        .map(|element| (SourceTag::from(element.clone()), lower_self_closing(&element)))
        .collect()
}

const TAGS: &str = "[<a />, <A.b x y=\"1\" x=\"2\" />, <svg:rect xlink:href=\"#a\" href />, <B {...p} q />, \
    <c q {...p} />, <d v=\"\" w={0} x={false} y={null} z={undefined} />, <e v={``} w={`a`} x={0n} y={1} z=\"false\" />, \
    <f v={\"\"} w={'a'} x={true} y={0.0} z={-0} />]";

#[test]
fn lookups_agree_with_the_parser_library() {
    let tags = tags_of(TAGS);
    assert_eq!(tags.len(), 8);
    for (theirs, ours) in &tags {
        let ours = AnyJsxElement::JsxSelfClosingElement(ours);
        assert_eq!(ours.name_value_token().map(String::from), theirs.name_value_token().map(|t| t.text_trimmed().to_string()));
        assert_eq!(ours.is_custom_component(), theirs.is_custom_component());
        assert_eq!(ours.has_spread_prop(), theirs.has_spread_prop());
        for name in ["x", "y", "q", "href", "xlink", "xlink:href", "v", "w", "z", "X", ""] {
            let mine = ours.find_attribute_by_name(name).map(|a| a.range);
            let other = theirs.find_attribute_by_name(name).map(|a| range_of(a.range()));
            assert_eq!(mine, other, "{}", name);
        }
    }
}

#[test]
fn constants_agree_with_the_parser_library() {
    for (theirs, ours) in &tags_of(TAGS) {
        let ours = AnyJsxElement::JsxSelfClosingElement(ours);
        for name in ["v", "w", "x", "y", "z", "q", "href"] {
            let mine = ours.find_attribute_by_name(name).and_then(|a| a.as_static_value());
            let other = theirs.find_attribute_by_name(name).and_then(|a| a.as_static_value());
            assert_eq!(mine.is_some(), other.is_some(), "{}", name);
            if let (Some(mine), Some(other)) = (mine, other) {
                assert_eq!(mine.text(), other.text(), "{}", name);
                assert_eq!(mine.is_falsy(), other.is_falsy(), "{}", name);
            }
        }
    }
}

#[test]
fn truthy_attributes_agree_with_the_parser_library_on_constants() {
    for (theirs, ours) in &tags_of(TAGS) {
        let trailing_spread = theirs.has_spread_prop();
        let ours = AnyJsxElement::JsxSelfClosingElement(ours);
        for name in ["v", "w", "x", "y", "z", "q", "href", "missing"] {
            let constant_or_bare = theirs
                .find_attribute_by_name(name)
                .map_or(true, |a| a.initializer().is_none() || a.as_static_value().is_some());
            if constant_or_bare && !trailing_spread {
                assert_eq!(ours.has_truthy_attribute(name), theirs.has_truthy_attribute(name), "{}", name);
            }
        }
    }
}

#[test]
fn accessible_children_agree_with_the_parser_library() {
    let source = "[<h1>a</h1>, <h1> </h1>, <h1>{}</h1>, <h1>{null}</h1>, <h1>{x}</h1>, <h1>{\"\"}</h1>, <h1>{...x}</h1>, \
        <h1><i /></h1>, <h1><i aria-hidden /></h1>, <h1><I aria-hidden /></h1>, <h1><i aria-hidden=\"false\" /></h1>, \
        <h1><></></h1>, <h1><> <i aria-hidden={true}>x</i></></h1>, <h1><><>{0}x</></></h1>, <h1></h1>, \
        <h1><i aria-hidden /> <b>x</b></h1>, <h1>\n  <i aria-hidden>x</i>\n</h1>]";
    let root = parse(source);
    let mut seen = 0;
    for element in root.syntax().descendants().filter_map(biome_js_syntax::JsxElement::cast) {
        let opening = element.opening_element().unwrap();
        let ours = lower_element(&element).unwrap();
        assert_eq!(
            AnyJsxElement::opening_of(&ours).has_accessible_child(),
            opening.has_accessible_child(),
            "{}",
            element.syntax().text_trimmed()
        );
        seen += 1;
    }
    assert!(seen >= 17);
}

#[test]
fn lowering_keeps_what_the_rules_read() {
    let root = parse("f(a, ...b, (c), d.e, `x${y}`, /r/, [1])");
    let call = root.syntax().descendants().find_map(biome_js_syntax::JsCallExpression::cast).unwrap();
    assert!(call.arguments().unwrap().args().into_iter().any(|a| {
        matches!(a, Ok(AnyJsCallArgument::AnyJsExpression(AnyJsExpression::JsArrayExpression(array)))
            if array.elements().into_iter().any(|e| matches!(e, Ok(AnyJsArrayElement::AnyJsExpression(_)))))
    }));
    let call = lower_call(&call);
    let arguments = call.arguments.unwrap();
    assert_eq!(arguments.len(), 7);
    assert!(matches!(&arguments[0], CallArgument::Expression(Expression { kind: ExpressionKind::Identifier(n), .. }) if n == "a"));
    assert!(matches!(&arguments[1], CallArgument::Spread));
    assert!(matches!(&arguments[2], CallArgument::Expression(Expression { kind: ExpressionKind::Parenthesized(_), .. })));
    assert!(matches!(&arguments[3], CallArgument::Expression(Expression { kind: ExpressionKind::Member { member: Some(m), .. }, .. }) if m == "e"));
    assert!(matches!(&arguments[4], CallArgument::Expression(Expression { kind: ExpressionKind::Template(t), .. }) if t.len() == 2));
    assert!(matches!(&arguments[5], CallArgument::Expression(Expression { kind: ExpressionKind::Regex, .. })));
    assert!(matches!(&arguments[6], CallArgument::Expression(Expression { kind: ExpressionKind::Other, .. })));
    assert!(matches!(call.callee, Some(Expression { kind: ExpressionKind::Identifier(_), .. })));
}
