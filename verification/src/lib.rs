//! Detection rules for JSX and for the equivalent `createElement` calls,
//! together with the pieces the rules are built from: a model of the syntax
//! tree, the structural predicates over it, the recognition of
//! `createElement` calls through the semantic model, the protocol by which a
//! rule is run on a node, and the diagnostics a rule reports.

pub mod diagnostic;
pub mod js;
pub mod jsx;
pub mod no_dangerously_set_inner_html_with_children;
pub mod react;
pub mod rule;
pub mod search;
pub mod semantic;
pub mod static_value;
pub mod text;
pub mod use_heading_content;
