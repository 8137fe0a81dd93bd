//! The protocol between the engine that walks a tree and the rules that are
//! run on its nodes.
//!
//! A rule declares the query it answers: the kinds of node it wants to see,
//! and whether it reads the semantic model beside the syntax. For each node
//! the engine asks whether the node matches the query; if it does, the rule
//! is run on it and gives any number of signals, and each signal in turn is
//! made into a diagnostic or dropped, so that a node with `n` signals ends
//! with at most `n` diagnostics. A node that does not match gives nothing.
//! Nothing is retried, and nothing of the tree is changed.

use crate::diagnostic::{Diagnostic, DiagnosticView};
use crate::js::JsCallExpression;
use crate::jsx::{JsxElement, JsxOpeningElement, JsxSelfClosingElement};
use crate::semantic::SemanticModel;
use vstd::prelude::*;

verus! {

/// A node of the tree, as the engine comes to it. The value borrows from the
/// tree.
#[derive(Clone, Copy, Debug)]
pub enum SyntaxNode<'a> {
    JsxElement(&'a JsxElement),
    /// An opening tag, with the element that it opens where the tree has one.
    JsxOpeningElement { element: &'a JsxOpeningElement, parent: Option<&'a JsxElement> },
    JsxSelfClosingElement(&'a JsxSelfClosingElement),
    JsCallExpression(&'a JsCallExpression),
    /// A node of a kind that no rule asks for.
    Other,
}

/// The query of a rule that reads the syntax alone: a node of kind `N`.
#[derive(Debug)]
pub struct Ast<N> {
    pub node: N,
}

/// The query of a rule that also reads the semantic model: a node of kind
/// `N`, and the model of the file that the node belongs to.
#[derive(Debug)]
pub struct Semantic<'a, N> {
    pub node: N,
    pub model: &'a SemanticModel,
}

/// A kind of node, or a union of kinds, that a rule can ask for.
pub trait NodeKind<'a>: Sized {
    /// `node` as a node of this kind, if it is one.
    spec fn spec_cast(node: SyntaxNode<'a>) -> Option<Self>;

    fn cast(node: SyntaxNode<'a>) -> (found: Option<Self>)
        ensures
            found == Self::spec_cast(node),
    ;
}

/// What a rule is handed when a node matches.
pub trait Queryable<'a>: Sized {
    /// The query for `node`, if `node` matches.
    spec fn spec_matching(node: SyntaxNode<'a>, model: &'a SemanticModel) -> Option<Self>;

    fn matching(node: SyntaxNode<'a>, model: &'a SemanticModel) -> (query: Option<Self>)
        ensures
            query == Self::spec_matching(node, model),
    ;
}

impl<'a, N: NodeKind<'a>> Queryable<'a> for Ast<N> {
    open spec fn spec_matching(node: SyntaxNode<'a>, model: &'a SemanticModel) -> Option<Self> {
        match N::spec_cast(node) {
            Some(node) => Some(Ast { node }),
            None => None,
        }
    }

    fn matching(node: SyntaxNode<'a>, model: &'a SemanticModel) -> (query: Option<Self>) {
        match N::cast(node) {
            Some(node) => Some(Ast { node }),
            None => None,
        }
    }
}

impl<'a, N: NodeKind<'a>> Queryable<'a> for Semantic<'a, N> {
    open spec fn spec_matching(node: SyntaxNode<'a>, model: &'a SemanticModel) -> Option<Self> {
        match N::spec_cast(node) {
            Some(node) => Some(Semantic { node, model }),
            None => None,
        }
    }

    fn matching(node: SyntaxNode<'a>, model: &'a SemanticModel) -> (query: Option<Self>) {
        match N::cast(node) {
            Some(node) => Some(Semantic { node, model }),
            None => None,
        }
    }
}

/// A detection rule over queries of type `Q`.
pub trait Rule<Q> {
    /// What the rule keeps of a match for the diagnostic.
    type State;

    /// The signals that the rule gives on `query`, in order. They depend on
    /// the query alone.
    spec fn signals(query: &Q) -> Seq<Self::State>;

    /// What the rule reports for the signal `state`; none where it drops the
    /// signal.
    spec fn report(query: &Q, state: &Self::State) -> Option<DiagnosticView>;

    /// Detects: gives the signals of the rule on `query`.
    fn run(query: &Q) -> (signals: Vec<Self::State>)
        ensures
            signals@ == Self::signals(query),
    ;

    /// Builds the diagnostic for one signal.
    fn diagnostic(query: &Q, state: &Self::State) -> (diagnostic: Option<Diagnostic>)
        ensures
            match diagnostic {
                Some(diagnostic) => Self::report(query, state) == Some(diagnostic@),
                None => Self::report(query, state) is None,
            },
    ;
}

/// What the rule `R` reports for `signals`: the report of each signal that
/// has one, in the order of the signals.
pub open spec fn reports<Q, R: Rule<Q>>(query: &Q, signals: Seq<R::State>) -> Seq<DiagnosticView>
    decreases signals.len(),
{
    if signals.len() == 0 {
        Seq::empty()
    } else {
        let before = reports::<Q, R>(query, signals.drop_last());
        match R::report(query, &signals.last()) {
            Some(report) => before.push(report),
            None => before,
        }
    }
}

/// What each of `diagnostics` says, in order.
pub open spec fn diagnostic_views(diagnostics: Seq<Diagnostic>) -> Seq<DiagnosticView> {
    diagnostics.map_values(|diagnostic: Diagnostic| diagnostic@)
}

/// There are at most as many reports as signals.
pub proof fn lemma_reports_len<Q, R: Rule<Q>>(query: &Q, signals: Seq<R::State>)
    ensures
        reports::<Q, R>(query, signals).len() <= signals.len(),
    decreases signals.len(),
{
    if signals.len() > 0 {
        lemma_reports_len::<Q, R>(query, signals.drop_last());
    }
}

/// Detection is idempotent: whatever two runs of a rule on one query return,
/// they return the same signals in the same order.
pub proof fn lemma_run_twice<Q, R: Rule<Q>>(query: &Q, once: Vec<R::State>, again: Vec<R::State>)
    requires
        call_ensures(R::run, (query,), once),
        call_ensures(R::run, (query,), again),
    ensures
        once@ == again@,
        once@ == R::signals(query),
{
}

/// Runs the rule `R` on a query: detects, then builds the diagnostic of each
/// signal in turn.
pub fn analyze<Q, R: Rule<Q>>(query: &Q) -> (diagnostics: Vec<Diagnostic>)
    ensures
        diagnostic_views(diagnostics@) == reports::<Q, R>(query, R::signals(query)),
        diagnostics@.len() <= R::signals(query).len(),
{
    let signals = R::run(query);
    let mut diagnostics: Vec<Diagnostic> = Vec::new();
    assert(diagnostic_views(diagnostics@) =~= Seq::empty());
    let mut i: usize = 0;
    while i < signals.len()
        invariant
            i <= signals.len(),
            signals@ == R::signals(query),
            diagnostic_views(diagnostics@) == reports::<Q, R>(query, signals@.take(i as int)),
        decreases signals.len() - i,
    {
        let ghost before = diagnostics@;
        let found = R::diagnostic(query, &signals[i]);
        proof {
            let next = signals@.take(i + 1);
            assert(next.drop_last() =~= signals@.take(i as int));
            assert(next.last() == signals@[i as int]);
        }
        if let Some(diagnostic) = found {
            diagnostics.push(diagnostic);
            assert(diagnostic_views(diagnostics@) =~= diagnostic_views(before).push(diagnostic@));
        }
        i += 1;
    }
    proof {
        assert(signals@.take(signals@.len() as int) =~= signals@);
        lemma_reports_len::<Q, R>(query, signals@);
        assert(diagnostic_views(diagnostics@).len() == diagnostics@.len());
    }
    diagnostics
}

/// What the engine does at one node for the rule `R`: where the node matches
/// the query `Q`, the rule is run on it; where it does not, nothing happens.
pub fn visit<'a, Q: Queryable<'a>, R: Rule<Q>>(
    node: SyntaxNode<'a>,
    model: &'a SemanticModel,
) -> (diagnostics: Vec<Diagnostic>)
    ensures
        diagnostic_views(diagnostics@) == match Q::spec_matching(node, model) {
            Some(query) => reports::<Q, R>(&query, R::signals(&query)),
            None => Seq::empty(),
        },
        diagnostics@.len() <= match Q::spec_matching(node, model) {
            Some(query) => R::signals(&query).len(),
            None => 0,
        },
{
    match Q::matching(node, model) {
        Some(query) => analyze::<Q, R>(&query),
        None => {
            let diagnostics: Vec<Diagnostic> = Vec::new();
            assert(diagnostic_views(diagnostics@) =~= Seq::empty());
            diagnostics
        },
    }
}

} // verus!
