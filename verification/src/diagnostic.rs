//! What a rule reports: a category, a place, a message, and any number of
//! annotated places and closing notes.

use crate::text::TextRange;
use vstd::prelude::*;

verus! {

/// A further place in the source, with the message that belongs to it.
#[derive(Debug)]
pub struct Detail {
    pub range: TextRange,
    pub message: String,
}

/// A finding of a rule. It is built up by `new`, `detail` and `note`, each of
/// which hands the value on; once it has left the rule nothing changes it.
#[derive(Debug)]
pub struct Diagnostic {
    category: String,
    range: TextRange,
    message: String,
    details: Vec<Detail>,
    notes: Vec<String>,
}

/// What a `Detail` says.
pub struct DetailView {
    pub range: TextRange,
    pub message: Seq<char>,
}

/// What a `Diagnostic` says.
pub struct DiagnosticView {
    /// The rule that found it, as a path: group, then rule.
    pub category: Seq<char>,
    /// The place that the finding is about.
    pub range: TextRange,
    pub message: Seq<char>,
    /// The further places, in the order in which they were added.
    pub details: Seq<DetailView>,
    /// The notes, in the order in which they were added.
    pub notes: Seq<Seq<char>>,
}

impl View for Detail {
    type V = DetailView;

    open spec fn view(&self) -> DetailView {
        DetailView { range: self.range, message: self.message@ }
    }
}

/// What each of `details` says, in order.
pub open spec fn detail_views(details: Seq<Detail>) -> Seq<DetailView> {
    details.map_values(|detail: Detail| detail@)
}

/// The text of each of `notes`, in order.
pub open spec fn note_views(notes: Seq<String>) -> Seq<Seq<char>> {
    notes.map_values(|note: String| note@)
}

impl View for Diagnostic {
    type V = DiagnosticView;

    closed spec fn view(&self) -> DiagnosticView {
        DiagnosticView {
            category: self.category@,
            range: self.range,
            message: self.message@,
            details: detail_views(self.details@),
            notes: note_views(self.notes@),
        }
    }
}

impl Diagnostic {
    /// A finding of the rule `category` about the place `range`, without
    /// details or notes.
    pub fn new(category: &str, range: TextRange, message: &str) -> (diagnostic: Diagnostic)
        ensures
            diagnostic@ == (DiagnosticView {
                category: category@,
                range,
                message: message@,
                details: Seq::empty(),
                notes: Seq::empty(),
            }),
    {
        let diagnostic = Diagnostic {
            category: category.to_owned(),
            range,
            message: message.to_owned(),
            details: Vec::new(),
            notes: Vec::new(),
        };
        assert(detail_views(diagnostic.details@) =~= Seq::empty());
        assert(note_views(diagnostic.notes@) =~= Seq::empty());
        diagnostic
    }

    /// Adds a further place with its message, after those already there.
    pub fn detail(self, range: TextRange, message: &str) -> (diagnostic: Diagnostic)
        ensures
            diagnostic@ == (DiagnosticView {
                details: self@.details.push(DetailView { range, message: message@ }),
                ..self@
            }),
    {
        let mut diagnostic = self;
        let detail = Detail { range, message: message.to_owned() };
        diagnostic.details.push(detail);
        assert(detail_views(diagnostic.details@) =~= detail_views(self.details@).push(detail@));
        diagnostic
    }

    /// Adds a note, after those already there.
    pub fn note(self, message: &str) -> (diagnostic: Diagnostic)
        ensures
            diagnostic@ == (DiagnosticView { notes: self@.notes.push(message@), ..self@ }),
    {
        let mut diagnostic = self;
        let note = message.to_owned();
        diagnostic.notes.push(note);
        assert(note_views(diagnostic.notes@) =~= note_views(self.notes@).push(note@));
        diagnostic
    }

    pub fn category(&self) -> (category: &str)
        ensures
            category@ == self@.category,
    {
        self.category.as_str()
    }

    pub fn range(&self) -> (range: TextRange)
        ensures
            range == self@.range,
    {
        self.range
    }

    pub fn message(&self) -> (message: &str)
        ensures
            message@ == self@.message,
    {
        self.message.as_str()
    }

    pub fn details(&self) -> (details: &Vec<Detail>)
        ensures
            detail_views(details@) == self@.details,
    {
        &self.details
    }

    pub fn notes(&self) -> (notes: &Vec<String>)
        ensures
            note_views(notes@) == self@.notes,
    {
        &self.notes
    }
}

} // verus!
