//! Diagnostics: what the generator says about a definition it refuses.

use vstd::prelude::*;

verus! {

/// The piece of a definition that a diagnostic points at.
#[derive(Debug, Clone, Copy, PartialEq, Eq)]
pub enum Origin {
    /// The keyword that opens the definition.
    Keyword,
    /// The name of the type.
    TypeName,
    /// The variant with this index.
    Variant(usize),
    /// The field list of the variant with this index.
    FieldList(usize),
    /// A field: the variant's index, then the field's.
    Field(usize, usize),
    /// The name of a field: the variant's index, then the field's.
    FieldName(usize, usize),
    /// The generic parameter with this index.
    Param(usize),
    /// The name of the generic parameter with this index.
    ParamName(usize),
    /// The predicate of the where clause with this index.
    Predicate(usize),
}

/// One diagnostic: a message and the place it is about.
#[derive(Debug, Clone, PartialEq, Eq)]
pub struct Diagnostic {
    pub origin: Origin,
    pub message: String,
}

/// A diagnostic as mathematical values.
pub ghost struct Note {
    pub origin: Origin,
    pub message: Seq<char>,
}

impl View for Diagnostic {
    type V = Note;

    open spec fn view(&self) -> Note {
        Note { origin: self.origin, message: self.message@ }
    }
}

/// The notes of a list of diagnostics, in order.
pub open spec fn notes(list: Seq<Diagnostic>) -> Seq<Note> {
    list.map_values(|d: Diagnostic| d@)
}

/// The same message at each of `count` places, the `k`-th place given by `place(k)`.
pub open spec fn repeated(count: nat, place: spec_fn(int) -> Origin, message: Seq<char>) -> Seq<
    Note,
> {
    Seq::new(count, |k: int| Note { origin: place(k), message })
}

/// Why a definition was refused: one diagnostic or more, in the order found.
#[derive(Debug, Clone, PartialEq, Eq)]
pub struct Error {
    pub diagnostics: Vec<Diagnostic>,
}

impl View for Error {
    type V = Seq<Note>;

    open spec fn view(&self) -> Seq<Note> {
        notes(self.diagnostics@)
    }
}

impl Error {
    /// An error of one diagnostic.
    pub fn new(origin: Origin, message: &str) -> (e: Error)
        ensures
            e@ == seq![Note { origin, message: message@ }],
    {
        let mut diagnostics = Vec::new();
        diagnostics.push(Diagnostic { origin, message: String::from_str(message) });
        let e = Error { diagnostics };
        assert(e@ =~= seq![Note { origin, message: message@ }]);
        e
    }

    /// A builder that holds no diagnostic yet.
    pub fn builder() -> (b: ErrorBuilder)
        ensures
            b@ == Seq::<Note>::empty(),
    {
        let b = ErrorBuilder { diagnostics: Vec::new() };
        assert(b@ =~= Seq::<Note>::empty());
        b
    }

    /// The messages of the diagnostics, in order.
    pub fn messages(&self) -> (list: Vec<String>)
        ensures
            list@.len() == self@.len(),
            forall|i: int| 0 <= i < list@.len() ==> (#[trigger] list@[i])@ == self@[i].message,
    {
        let mut list: Vec<String> = Vec::new();
        let mut i: usize = 0;
        while i < self.diagnostics.len()
            invariant
                i <= self.diagnostics.len(),
                list@.len() == i,
                forall|k: int| 0 <= k < i ==> (#[trigger] list@[k])@ == self@[k].message,
            decreases self.diagnostics.len() - i,
        {
            list.push(self.diagnostics[i].message.clone());
            i += 1;
        }
        list
    }
}

/// Collects diagnostics, so that every problem of a definition is reported at once.
pub struct ErrorBuilder {
    pub diagnostics: Vec<Diagnostic>,
}

impl View for ErrorBuilder {
    type V = Seq<Note>;

    open spec fn view(&self) -> Seq<Note> {
        notes(self.diagnostics@)
    }
}

impl ErrorBuilder {
    /// Adds one diagnostic.
    pub fn with_spanned(&mut self, origin: Origin, message: &str)
        ensures
            final(self)@ == old(self)@.push(Note { origin, message: message@ }),
    {
        self.diagnostics.push(Diagnostic { origin, message: String::from_str(message) });
        assert(self@ =~= old(self)@.push(Note { origin, message: message@ }));
    }

    /// `Ok` if nothing was collected, else the error that holds all of it.
    pub fn ok_or_build(self) -> (r: Result<(), Error>)
        ensures
            self@.len() == 0 ==> r is Ok,
            self@.len() > 0 ==> (r matches Err(e) && e@ == self@),
    {
        if self.diagnostics.len() == 0 {
            Ok(())
        } else {
            Err(Error { diagnostics: self.diagnostics })
        }
    }
}

} // verus!
