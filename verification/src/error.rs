//! What a failed decode reports: the kind of failure and where it happened.

use vstd::prelude::*;

verus! {

/// The kinds of decode failure.
#[derive(Debug, PartialEq, Eq)]
pub enum ErrorKind {
    /// The input text is not a well-formed structured value.
    Malformed,
    /// A value has the wrong shape for the type expected at its place.
    TypeMismatch,
    /// A field without a default is absent.
    MissingField,
    /// A token lies outside the closed vocabulary expected at its place;
    /// the token is carried along.
    UnknownVariant(String),
    /// A registry holds two entries under the same key.
    DuplicateKey,
}

/// One step of the way from the decoded value down to a failure.
#[derive(Debug, PartialEq, Eq)]
pub enum Step {
    Field(String),
    Index(usize),
}

/// A failed decode. `path` leads from the value that was handed to the
/// decoder to the place that was refused: the names of fields and the
/// indices of items, outermost first. For a missing field and for a
/// repeated key the last step names the field or the key.
#[derive(Debug, PartialEq, Eq)]
pub struct DecodeError {
    pub kind: ErrorKind,
    pub path: Vec<Step>,
}

/// The mathematical value of an [`ErrorKind`].
pub enum FailureKind {
    Malformed,
    TypeMismatch,
    MissingField,
    UnknownVariant(Seq<char>),
    DuplicateKey,
}

/// The mathematical value of a [`Step`].
pub enum Place {
    Field(Seq<char>),
    Index(int),
}

/// The mathematical value of a [`DecodeError`].
pub struct Failure {
    pub kind: FailureKind,
    pub path: Seq<Place>,
}

impl DeepView for ErrorKind {
    type V = FailureKind;

    open spec fn deep_view(&self) -> FailureKind {
        match self {
            ErrorKind::Malformed => FailureKind::Malformed,
            ErrorKind::TypeMismatch => FailureKind::TypeMismatch,
            ErrorKind::MissingField => FailureKind::MissingField,
            ErrorKind::UnknownVariant(token) => FailureKind::UnknownVariant(token@),
            ErrorKind::DuplicateKey => FailureKind::DuplicateKey,
        }
    }
}

impl DeepView for Step {
    type V = Place;

    open spec fn deep_view(&self) -> Place {
        match self {
            Step::Field(name) => Place::Field(name@),
            Step::Index(i) => Place::Index(*i as int),
        }
    }
}

impl DeepView for DecodeError {
    type V = Failure;

    open spec fn deep_view(&self) -> Failure {
        Failure { kind: self.kind.deep_view(), path: self.path.deep_view() }
    }
}

impl Failure {
    /// Malformed input text.
    pub open spec fn malformed() -> Failure {
        Failure { kind: FailureKind::Malformed, path: Seq::empty() }
    }

    /// A value of the wrong shape, at the value itself.
    pub open spec fn mismatch() -> Failure {
        Failure { kind: FailureKind::TypeMismatch, path: Seq::empty() }
    }

    /// A required field that is absent.
    pub open spec fn missing(name: Seq<char>) -> Failure {
        Failure { kind: FailureKind::MissingField, path: seq![Place::Field(name)] }
    }

    /// A token outside the vocabulary, at the value that holds it.
    pub open spec fn unknown(token: Seq<char>) -> Failure {
        Failure { kind: FailureKind::UnknownVariant(token), path: Seq::empty() }
    }

    /// A registry key that occurs a second time.
    pub open spec fn duplicate(key: Seq<char>) -> Failure {
        Failure { kind: FailureKind::DuplicateKey, path: seq![Place::Field(key)] }
    }

    /// The same failure seen from one level further out.
    pub open spec fn under(self, place: Place) -> Failure {
        Failure { kind: self.kind, path: seq![place] + self.path }
    }
}

/// A result whose failure, if any, is seen from one level further out.
pub open spec fn below<T>(place: Place, r: Result<T, Failure>) -> Result<T, Failure> {
    match r {
        Ok(x) => Ok(x),
        Err(f) => Err(f.under(place)),
    }
}

/// An executable result and the mathematical result that it stands for,
/// for a type with a view.
pub open spec fn agrees<T: DeepView>(r: Result<T, DecodeError>, s: Result<T::V, Failure>) -> bool {
    match r {
        Ok(x) => s == Ok::<T::V, Failure>(x.deep_view()),
        Err(e) => s == Err::<T::V, Failure>(e.deep_view()),
    }
}

/// An executable result and the mathematical result that it stands for,
/// for a type that is its own model.
pub open spec fn matches_plain<T>(r: Result<T, DecodeError>, s: Result<T, Failure>) -> bool {
    match r {
        Ok(x) => s == Ok::<T, Failure>(x),
        Err(e) => s == Err::<T, Failure>(e.deep_view()),
    }
}

impl DecodeError {
    /// The error for input text that is not well-formed.
    pub fn malformed() -> (e: DecodeError)
        ensures
            e.deep_view() == Failure::malformed(),
    {
        let e = DecodeError { kind: ErrorKind::Malformed, path: Vec::new() };
        assert(e.path.deep_view() =~= Seq::empty());
        e
    }

    /// The error for a value of the wrong shape, at the value itself.
    pub fn mismatch() -> (e: DecodeError)
        ensures
            e.deep_view() == Failure::mismatch(),
    {
        let e = DecodeError { kind: ErrorKind::TypeMismatch, path: Vec::new() };
        assert(e.path.deep_view() =~= Seq::empty());
        e
    }

    /// The error for the required field `name` that is absent.
    pub fn missing(name: &str) -> (e: DecodeError)
        ensures
            e.deep_view() == Failure::missing(name@),
    {
        let mut path: Vec<Step> = Vec::new();
        path.push(Step::Field(name.to_owned()));
        let e = DecodeError { kind: ErrorKind::MissingField, path };
        assert(e.path.deep_view() =~= seq![Place::Field(name@)]);
        e
    }

    /// The error for a token outside the vocabulary, at the value that
    /// holds it.
    pub fn unknown(token: &str) -> (e: DecodeError)
        ensures
            e.deep_view() == Failure::unknown(token@),
    {
        let e = DecodeError { kind: ErrorKind::UnknownVariant(token.to_owned()), path: Vec::new() };
        assert(e.path.deep_view() =~= Seq::empty());
        e
    }

    /// The error for the registry key `key` that occurs a second time.
    pub fn duplicate(key: &str) -> (e: DecodeError)
        ensures
            e.deep_view() == Failure::duplicate(key@),
    {
        let mut path: Vec<Step> = Vec::new();
        path.push(Step::Field(key.to_owned()));
        let e = DecodeError { kind: ErrorKind::DuplicateKey, path };
        assert(e.path.deep_view() =~= seq![Place::Field(key@)]);
        e
    }

    /// The same error seen from one level further out: `step` becomes the
    /// first step of the path.
    pub fn under(self, step: Step) -> (e: DecodeError)
        ensures
            e.deep_view() == self.deep_view().under(step.deep_view()),
    {
        let ghost place = step.deep_view();
        let ghost before = self.path.deep_view();
        let DecodeError { kind, mut path } = self;
        path.insert(0, step);
        let e = DecodeError { kind, path };
        assert(e.path.deep_view() =~= seq![place] + before);
        e
    }

    /// The same error seen from outside the field `name`.
    pub fn under_field(self, name: &str) -> (e: DecodeError)
        ensures
            e.deep_view() == self.deep_view().under(Place::Field(name@)),
    {
        self.under(Step::Field(name.to_owned()))
    }

    /// The same error seen from outside the element at `index`.
    pub fn under_index(self, index: usize) -> (e: DecodeError)
        ensures
            e.deep_view() == self.deep_view().under(Place::Index(index as int)),
    {
        self.under(Step::Index(index))
    }
}

} // verus!
