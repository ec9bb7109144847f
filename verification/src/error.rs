//! Why a document could not be decoded.
//!
//! Decoding either yields the whole contract or one [`DecodeError`]: nothing
//! is guessed, defaulted or returned in part.

use crate::json::JsonKind;
use vstd::prelude::*;

verus! {

/// One step on the way from the root of a document to a value inside it.
#[derive(Debug, Clone, Copy, PartialEq, Eq)]
pub enum PathSegment {
    /// The member of an object with this name.
    Field(&'static str),
    /// The element of an array at this position, counted from zero.
    Index(usize),
}

/// The mathematical model of a [`PathSegment`].
pub enum PathStep {
    Field(Seq<char>),
    Index(int),
}

impl View for PathSegment {
    type V = PathStep;

    open spec fn view(&self) -> PathStep {
        match *self {
            PathSegment::Field(name) => PathStep::Field(name@),
            PathSegment::Index(i) => PathStep::Index(i as int),
        }
    }
}

impl DeepView for PathSegment {
    type V = PathStep;

    open spec fn deep_view(&self) -> PathStep {
        self.view()
    }
}

/// What the schema asks a value to be.
#[derive(Debug, Clone, Copy, PartialEq, Eq)]
pub enum Expected {
    /// A string.
    String,
    /// A boolean.
    Bool,
    /// An integer from 0 to 255.
    SmallUnsigned,
    /// An array.
    Array,
    /// An object.
    Object,
}

impl Expected {
    /// The kind of JSON value that meets this expectation.
    pub open spec fn kind(self) -> JsonKind {
        match self {
            Expected::String => JsonKind::String,
            Expected::Bool => JsonKind::Bool,
            Expected::SmallUnsigned => JsonKind::Number,
            Expected::Array => JsonKind::Array,
            Expected::Object => JsonKind::Object,
        }
    }
}

/// Why a text is not the hexadecimal form of a byte sequence.
#[derive(Debug, Clone, Copy, PartialEq, Eq)]
pub enum HexFailure {
    /// The byte at `index`, shown as the character `c`, is no hexadecimal
    /// digit. The index counts bytes from the first digit, after the prefix.
    InvalidCharacter { c: char, index: usize },
    /// The number of digits is odd.
    OddLength,
    /// The digits do not fill a container of fixed size. Decoding into a
    /// byte vector never reports this.
    InvalidLength,
}

/// The ways in which decoding fails.
#[derive(Debug, PartialEq, Eq)]
pub enum DecodeError {
    /// The text is not JSON. `line` and `column` say where the parser
    /// stopped and `message` is what it reported.
    MalformedJson { line: usize, column: usize, message: String },
    /// The value at `path` is absent or of the wrong kind. `actual` is the
    /// kind that was found, and `None` where nothing was found.
    SchemaMismatch { path: Vec<PathSegment>, expected: Expected, actual: Option<JsonKind> },
    /// The compiled module is not valid hexadecimal. `payload` is the string
    /// as it stood in the document.
    InvalidHexPayload { payload: String, reason: HexFailure },
}

/// The mathematical model of a [`DecodeError`].
pub enum DecodeErrorView {
    MalformedJson { line: usize, column: usize, message: Seq<char> },
    SchemaMismatch { path: Seq<PathStep>, expected: Expected, actual: Option<JsonKind> },
    InvalidHexPayload { payload: Seq<char>, reason: HexFailure },
}

impl View for DecodeError {
    type V = DecodeErrorView;

    open spec fn view(&self) -> DecodeErrorView {
        match *self {
            DecodeError::MalformedJson {
                line,
                column,
                message,
            } => DecodeErrorView::MalformedJson { line, column, message: message@ },
            DecodeError::SchemaMismatch {
                path,
                expected,
                actual,
            } => DecodeErrorView::SchemaMismatch { path: path.deep_view(), expected, actual },
            DecodeError::InvalidHexPayload {
                payload,
                reason,
            } => DecodeErrorView::InvalidHexPayload { payload: payload@, reason },
        }
    }
}

impl DecodeErrorView {
    /// The same error seen from one level further out: a path is prolonged
    /// at its front by `step`.
    pub open spec fn within(self, step: PathStep) -> DecodeErrorView {
        match self {
            DecodeErrorView::SchemaMismatch {
                path,
                expected,
                actual,
            } => DecodeErrorView::SchemaMismatch { path: seq![step] + path, expected, actual },
            other => other,
        }
    }
}

/// A value of the wrong kind, at the place where decoding stands.
pub open spec fn mismatch(expected: Expected, actual: JsonKind) -> DecodeErrorView {
    DecodeErrorView::SchemaMismatch { path: Seq::empty(), expected, actual: Some(actual) }
}

/// A member that the object at hand lacks.
pub open spec fn missing(name: Seq<char>, expected: Expected) -> DecodeErrorView {
    DecodeErrorView::SchemaMismatch { path: seq![PathStep::Field(name)], expected, actual: None }
}

/// The model of a decoding result.
pub open spec fn decoded<T: DeepView>(r: Result<T, DecodeError>) -> Result<T::V, DecodeErrorView> {
    match r {
        Ok(value) => Ok(value.deep_view()),
        Err(e) => Err(e@),
    }
}

impl DecodeError {
    /// The error for a value of the wrong kind, at the place where decoding
    /// stands.
    pub fn wrong_kind(expected: Expected, actual: JsonKind) -> (e: DecodeError)
        ensures
            e@ == mismatch(expected, actual),
    {
        let path: Vec<PathSegment> = Vec::new();
        let e = DecodeError::SchemaMismatch { path, expected, actual: Some(actual) };
        assert(path.deep_view() =~= Seq::<PathStep>::empty());
        e
    }

    /// The error for a member that the object at hand lacks.
    pub fn absent(name: &'static str, expected: Expected) -> (e: DecodeError)
        ensures
            e@ == missing(name@, expected),
    {
        let mut path: Vec<PathSegment> = Vec::new();
        path.push(PathSegment::Field(name));
        assert(path.deep_view() =~= seq![PathStep::Field(name@)]);
        DecodeError::SchemaMismatch { path, expected, actual: None }
    }

    /// The same error seen from one level further out: a path is prolonged
    /// at its front by `segment`, and every other error stays as it is.
    pub fn within(self, segment: PathSegment) -> (e: DecodeError)
        ensures
            e@ == self@.within(segment@),
    {
        match self {
            DecodeError::SchemaMismatch { path, expected, actual } => {
                let mut path = path;
                let ghost before = path.deep_view();
                path.insert(0, segment);
                assert(path.deep_view() =~= seq![segment@] + before);
                DecodeError::SchemaMismatch { path, expected, actual }
            },
            other => other,
        }
    }
}

} // verus!
