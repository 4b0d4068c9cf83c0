//! Why a document could not be read, and how strictly documents are read.

use vstd::prelude::*;

verus! {

/// How a decoder treats an object key that the record does not declare.
#[derive(Debug, Clone, Copy, PartialEq, Eq, Structural)]
pub enum Strictness {
    /// An undeclared key is an error.
    Strict,
    /// Undeclared keys are kept beside the declared fields and written back on encoding.
    Lenient,
}

/// What a decoder needed where it found something else.
#[derive(Debug, Clone, Copy, PartialEq, Eq, Structural)]
pub enum Expected {
    /// A JSON object.
    Object,
    /// A JSON array.
    Array,
    /// A JSON string.
    String,
    /// A non-negative integer that fits the field's type.
    Integer,
    /// `true` or `false`.
    Boolean,
    /// One of the fourteen lighting effects, 0 to 13.
    Color,
    /// `"connected"` or `"disconnected"`.
    Status,
    /// A date and time as `chrono` reads it from a string: RFC 3339, and the relaxed forms
    /// of it that `chrono` takes.
    Instant,
}

/// Why a document could not be read as the requested type.
#[derive(Debug, PartialEq, Eq)]
pub enum DecodeError {
    /// The text is not a JSON document.
    Syntax,
    /// The value is not what the schema asks for at this place.
    Mismatch(Expected),
    /// A required key is absent from the object.
    MissingField(String),
    /// The object holds a key that the record does not declare (strict mode only).
    UnknownField(String),
    /// The value under the named key could not be decoded.
    Field(String, Box<DecodeError>),
    /// The item of an array at the given place, counted from 0, could not be decoded.
    Item(usize, Box<DecodeError>),
    /// The value matches no variant of a union: each variant tried, in order, with its reason.
    SchemaMismatch(Vec<(String, DecodeError)>),
    /// The state of a message and its metadata do not mirror each other.
    Unmirrored,
}

/// Mathematical model of a [`DecodeError`].
pub enum DecodeErrorView {
    Syntax,
    Mismatch(Expected),
    MissingField(Seq<char>),
    UnknownField(Seq<char>),
    Field(Seq<char>, Box<DecodeErrorView>),
    Item(usize, Box<DecodeErrorView>),
    SchemaMismatch(Seq<(Seq<char>, DecodeErrorView)>),
    Unmirrored,
}

impl View for DecodeError {
    type V = DecodeErrorView;

    open spec fn view(&self) -> DecodeErrorView
        decreases self,
    {
        match self {
            DecodeError::Syntax => DecodeErrorView::Syntax,
            DecodeError::Unmirrored => DecodeErrorView::Unmirrored,
            DecodeError::Mismatch(expected) => DecodeErrorView::Mismatch(*expected),
            DecodeError::MissingField(name) => DecodeErrorView::MissingField(name@),
            DecodeError::UnknownField(name) => DecodeErrorView::UnknownField(name@),
            DecodeError::Field(name, cause) => DecodeErrorView::Field(name@, Box::new((**cause).view())),
            DecodeError::Item(at, cause) => DecodeErrorView::Item(*at, Box::new((**cause).view())),
            DecodeError::SchemaMismatch(attempts) => DecodeErrorView::SchemaMismatch(
                Seq::new(
                    attempts@.len(),
                    |i: int|
                        if 0 <= i < attempts@.len() {
                            attempt_view(attempts@[i])
                        } else {
                            (Seq::empty(), DecodeErrorView::Syntax)
                        },
                ),
            ),
        }
    }
}

/// The model of one attempt at a variant of a union: the variant's name and why the value is
/// not of it.
pub open spec fn attempt_view(attempt: (String, DecodeError)) -> (Seq<char>, DecodeErrorView)
    decreases attempt,
{
    (attempt.0@, attempt.1.view())
}

/// The model of the attempts at the variants of a union, in the order in which they were
/// made.
pub open spec fn attempts_view(attempts: Seq<(String, DecodeError)>) -> Seq<(Seq<char>, DecodeErrorView)> {
    Seq::new(attempts.len(), |i: int| attempt_view(attempts[i]))
}

/// The attempts at a union's variants, before the first.
pub fn no_attempts() -> (r: Vec<(String, DecodeError)>)
    ensures
        attempts_view(r@) == Seq::<(Seq<char>, DecodeErrorView)>::empty(),
{
    let attempts: Vec<(String, DecodeError)> = Vec::new();
    assert(attempts_view(attempts@) =~= Seq::empty());
    attempts
}

/// Notes that the value is not of the named variant, and why.
pub fn attempt(attempts: &mut Vec<(String, DecodeError)>, variant: &str, error: DecodeError)
    ensures
        attempts_view(final(attempts)@) == attempts_view(old(attempts)@).push((variant@, error@)),
{
    let ghost before = attempts_view(attempts@);
    attempts.push((variant.to_owned(), error));
    assert(attempts_view(attempts@) =~= before.push((variant@, error@)));
}

/// The error of a value that is of no variant of a union.
pub fn mismatch(attempts: Vec<(String, DecodeError)>) -> (r: DecodeError)
    ensures
        r@ == DecodeErrorView::SchemaMismatch(attempts_view(attempts@)),
{
    let r = DecodeError::SchemaMismatch(attempts);
    assert(r@ matches DecodeErrorView::SchemaMismatch(tried) && tried =~= attempts_view(attempts@));
    r
}

/// The model of a decoder's result: the model of the value, or of the error.
pub open spec fn outcome<T: DeepView>(r: Result<T, DecodeError>) -> Result<T::V, DecodeErrorView> {
    match r {
        Ok(value) => Ok(value.deep_view()),
        Err(error) => Err(error@),
    }
}

} // verus!
