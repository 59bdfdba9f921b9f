//! Errors of the domain layer.

use vstd::prelude::*;

verus! {

/// Domain errors. Each variant carries a human-readable message.
#[derive(Debug, Clone, PartialEq, Eq)]
pub enum DomainError {
    /// Generic message error; what a capability port reports when it has
    /// nothing more specific to say.
    Message(String),
    /// The experiment specification is malformed.
    Validation(String),
    /// A capability port call failed.
    Capability(String),
    /// The status record is not in a state the requested step can work from.
    State(String),
    /// Measured values do not form a usable reference point.
    InvalidInput(String),
}

/// Mathematical model of a [`DomainError`].
pub enum DomainErrorView {
    Message(Seq<char>),
    Validation(Seq<char>),
    Capability(Seq<char>),
    State(Seq<char>),
    InvalidInput(Seq<char>),
}

impl View for DomainError {
    type V = DomainErrorView;

    open spec fn view(&self) -> DomainErrorView {
        match self {
            DomainError::Message(m) => DomainErrorView::Message(m@),
            DomainError::Validation(m) => DomainErrorView::Validation(m@),
            DomainError::Capability(m) => DomainErrorView::Capability(m@),
            DomainError::State(m) => DomainErrorView::State(m@),
            DomainError::InvalidInput(m) => DomainErrorView::InvalidInput(m@),
        }
    }
}

impl DomainErrorView {
    /// The message carried by the error, whatever its kind.
    pub open spec fn text(self) -> Seq<char> {
        match self {
            DomainErrorView::Message(m) => m,
            DomainErrorView::Validation(m) => m,
            DomainErrorView::Capability(m) => m,
            DomainErrorView::State(m) => m,
            DomainErrorView::InvalidInput(m) => m,
        }
    }
}

impl DomainError {
    /// Create a generic error from string
    pub fn message(msg: &str) -> (e: Self)
        ensures
            e@ == DomainErrorView::Message(msg@),
    {
        DomainError::Message(msg.to_owned())
    }

    /// Create a validation error from string
    pub fn validation(msg: &str) -> (e: Self)
        ensures
            e@ == DomainErrorView::Validation(msg@),
    {
        DomainError::Validation(msg.to_owned())
    }

    /// Create a capability error from string
    pub fn capability(msg: &str) -> (e: Self)
        ensures
            e@ == DomainErrorView::Capability(msg@),
    {
        DomainError::Capability(msg.to_owned())
    }

    /// Create a state error from string
    pub fn state(msg: &str) -> (e: Self)
        ensures
            e@ == DomainErrorView::State(msg@),
    {
        DomainError::State(msg.to_owned())
    }

    /// Create an invalid-input error from string
    pub fn invalid_input(msg: &str) -> (e: Self)
        ensures
            e@ == DomainErrorView::InvalidInput(msg@),
    {
        DomainError::InvalidInput(msg.to_owned())
    }

    /// The message the error carries, as an owned string.
    pub fn text(&self) -> (s: String)
        ensures
            s@ == self@.text(),
    {
        match self {
            DomainError::Message(m) => m.clone(),
            DomainError::Validation(m) => m.clone(),
            DomainError::Capability(m) => m.clone(),
            DomainError::State(m) => m.clone(),
            DomainError::InvalidInput(m) => m.clone(),
        }
    }

    /// A copy of the error.
    pub fn duplicate(&self) -> (e: Self)
        ensures
            e@ == self@,
    {
        match self {
            DomainError::Message(m) => DomainError::Message(m.clone()),
            DomainError::Validation(m) => DomainError::Validation(m.clone()),
            DomainError::Capability(m) => DomainError::Capability(m.clone()),
            DomainError::State(m) => DomainError::State(m.clone()),
            DomainError::InvalidInput(m) => DomainError::InvalidInput(m.clone()),
        }
    }
}

} // verus!
