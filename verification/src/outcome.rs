//! Coarse classification of a response status for metric aggregation.

use vstd::prelude::*;

verus! {

/// The outcome class of a completed request.
#[derive(Clone, Copy, PartialEq, Eq, Debug, Structural)]
pub enum OutcomeClass {
    Success,
    ClientError,
    ServerError,
}

/// The class of a status code: 400 to 499 is a client error, 500 to 599 a
/// server error, and every other code counts as success.
pub open spec fn class_of(status: u16) -> OutcomeClass {
    if 400 <= status <= 499 {
        OutcomeClass::ClientError
    } else if 500 <= status <= 599 {
        OutcomeClass::ServerError
    } else {
        OutcomeClass::Success
    }
}

/// Classifies a response status code.
pub fn classify(status: u16) -> (class: OutcomeClass)
    ensures
        class == class_of(status),
{
    if 400 <= status && status <= 499 {
        OutcomeClass::ClientError
    } else if 500 <= status && status <= 599 {
        OutcomeClass::ServerError
    } else {
        OutcomeClass::Success
    }
}

impl OutcomeClass {
    /// Position of the class in the fixed order success, client error, server error.
    pub open spec fn rank(self) -> nat {
        match self {
            OutcomeClass::Success => 0,
            OutcomeClass::ClientError => 1,
            OutcomeClass::ServerError => 2,
        }
    }

    /// The label under which the class appears in the metrics text.
    pub open spec fn label_text(self) -> Seq<char> {
        match self {
            OutcomeClass::Success => "success"@,
            OutcomeClass::ClientError => "client_error"@,
            OutcomeClass::ServerError => "server_error"@,
        }
    }

    /// The position of the class as a machine integer.
    pub fn index(self) -> (i: usize)
        ensures
            i == self.rank(),
            i < 3,
    {
        match self {
            OutcomeClass::Success => 0,
            OutcomeClass::ClientError => 1,
            OutcomeClass::ServerError => 2,
        }
    }

    /// The label of the class.
    pub fn label(self) -> (text: &'static str)
        ensures
            text@ == self.label_text(),
    {
        match self {
            OutcomeClass::Success => "success",
            OutcomeClass::ClientError => "client_error",
            OutcomeClass::ServerError => "server_error",
        }
    }
}

/// The class at a position of the fixed order; past the end, the last one.
pub open spec fn class_at(i: nat) -> OutcomeClass {
    if i == 0 {
        OutcomeClass::Success
    } else if i == 1 {
        OutcomeClass::ClientError
    } else {
        OutcomeClass::ServerError
    }
}

/// Finds the class at a position.
pub fn class_from_index(i: usize) -> (class: OutcomeClass)
    ensures
        class == class_at(i as nat),
        i < 3 ==> class.rank() == i,
{
    if i == 0 {
        OutcomeClass::Success
    } else if i == 1 {
        OutcomeClass::ClientError
    } else {
        OutcomeClass::ServerError
    }
}

} // verus!
