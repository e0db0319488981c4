use vstd::prelude::*;

verus! {

/// The kinds of failure a request can end in.
#[derive(Clone, Copy, Debug, PartialEq, Eq, Structural)]
pub enum Error {
    /// A slug, an id or an author was looked up and is not stored.
    NotFound,
    /// A field of the request breaks its constraint.
    ValidationError,
    /// A uniqueness constraint of the storage layer rejected the write.
    Conflict,
    /// A write came without a valid principal.
    Unauthenticated,
}

impl Error {
    /// The HTTP status that answers a failure of this kind.
    pub open spec fn spec_status(self) -> int {
        match self {
            Error::NotFound => 404,
            Error::ValidationError => 422,
            Error::Conflict => 409,
            Error::Unauthenticated => 401,
        }
    }

    /// The name of this kind in the body of the answer.
    pub open spec fn spec_name(self) -> Seq<char> {
        match self {
            Error::NotFound => "not_found"@,
            Error::ValidationError => "validation_error"@,
            Error::Conflict => "conflict"@,
            Error::Unauthenticated => "unauthorized"@,
        }
    }

    /// The sentence that the body of the answer gives the client.
    pub open spec fn spec_description(self) -> Seq<char> {
        match self {
            Error::NotFound => "Resource was not found"@,
            Error::ValidationError => "A field of the request breaks its constraint"@,
            Error::Conflict => "The resource exists already"@,
            Error::Unauthenticated => "The request carries no valid principal"@,
        }
    }

    /// The HTTP status that answers a failure of this kind.
    pub fn status(&self) -> (code: u16)
        ensures
            code == self.spec_status(),
    {
        match self {
            Error::NotFound => 404,
            Error::ValidationError => 422,
            Error::Conflict => 409,
            Error::Unauthenticated => 401,
        }
    }

    /// The name of this kind in the body of the answer.
    pub fn name(&self) -> (name: &'static str)
        ensures
            name@ == self.spec_name(),
    {
        match self {
            Error::NotFound => "not_found",
            Error::ValidationError => "validation_error",
            Error::Conflict => "conflict",
            Error::Unauthenticated => "unauthorized",
        }
    }

    /// The sentence that the body of the answer gives the client. It depends on
    /// the kind alone: nothing of the storage layer's own message is in it.
    pub fn description(&self) -> (text: &'static str)
        ensures
            text@ == self.spec_description(),
    {
        match self {
            Error::NotFound => "Resource was not found",
            Error::ValidationError => "A field of the request breaks its constraint",
            Error::Conflict => "The resource exists already",
            Error::Unauthenticated => "The request carries no valid principal",
        }
    }
}

/// Each kind of failure has a status of its own, in the range of client
/// errors.
pub proof fn lemma_status_tells_the_kind(first: Error, second: Error)
    ensures
        400 <= first.spec_status() < 500,
        first.spec_status() == second.spec_status() <==> first == second,
{
}

} // verus!
