use vstd::prelude::*;

verus! {

/// The errors that every operation of the service layer can answer with.
#[derive(Debug, PartialEq)]
pub enum AppError {
    BadRequest(String),
    NotFound(String),
    Unauthorized(String),
    Forbidden(String),
    InternalServerError(String),
}

/// The mathematical value of an [`AppError`]: its kind and its message as text.
pub enum Fault {
    BadRequest(Seq<char>),
    NotFound(Seq<char>),
    Unauthorized(Seq<char>),
    Forbidden(Seq<char>),
    InternalServerError(Seq<char>),
}

impl View for AppError {
    type V = Fault;

    open spec fn view(&self) -> Fault {
        match self {
            AppError::BadRequest(m) => Fault::BadRequest(m@),
            AppError::NotFound(m) => Fault::NotFound(m@),
            AppError::Unauthorized(m) => Fault::Unauthorized(m@),
            AppError::Forbidden(m) => Fault::Forbidden(m@),
            AppError::InternalServerError(m) => Fault::InternalServerError(m@),
        }
    }
}

/// The HTTP status that answers an error of the given kind.
pub open spec fn status_of(f: Fault) -> u16 {
    match f {
        Fault::BadRequest(_) => 400,
        Fault::NotFound(_) => 404,
        Fault::Unauthorized(_) => 401,
        Fault::Forbidden(_) => 403,
        Fault::InternalServerError(_) => 500,
    }
}

impl AppError {
    /// The HTTP status code of this error.
    pub fn status_code(&self) -> (code: u16)
        ensures
            code == status_of(self@),
    {
        match self {
            AppError::BadRequest(_) => 400,
            AppError::NotFound(_) => 404,
            AppError::Unauthorized(_) => 401,
            AppError::Forbidden(_) => 403,
            AppError::InternalServerError(_) => 500,
        }
    }

    /// The message carried by this error.
    pub fn message(&self) -> (m: &String)
        ensures
            m@ == fault_message(self@),
    {
        match self {
            AppError::BadRequest(m) => m,
            AppError::NotFound(m) => m,
            AppError::Unauthorized(m) => m,
            AppError::Forbidden(m) => m,
            AppError::InternalServerError(m) => m,
        }
    }
}

/// The message of a fault.
pub open spec fn fault_message(f: Fault) -> Seq<char> {
    match f {
        Fault::BadRequest(m) => m,
        Fault::NotFound(m) => m,
        Fault::Unauthorized(m) => m,
        Fault::Forbidden(m) => m,
        Fault::InternalServerError(m) => m,
    }
}

/// Builds an error of kind "bad request" from a message.
pub fn bad_request(msg: &str) -> (e: AppError)
    ensures
        e@ == Fault::BadRequest(msg@),
{
    AppError::BadRequest(msg.to_owned())
}

} // verus!
