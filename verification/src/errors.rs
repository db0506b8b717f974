use vstd::prelude::*;

verus! {

/// An error met while serving a page, described by its message.
#[derive(Clone, Debug)]
pub struct AppError {
    message: String,
}

impl AppError {
    /// The error described by `message`.
    pub fn new(message: String) -> (error: Self)
        ensures
            error.message_view() == message@,
    {
        AppError { message }
    }

    /// The message that describes the error.
    pub closed spec fn message_view(&self) -> Seq<char> {
        self.message@
    }

    /// The HTTP status with which the error is answered: 500, Internal Server Error.
    pub fn status_code(&self) -> (code: u16)
        ensures
            code == 500,
    {
        500
    }

    /// The body with which the error is answered.
    pub fn response_body(&self) -> (body: String)
        ensures
            body@ == "Internal error: "@ + self.message_view(),
    {
        String::from_str("Internal error: ").concat(self.message.as_str())
    }
}

} // verus!
