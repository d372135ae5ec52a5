use vstd::prelude::*;

verus! {

/// Application-level error carrying a human-readable message.
#[derive(Debug)]
pub struct AppError {
    message: String,
}

impl AppError {
    /// The message this error carries.
    pub closed spec fn message_spec(&self) -> Seq<char> {
        self.message@
    }

    /// Build a boxed error from its message.
    pub fn new(message: String) -> (r: Box<AppError>)
        ensures
            r.message_spec() == message@,
    {
        Box::new(AppError { message })
    }

    /// Read the message back, for display at the program's edge.
    pub fn message(&self) -> (r: &str)
        ensures
            r@ == self.message_spec(),
    {
        self.message.as_str()
    }
}

/// Shorthand for results whose error is an [`AppError`].
pub type Resultish<T> = Result<T, Box<AppError>>;

} // verus!
