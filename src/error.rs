//! An application error that carries a numeric code and a message.
use vstd::prelude::*;

verus! {

pub struct AppError {
    pub code: usize,
    pub message: String,
}

impl AppError {
    /// The text shown to a user, chosen by the code alone.
    pub fn user_message(&self) -> (r: &'static str)
        ensures
            self.code == 404 ==> r == "Sorry, Can not find the Page!",
            self.code == 500 ==> r == "The Server inner error!",
            self.code != 404 && self.code != 500 ==> r
                == "Sorry, something is wrong! Please Try Again!",
    {
        if self.code == 404 {
            "Sorry, Can not find the Page!"
        } else if self.code == 500 {
            "The Server inner error!"
        } else {
            "Sorry, something is wrong! Please Try Again!"
        }
    }
}

/// Always fails, with code 500 and the message `Page not found`.
pub fn produce_error() -> (r: Result<(), AppError>)
    ensures
        r matches Err(e) && e.code == 500 && e.message@ == "Page not found"@,
{
    Err(AppError { code: 500, message: "Page not found".to_owned() })
}

} // verus!
