//! Confirmation prompts for destructive CLI operations.
//!
//! The prompt text and default answer are built here; reading the user's
//! reply from a terminal happens in the daemon shell.

use vstd::prelude::*;
use vstd::string::StringExecFns;

verus! {

/// A confirmation prompt together with its default answer.
#[derive(Debug)]
pub struct ConfirmationRequest {
    /// The question put to the user.
    pub prompt: String,
    /// The answer assumed when the user just presses return.
    pub default: bool,
}

impl Default for ConfirmationRequest {
    fn default() -> (r: Self)
        ensures
            r.prompt@ == "Are you sure?"@,
            r.default == true,
    {
        ConfirmationRequest::new()
    }
}

impl ConfirmationRequest {
    /// Create a new confirmation request with the standard prompt and an
    /// affirmative default.
    pub fn new() -> (r: Self)
        ensures
            r.prompt@ == "Are you sure?"@,
            r.default == true,
    {
        ConfirmationRequest { prompt: String::from_str("Are you sure?"), default: true }
    }

    /// Set the prompt text.
    pub fn with_prompt(self, prompt: &str) -> (r: Self)
        ensures
            r.prompt@ == prompt@,
            r.default == self.default,
    {
        ConfirmationRequest { prompt: prompt.to_owned(), default: self.default }
    }

    /// Set the default answer.
    pub fn with_default(self, default: bool) -> (r: Self)
        ensures
            r.prompt == self.prompt,
            r.default == default,
    {
        ConfirmationRequest { prompt: self.prompt, default }
    }

    /// The characters shown beside the prompt: the default answer is the
    /// capitalized letter.
    pub fn answer_hint(&self) -> (r: &'static str)
        ensures
            self.default ==> r@ == "Y/n"@,
            !self.default ==> r@ == "y/N"@,
    {
        if self.default {
            "Y/n"
        } else {
            "y/N"
        }
    }
}

} // verus!
