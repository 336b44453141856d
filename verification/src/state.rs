//! The state of the front-end and its reactions to what the user does.

use vstd::prelude::*;
use crate::error::ConvertError;

verus! {

/// What the front-end remembers between two actions of the user.
#[derive(Debug)]
pub struct AppState {
    /// The file that was chosen last, if any.
    pub input_path: Option<String>,
    /// The message that is shown to the user.
    pub status: String,
}

/// The status after a conversion that succeeded.
pub open spec fn success_text() -> Seq<char> {
    "Conversion successful!"@
}

/// The status after a conversion that was asked for with no file chosen.
pub open spec fn no_file_text() -> Seq<char> {
    "No file selected."@
}

/// The status after a conversion with the given outcome.
pub open spec fn outcome_text(outcome: Result<(), ConvertError>) -> Seq<char> {
    match outcome {
        Ok(_) => success_text(),
        Err(e) => "Error: "@ + e.message_text(),
    }
}

impl Default for AppState {
    /// No file chosen, nothing to show.
    fn default() -> (s: Self)
        ensures
            s.input_path is None,
            s.status@ == Seq::<char>::empty(),
    {
        AppState { input_path: None, status: String::new() }
    }
}

impl AppState {
    /// The file dialog was closed. A chosen file replaces the stored one and
    /// clears the status; a dismissed dialog changes nothing.
    pub fn select_file(&mut self, picked: Option<String>)
        ensures
            picked is Some ==> final(self).input_path == picked && final(self).status@
                == Seq::<char>::empty(),
            picked is None ==> *final(self) == *old(self),
    {
        match picked {
            Some(path) => {
                self.input_path = Some(path);
                self.status = String::new();
            },
            None => {},
        }
    }

    /// The user asked for a conversion. With a file chosen, the result is its
    /// path, for the caller to convert, and the state stays as it is. With
    /// none, the status says so and nothing is to be converted.
    pub fn request_convert(&mut self) -> (path: Option<String>)
        ensures
            final(self).input_path == old(self).input_path,
            path == old(self).input_path,
            old(self).input_path is Some ==> final(self).status == old(self).status,
            old(self).input_path is None ==> final(self).status@ == no_file_text(),
    {
        match &self.input_path {
            Some(path) => Some(path.clone()),
            None => {
                self.status = "No file selected.".to_owned();
                None
            },
        }
    }

    /// A conversion ended. The status reports success, or the error's
    /// description.
    pub fn finish_convert(&mut self, outcome: Result<(), ConvertError>)
        ensures
            final(self).input_path == old(self).input_path,
            final(self).status@ == outcome_text(outcome),
    {
        match outcome {
            Ok(()) => {
                self.status = "Conversion successful!".to_owned();
            },
            Err(e) => {
                let message = e.message();
                self.status = "Error: ".to_owned().concat(message.as_str());
            },
        }
    }
}

/// The file to convert, where the dialog gave one; a dismissed dialog is the
/// error `NoSelection`.
pub fn require_selection(picked: Option<String>) -> (r: Result<String, ConvertError>)
    ensures
        match picked {
            Some(path) => r == Ok::<String, ConvertError>(path),
            None => r == Err::<String, ConvertError>(ConvertError::NoSelection),
        },
{
    match picked {
        Some(path) => Ok(path),
        None => Err(ConvertError::NoSelection),
    }
}

} // verus!
