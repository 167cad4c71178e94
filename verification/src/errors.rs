//! The closed set of terminal errors a bind invocation can surface. Every
//! one aborts only the current bind; the cache and the process state stay
//! valid for later queries.

use vstd::prelude::*;
use vstd::string::StringExecFns;

verus! {

/// Why a bind invocation failed.
#[derive(Debug, PartialEq)]
pub enum WizardError {
    /// Neither provider credential was supplied.
    NoCredentials,
    /// The provider call itself failed; carries the provider's error text.
    GenerationFailed(String),
    /// The provider's text failed structured parsing; carries the raw text
    /// for debug output only.
    MalformedResponse(String),
    /// Sandboxed execution exited abnormally; carries the captured
    /// diagnostic text.
    BackendFailed(String),
    /// The execution result was neither an object nor an array.
    UnexpectedShape,
}

/// The text `message` renders for an error.
pub open spec fn message_spec(e: WizardError) -> Seq<char> {
    match e {
        WizardError::NoCredentials => {
            "No API key found. Set OPENAI_API_KEY or ANTHROPIC_API_KEY"@
        },
        WizardError::GenerationFailed(t) => "generation failed: "@ + t@,
        WizardError::MalformedResponse(t) => "malformed model response: "@ + t@,
        WizardError::BackendFailed(t) => "sandboxed execution failed: "@ + t@,
        WizardError::UnexpectedShape => "unexpected execution result shape"@,
    }
}

impl WizardError {
    /// Renders the error the way the host sees it.
    pub fn message(&self) -> (r: String)
        ensures
            r@ == message_spec(*self),
    {
        match self {
            WizardError::NoCredentials => {
                "No API key found. Set OPENAI_API_KEY or ANTHROPIC_API_KEY".to_owned()
            },
            WizardError::GenerationFailed(t) => {
                let mut s = "generation failed: ".to_owned();
                s.append(t.as_str());
                s
            },
            WizardError::MalformedResponse(t) => {
                let mut s = "malformed model response: ".to_owned();
                s.append(t.as_str());
                s
            },
            WizardError::BackendFailed(t) => {
                let mut s = "sandboxed execution failed: ".to_owned();
                s.append(t.as_str());
                s
            },
            WizardError::UnexpectedShape => "unexpected execution result shape".to_owned(),
        }
    }
}

} // verus!
