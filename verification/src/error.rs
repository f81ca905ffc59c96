//! The failures a caller of the broker can tell apart.
use vstd::prelude::*;
use vstd::string::StringExecFns;

verus! {

/// Why a request to the broker failed.
#[derive(Debug, PartialEq, Eq)]
pub enum Error {
    /// The backend instance could not be constructed: a bad configuration, an unreachable
    /// endpoint, a local resource that is missing. Holds what the constructor reported.
    /// No evidence was looked at.
    Initialization(String),
    /// The backend rejected the evidence: malformed, of another kind of environment than
    /// claimed, against the policy, or bound to a stale nonce. Holds the backend's reason.
    Verification(String),
    /// A backend that manages its policy at run time rejected the new policy. Holds the
    /// backend's reason.
    Policy(String),
    /// The backend has no way to change its policy at run time. The policy in force is the
    /// one it had before the call.
    Unsupported,
}

impl Clone for Error {
    fn clone(&self) -> (copy: Self)
        ensures
            copy == *self,
    {
        match self {
            Error::Initialization(cause) => Error::Initialization(cause.clone()),
            Error::Verification(reason) => Error::Verification(reason.clone()),
            Error::Policy(reason) => Error::Policy(reason.clone()),
            Error::Unsupported => Error::Unsupported,
        }
    }
}

impl Error {
    /// The text that [`Error::message`] gives for every initialization failure.
    pub open spec fn initialization_text() -> Seq<char> {
        "attestation service client initialization failed."@
    }

    /// The text that [`Error::message`] gives for an unsupported policy update.
    pub open spec fn unsupported_text() -> Seq<char> {
        "Set Policy API is unimplemented"@
    }

    /// The characters of [`Error::message`].
    pub open spec fn message_text(&self) -> Seq<char> {
        match self {
            Error::Initialization(_) => Self::initialization_text(),
            Error::Verification(reason) => reason@,
            Error::Policy(reason) => reason@,
            Error::Unsupported => Self::unsupported_text(),
        }
    }

    /// The one-line description of the failure. For a failure of the backend's own it is the
    /// backend's reason, as it stands. An initialization failure always reads the same; its
    /// cause is in the variant's field.
    pub fn message(&self) -> (text: String)
        ensures
            text@ == self.message_text(),
    {
        match self {
            Error::Initialization(_) => String::from_str(
                "attestation service client initialization failed.",
            ),
            Error::Verification(reason) => reason.clone(),
            Error::Policy(reason) => reason.clone(),
            Error::Unsupported => String::from_str("Set Policy API is unimplemented"),
        }
    }
}

} // verus!
