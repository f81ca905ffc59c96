//! The capability that every attestation backend offers to the broker.
use crate::error::Error;
use kbs_types::Tee;
use vstd::prelude::*;

verus! {

/// Makes `kbs_types::Tee` known to Verus as a type whose values Verus cannot look into.
/// A `Tee` names the kind of trusted execution environment that a piece of evidence claims
/// to come from. Nothing is assumed of its values: the broker carries a `Tee` from the
/// caller to the backend and never reads it.
#[verifier::external_type_specification]
#[verifier::external_body]
pub struct ExTee(Tee);

/// What an attestation backend can be asked to do.
///
/// The broker constructs an instance for one request, calls one of the two operations on
/// it, once, and drops it. Whatever a backend keeps from one request to the next (a policy,
/// trust roots, a record of the nonces it has seen) it keeps outside its instances.
///
/// Neither operation has a postcondition here, because what a backend answers depends on
/// a state that the broker does not see. A backend that is itself verified states its own
/// postconditions on its implementation of the operations, and the contracts of the broker
/// hand them on to the broker's caller.
pub trait Attest: Send + Sync {
    /// Replaces the policy against which evidence is judged.
    ///
    /// A backend that manages its policy at run time provides this operation. One that does
    /// not keeps the body given here, and then every call fails with
    /// [`Error::Unsupported`], whatever the input: an update that was ignored never looks
    /// like one that was applied.
    fn set_policy(&mut self, input: &[u8]) -> (r: Result<(), Error>)
        default_ensures
            r == Err::<(), Error>(Error::Unsupported),
    {
        Err(Error::Unsupported)
    }

    /// Judges `attestation`, the evidence of an environment that claims to be of kind
    /// `tee`, and returns the backend's result token for it.
    ///
    /// A backend returns a token only for well-formed evidence of the claimed kind that
    /// satisfies its policy and is bound to `nonce`, the caller's challenge, in a way that
    /// the backend accepts as fresh. Otherwise it fails with its own account of the reason.
    /// `request_id` serves to find the request again in logs and has no part in the
    /// judgement.
    fn verify(
        &mut self,
        tee: Tee,
        nonce: &str,
        attestation: &str,
        request_id: &str,
    ) -> (r: Result<String, Error>);
}

/// A boxed backend is a backend: each operation is handed to the backend in the box, with
/// the arguments as they are, and its answer is returned as it is. With this, backends of
/// several types can stand behind one broker as `Box<dyn Attest>`.
impl<A: Attest + ?Sized> Attest for Box<A> {
    fn set_policy(&mut self, input: &[u8]) -> (r: Result<(), Error>)
        ensures
            exists|inner: &mut A|
                &*inner == &**old(self) && #[trigger] call_ensures(
                    A::set_policy,
                    (inner, input),
                    r,
                ),
    {
        let inner: &mut A = &mut **self;
        inner.set_policy(input)
    }

    fn verify(
        &mut self,
        tee: Tee,
        nonce: &str,
        attestation: &str,
        request_id: &str,
    ) -> (r: Result<String, Error>)
        ensures
            exists|inner: &mut A|
                &*inner == &**old(self) && #[trigger] call_ensures(
                    A::verify,
                    (inner, tee, nonce, attestation, request_id),
                    r,
                ),
    {
        let inner: &mut A = &mut **self;
        inner.verify(tee, nonce, attestation, request_id)
    }
}

} // verus!
