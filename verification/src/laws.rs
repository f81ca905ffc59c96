//! What holds of the broker whatever backend stands behind it.
//!
//! Each law is stated over the relations in which the contracts of
//! [`AttestationService`] are written, so it holds of every result that `create_client`,
//! `verify` and `set_policy` can return.
use crate::attest::Attest;
use crate::error::Error;
use crate::service::instance_sets_policy;
use crate::service::instance_verifies;
use crate::service::AsConfig;
use crate::service::AttestationService;
use crate::service::Backends;
use crate::service::GrpcConfig;
use crate::service::IntelTrustAuthorityConfig;
use kbs_types::Tee;
use vstd::prelude::*;

verus! {

/// Whether a backend of type `C` manages no policy at run time: whatever the instance and
/// the input, its `set_policy` answers [`Error::Unsupported`]. A backend that keeps the
/// provided body of [`Attest::set_policy`] is one of these.
pub open spec fn lacks_policy_support<C: Attest>() -> bool {
    forall|client: C, input: &[u8], answer: Result<(), Error>| #[trigger]
        instance_sets_policy(client, input, answer) ==> answer == Err::<(), Error>(
            Error::Unsupported,
        )
}

/// On every variant of the configuration, `create_client` follows the constructor that the
/// variant selects. An instance that it returns is one that this constructor made from this
/// configuration. It fails only when this constructor failed, and then with
/// [`Error::Initialization`] around the constructor's own words, which reads as an
/// initialization failure whatever these words are.
pub proof fn lemma_create_client_follows_constructor<C, B, G, I>(
    service: AttestationService,
    backends: &Backends<B, G, I>,
    created: Result<C, Error>,
) where
    B: Fn(&AsConfig) -> Result<C, String>,
    G: Fn(&GrpcConfig) -> Result<C, String>,
    I: Fn(&IntelTrustAuthorityConfig) -> Result<C, String>,

    requires
        service.creates(backends, created),
    ensures
        created matches Ok(client) ==> service.constructs(backends, Ok::<C, String>(client)),
        created matches Err(failure) ==> {
            &&& failure matches Error::Initialization(cause)
            &&& service.constructs(backends, Err::<C, String>(cause))
            &&& failure.message_text() == Error::initialization_text()
        },
{
}

/// A broker with a valid configuration always gets a usable instance: where the constructor
/// that the configuration selects cannot fail on it, `create_client` does not fail.
pub proof fn lemma_valid_configuration_yields_instance<C, B, G, I>(
    service: AttestationService,
    backends: &Backends<B, G, I>,
    created: Result<C, Error>,
) where
    B: Fn(&AsConfig) -> Result<C, String>,
    G: Fn(&GrpcConfig) -> Result<C, String>,
    I: Fn(&IntelTrustAuthorityConfig) -> Result<C, String>,

    requires
        forall|made: Result<C, String>| #[trigger] service.constructs(backends, made) ==> made is Ok,
        service.creates(backends, created),
    ensures
        created is Ok,
{
}

/// A backend without policy management never reports a policy update as applied. Through
/// the broker, `set_policy` then fails whatever the input: with [`Error::Unsupported`] when
/// an instance was constructed, and with [`Error::Initialization`] when none could be.
pub proof fn lemma_set_policy_without_support<C, B, G, I>(
    service: AttestationService,
    backends: &Backends<B, G, I>,
    input: &[u8],
    answer: Result<(), Error>,
) where
    C: Attest,
    B: Fn(&AsConfig) -> Result<C, String>,
    G: Fn(&GrpcConfig) -> Result<C, String>,
    I: Fn(&IntelTrustAuthorityConfig) -> Result<C, String>,

    requires
        lacks_policy_support::<C>(),
        service.sets_policy(backends, input, answer),
    ensures
        answer is Err,
        answer == Err::<(), Error>(Error::Unsupported) || answer matches Err(
            Error::Initialization(_),
        ),
        (forall|made: Result<C, String>| #[trigger]
            service.constructs(backends, made) ==> made is Ok) ==> answer == Err::<(), Error>(
            Error::Unsupported,
        ),
{
}

/// `verify` adds nothing of its own to what the backend does. Take a backend in a fixed
/// state: on this configuration its constructor either always makes an instance or always
/// fails, and the instances that it makes either all accept the request or all reject it.
/// Then two calls of `verify` with the same four arguments both return a token or both
/// fail.
pub proof fn lemma_verify_is_deterministic<C, B, G, I>(
    service: AttestationService,
    backends: &Backends<B, G, I>,
    tee: Tee,
    nonce: &str,
    attestation: &str,
    request_id: &str,
    first: Result<String, Error>,
    second: Result<String, Error>,
) where
    C: Attest,
    B: Fn(&AsConfig) -> Result<C, String>,
    G: Fn(&GrpcConfig) -> Result<C, String>,
    I: Fn(&IntelTrustAuthorityConfig) -> Result<C, String>,

    requires
        forall|one: Result<C, String>, other: Result<C, String>|
            #[trigger] service.constructs(backends, one) && #[trigger] service.constructs(
                backends,
                other,
            ) ==> (one is Ok <==> other is Ok),
        forall|
            client: C,
            twin: C,
            one: Result<String, Error>,
            other: Result<String, Error>,
        |
            {
                &&& service.constructs(backends, Ok::<C, String>(client))
                &&& service.constructs(backends, Ok::<C, String>(twin))
                &&& #[trigger] instance_verifies(client, tee, nonce, attestation, request_id, one)
                &&& #[trigger] instance_verifies(twin, tee, nonce, attestation, request_id, other)
            } ==> (one is Ok <==> other is Ok),
        service.verifies(backends, tee, nonce, attestation, request_id, first),
        service.verifies(backends, tee, nonce, attestation, request_id, second),
    ensures
        first is Ok <==> second is Ok,
{
}

/// The broker never makes a token of its own. A token that `verify` returns is one that an
/// instance of the configured backend gave in answer to exactly the caller's arguments. So
/// where every such instance rejects the request as a verification failure, as a backend
/// does when the evidence is not of the claimed kind of environment, `verify` returns no
/// token: it returns the instance's rejection, or [`Error::Initialization`] when no instance
/// could be constructed.
pub proof fn lemma_verify_never_forges_a_token<C, B, G, I>(
    service: AttestationService,
    backends: &Backends<B, G, I>,
    tee: Tee,
    nonce: &str,
    attestation: &str,
    request_id: &str,
    answer: Result<String, Error>,
) where
    C: Attest,
    B: Fn(&AsConfig) -> Result<C, String>,
    G: Fn(&GrpcConfig) -> Result<C, String>,
    I: Fn(&IntelTrustAuthorityConfig) -> Result<C, String>,

    requires
        service.verifies(backends, tee, nonce, attestation, request_id, answer),
    ensures
        answer is Ok ==> exists|client: C|
            {
                &&& service.constructs(backends, Ok::<C, String>(client))
                &&& #[trigger] instance_verifies(
                    client,
                    tee,
                    nonce,
                    attestation,
                    request_id,
                    answer,
                )
            },
        (forall|client: C, given: Result<String, Error>|
            {
                &&& service.constructs(backends, Ok::<C, String>(client))
                &&& #[trigger] instance_verifies(
                    client,
                    tee,
                    nonce,
                    attestation,
                    request_id,
                    given,
                )
            } ==> given matches Err(Error::Verification(_))) ==> {
            ||| answer matches Err(Error::Verification(_))
            ||| answer matches Err(Error::Initialization(_))
        },
{
}

/// A broker whose backend cannot be reached fails both operations at initialization: where
/// the constructor that the configuration selects cannot succeed, `verify` returns
/// [`Error::Initialization`], never a token, and `set_policy` returns
/// [`Error::Initialization`], never success.
pub proof fn lemma_unreachable_backend_fails_initialization<C, B, G, I>(
    service: AttestationService,
    backends: &Backends<B, G, I>,
    tee: Tee,
    nonce: &str,
    attestation: &str,
    request_id: &str,
    verified: Result<String, Error>,
    input: &[u8],
    updated: Result<(), Error>,
) where
    C: Attest,
    B: Fn(&AsConfig) -> Result<C, String>,
    G: Fn(&GrpcConfig) -> Result<C, String>,
    I: Fn(&IntelTrustAuthorityConfig) -> Result<C, String>,

    requires
        forall|made: Result<C, String>| #[trigger] service.constructs(backends, made) ==> made is Err,
        service.verifies(backends, tee, nonce, attestation, request_id, verified),
        service.sets_policy(backends, input, updated),
    ensures
        verified matches Err(Error::Initialization(_)),
        updated matches Err(Error::Initialization(_)),
{
}

} // verus!
