//! The broker: one backend configuration, a fresh backend instance for every request.
use crate::attest::Attest;
use crate::error::Error;
use kbs_types::Tee;
use vstd::prelude::*;
use vstd::std_specs::convert::FromSpec;
use vstd::std_specs::convert::FromSpecImpl;

verus! {

/// Configuration of the verifier that runs inside the broker's own process.
#[derive(Debug, PartialEq, Eq)]
pub struct AsConfig {
    /// Where the verifier takes its policy from.
    pub policy: String,
}

/// Configuration of a verifier that is reached by remote procedure calls.
#[derive(Debug, PartialEq, Eq)]
pub struct GrpcConfig {
    /// The address at which the remote verifier listens.
    pub as_addr: String,
}

/// Configuration of a verifier that a cloud provider hosts.
#[derive(Debug, PartialEq, Eq)]
pub struct IntelTrustAuthorityConfig {
    /// The address of the provider's service.
    pub base_url: String,
    /// The key that the provider issued to this deployment.
    pub api_key: String,
}

/// The broker. It is the configuration of exactly one backend, set when the broker is made
/// and never changed: every operation takes `&self`, so a broker can be shared by any number
/// of concurrent callers, and a request that failed leaves it as it was.
#[derive(Debug, PartialEq, Eq)]
pub enum AttestationService {
    /// The verifier inside the broker's own process.
    CoCoASBuiltIn(AsConfig),
    /// A remote verifier.
    CoCoASgRPC(GrpcConfig),
    /// A verifier hosted by a cloud provider.
    IntelTA(IntelTrustAuthorityConfig),
}

impl Clone for AsConfig {
    fn clone(&self) -> (copy: Self)
        ensures
            copy == *self,
    {
        AsConfig { policy: self.policy.clone() }
    }
}

impl Clone for GrpcConfig {
    fn clone(&self) -> (copy: Self)
        ensures
            copy == *self,
    {
        GrpcConfig { as_addr: self.as_addr.clone() }
    }
}

impl Clone for IntelTrustAuthorityConfig {
    fn clone(&self) -> (copy: Self)
        ensures
            copy == *self,
    {
        IntelTrustAuthorityConfig {
            base_url: self.base_url.clone(),
            api_key: self.api_key.clone(),
        }
    }
}

impl Clone for AttestationService {
    fn clone(&self) -> (copy: Self)
        ensures
            copy == *self,
    {
        match self {
            AttestationService::CoCoASBuiltIn(config) => AttestationService::CoCoASBuiltIn(
                config.clone(),
            ),
            AttestationService::CoCoASgRPC(config) => AttestationService::CoCoASgRPC(
                config.clone(),
            ),
            AttestationService::IntelTA(config) => AttestationService::IntelTA(config.clone()),
        }
    }
}

impl From<AsConfig> for AttestationService {
    fn from(config: AsConfig) -> (service: Self) {
        AttestationService::CoCoASBuiltIn(config)
    }
}

impl FromSpecImpl<AsConfig> for AttestationService {
    open spec fn obeys_from_spec() -> bool {
        true
    }

    open spec fn from_spec(config: AsConfig) -> Self {
        AttestationService::CoCoASBuiltIn(config)
    }
}

impl From<GrpcConfig> for AttestationService {
    fn from(config: GrpcConfig) -> (service: Self) {
        AttestationService::CoCoASgRPC(config)
    }
}

impl FromSpecImpl<GrpcConfig> for AttestationService {
    open spec fn obeys_from_spec() -> bool {
        true
    }

    open spec fn from_spec(config: GrpcConfig) -> Self {
        AttestationService::CoCoASgRPC(config)
    }
}

impl From<IntelTrustAuthorityConfig> for AttestationService {
    fn from(config: IntelTrustAuthorityConfig) -> (service: Self) {
        AttestationService::IntelTA(config)
    }
}

impl FromSpecImpl<IntelTrustAuthorityConfig> for AttestationService {
    open spec fn obeys_from_spec() -> bool {
        true
    }

    open spec fn from_spec(config: IntelTrustAuthorityConfig) -> Self {
        AttestationService::IntelTA(config)
    }
}

/// The constructors of the backends that a deployment is built with, one for each variant of
/// [`AttestationService`]. A constructor takes the variant's configuration and returns a new
/// backend instance, or says why it could not make one.
///
/// Constructing an instance may open a connection or load state from disk, so a constructor
/// may fail on one call and succeed on the next. All three return the same type `C`.
pub struct Backends<B, G, I> {
    /// Makes an instance of the verifier inside the broker's own process.
    pub builtin: B,
    /// Connects to a remote verifier.
    pub grpc: G,
    /// Makes a client of the verifier hosted by a cloud provider.
    pub intel_ta: I,
}

/// What an attempt to construct an instance amounts to for the caller of the broker: the
/// instance, or the constructor's failure marked as an initialization failure.
pub open spec fn spec_initialized<C>(made: Result<C, String>) -> Result<C, Error> {
    match made {
        Ok(client) => Ok(client),
        Err(cause) => Err(Error::Initialization(cause)),
    }
}

/// Whether `answer` is one that `client` may give when its `verify` is called with exactly
/// these four arguments.
pub open spec fn instance_verifies<C: Attest>(
    client: C,
    tee: Tee,
    nonce: &str,
    attestation: &str,
    request_id: &str,
    answer: Result<String, Error>,
) -> bool {
    exists|instance: &mut C|
        *instance == client && #[trigger] call_ensures(
            C::verify,
            (instance, tee, nonce, attestation, request_id),
            answer,
        )
}

/// Whether `answer` is one that `client` may give when its `set_policy` is called with
/// exactly this input.
pub open spec fn instance_sets_policy<C: Attest>(
    client: C,
    input: &[u8],
    answer: Result<(), Error>,
) -> bool {
    exists|instance: &mut C|
        *instance == client && #[trigger] call_ensures(C::set_policy, (instance, input), answer)
}

/// How a verification request ends, given how the construction of the instance went. A
/// failed construction is the answer: there is no instance to ask. The answer of a
/// constructed instance to the caller's arguments, as they are, is the answer.
pub open spec fn verify_outcome<C: Attest>(
    created: Result<C, Error>,
    tee: Tee,
    nonce: &str,
    attestation: &str,
    request_id: &str,
    answer: Result<String, Error>,
) -> bool {
    match created {
        Ok(client) => instance_verifies(client, tee, nonce, attestation, request_id, answer),
        Err(failure) => answer == Err::<String, Error>(failure),
    }
}

/// How a policy update ends, given how the construction of the instance went. It has the
/// shape of [`verify_outcome`].
pub open spec fn set_policy_outcome<C: Attest>(
    created: Result<C, Error>,
    input: &[u8],
    answer: Result<(), Error>,
) -> bool {
    match created {
        Ok(client) => instance_sets_policy(client, input, answer),
        Err(failure) => answer == Err::<(), Error>(failure),
    }
}

/// Marks a failed construction as an initialization failure, and leaves a constructed
/// instance as it is. This is the one decision that the broker takes between constructing an
/// instance and calling it.
#[verifier::when_used_as_spec(spec_initialized)]
pub fn initialized<C>(made: Result<C, String>) -> (created: Result<C, Error>)
    ensures
        created == spec_initialized(made),
{
    match made {
        Ok(client) => Ok(client),
        Err(cause) => Err(Error::Initialization(cause)),
    }
}

impl AttestationService {
    /// Whether the constructor that this configuration selects accepts a call on it. A
    /// constructor without a precondition always does.
    pub open spec fn can_construct<C, B, G, I>(&self, backends: &Backends<B, G, I>) -> bool where
        B: Fn(&AsConfig) -> Result<C, String>,
        G: Fn(&GrpcConfig) -> Result<C, String>,
        I: Fn(&IntelTrustAuthorityConfig) -> Result<C, String>,
     {
        match self {
            AttestationService::CoCoASBuiltIn(config) => call_requires(backends.builtin, (config,)),
            AttestationService::CoCoASgRPC(config) => call_requires(backends.grpc, (config,)),
            AttestationService::IntelTA(config) => call_requires(backends.intel_ta, (config,)),
        }
    }

    /// Whether `made` is something that the constructor selected by this configuration may
    /// return when it is called on this configuration. Each variant selects the constructor
    /// of its own backend, and hands it its own configuration.
    pub open spec fn constructs<C, B, G, I>(
        &self,
        backends: &Backends<B, G, I>,
        made: Result<C, String>,
    ) -> bool where
        B: Fn(&AsConfig) -> Result<C, String>,
        G: Fn(&GrpcConfig) -> Result<C, String>,
        I: Fn(&IntelTrustAuthorityConfig) -> Result<C, String>,
     {
        match self {
            AttestationService::CoCoASBuiltIn(config) => call_ensures(
                backends.builtin,
                (config,),
                made,
            ),
            AttestationService::CoCoASgRPC(config) => call_ensures(backends.grpc, (config,), made),
            AttestationService::IntelTA(config) => call_ensures(
                backends.intel_ta,
                (config,),
                made,
            ),
        }
    }

    /// Whether `created` is something that [`AttestationService::create_client`] may return.
    pub open spec fn creates<C, B, G, I>(
        &self,
        backends: &Backends<B, G, I>,
        created: Result<C, Error>,
    ) -> bool where
        B: Fn(&AsConfig) -> Result<C, String>,
        G: Fn(&GrpcConfig) -> Result<C, String>,
        I: Fn(&IntelTrustAuthorityConfig) -> Result<C, String>,
     {
        exists|made: Result<C, String>| #[trigger]
            self.constructs(backends, made) && created == initialized(made)
    }

    /// Whether `answer` is something that [`AttestationService::verify`] may return: the
    /// end, as [`verify_outcome`] has it, of some construction that
    /// [`AttestationService::create_client`] may return.
    pub open spec fn verifies<C, B, G, I>(
        &self,
        backends: &Backends<B, G, I>,
        tee: Tee,
        nonce: &str,
        attestation: &str,
        request_id: &str,
        answer: Result<String, Error>,
    ) -> bool where
        C: Attest,
        B: Fn(&AsConfig) -> Result<C, String>,
        G: Fn(&GrpcConfig) -> Result<C, String>,
        I: Fn(&IntelTrustAuthorityConfig) -> Result<C, String>,
     {
        exists|created: Result<C, Error>| #[trigger]
            self.creates(backends, created) && verify_outcome(
                created,
                tee,
                nonce,
                attestation,
                request_id,
                answer,
            )
    }

    /// Whether `answer` is something that [`AttestationService::set_policy`] may return: the
    /// end, as [`set_policy_outcome`] has it, of some construction that
    /// [`AttestationService::create_client`] may return.
    pub open spec fn sets_policy<C, B, G, I>(
        &self,
        backends: &Backends<B, G, I>,
        input: &[u8],
        answer: Result<(), Error>,
    ) -> bool where
        C: Attest,
        B: Fn(&AsConfig) -> Result<C, String>,
        G: Fn(&GrpcConfig) -> Result<C, String>,
        I: Fn(&IntelTrustAuthorityConfig) -> Result<C, String>,
     {
        exists|created: Result<C, Error>| #[trigger]
            self.creates(backends, created) && set_policy_outcome(created, input, answer)
    }

    /// Makes a broker for the backend that `config` belongs to: the variant is the one that
    /// holds a configuration of this type, and it holds `config`.
    pub fn new<T>(config: T) -> (service: Self) where Self: From<T>
        ensures
            <Self as FromSpec<T>>::obeys_from_spec() ==> {
                service == <Self as FromSpec<T>>::from_spec(config)
            },
    {
        Self::from(config)
    }

    /// Constructs a new instance of the configured backend: calls the constructor of the
    /// backend that this configuration names, once, on this configuration. Returns the
    /// instance that the constructor made. If the constructor failed, returns
    /// [`Error::Initialization`] with the constructor's own words.
    ///
    /// The constructor that is called must accept the call.
    pub fn create_client<C, B, G, I>(
        &self,
        backends: &Backends<B, G, I>,
    ) -> (created: Result<C, Error>) where
        B: Fn(&AsConfig) -> Result<C, String>,
        G: Fn(&GrpcConfig) -> Result<C, String>,
        I: Fn(&IntelTrustAuthorityConfig) -> Result<C, String>,

        requires
            self.can_construct(backends),
        ensures
            self.creates(backends, created),
    {
        let made = match self {
            AttestationService::CoCoASBuiltIn(config) => (backends.builtin)(config),
            AttestationService::CoCoASgRPC(config) => (backends.grpc)(config),
            AttestationService::IntelTA(config) => (backends.intel_ta)(config),
        };
        assert(self.constructs(backends, made));
        initialized(made)
    }

    /// Verifies evidence: constructs a fresh instance of the configured backend, asks it to
    /// verify, and drops it.
    ///
    /// If the instance cannot be constructed the result is the initialization failure and
    /// no instance is asked. Otherwise the instance is asked once, with `tee`, `nonce`,
    /// `attestation` and `request_id` as the caller gave them, and the result is the
    /// instance's answer, token or failure, as it stands. Nothing is tried twice.
    ///
    /// The constructor of the configured backend must accept the call.
    pub fn verify<C, B, G, I>(
        &self,
        backends: &Backends<B, G, I>,
        tee: Tee,
        nonce: &str,
        attestation: &str,
        request_id: &str,
    ) -> (answer: Result<String, Error>) where
        C: Attest,
        B: Fn(&AsConfig) -> Result<C, String>,
        G: Fn(&GrpcConfig) -> Result<C, String>,
        I: Fn(&IntelTrustAuthorityConfig) -> Result<C, String>,

        requires
            self.can_construct(backends),
        ensures
            self.verifies(backends, tee, nonce, attestation, request_id, answer),
    {
        match self.create_client(backends) {
            Ok(mut client) => client.verify(tee, nonce, attestation, request_id),
            Err(failure) => Err(failure),
        }
    }

    /// Replaces the policy of the configured backend: constructs a fresh instance, asks it
    /// to set the policy, and drops it.
    ///
    /// If the instance cannot be constructed the result is the initialization failure and
    /// no instance is asked. Otherwise the instance is asked once, with `input` as the
    /// caller gave it, and the result is the instance's answer as it stands: for a backend
    /// that keeps the provided body of [`Attest::set_policy`] that is
    /// [`Error::Unsupported`].
    ///
    /// The constructor of the configured backend must accept the call.
    pub fn set_policy<C, B, G, I>(
        &self,
        backends: &Backends<B, G, I>,
        input: &[u8],
    ) -> (answer: Result<(), Error>) where
        C: Attest,
        B: Fn(&AsConfig) -> Result<C, String>,
        G: Fn(&GrpcConfig) -> Result<C, String>,
        I: Fn(&IntelTrustAuthorityConfig) -> Result<C, String>,

        requires
            self.can_construct(backends),
        ensures
            self.sets_policy(backends, input, answer),
    {
        match self.create_client(backends) {
            Ok(mut client) => client.set_policy(input),
            Err(failure) => Err(failure),
        }
    }
}

} // verus!
