use attestation::attest::Attest;
use attestation::error::Error;
use attestation::service::{
    initialized, AsConfig, AttestationService, Backends, GrpcConfig, IntelTrustAuthorityConfig,
};
use kbs_types::Tee;
use std::sync::atomic::{AtomicUsize, Ordering};
use std::sync::Arc;

/// A backend that tells in its token who made it, from what, and what it was asked.
#[derive(Debug, PartialEq)]
struct Echo {
    made_by: &'static str,
    made_from: String,
}

impl Attest for Echo {
    fn verify(
        &mut self,
        tee: Tee,
        nonce: &str,
        attestation: &str,
        request_id: &str,
    ) -> Result<String, Error> {
        Ok(format!(
            "{}|{}|{:?}|{}|{}|{}",
            self.made_by, self.made_from, tee, nonce, attestation, request_id
        ))
    }
}

fn builtin(config: &AsConfig) -> Result<Echo, String> {
    Ok(Echo { made_by: "builtin", made_from: config.policy.clone() })
}

fn grpc(config: &GrpcConfig) -> Result<Echo, String> {
    if config.as_addr == "http://127.0.0.1:1" {
        Err("connection refused: http://127.0.0.1:1".to_string())
    } else {
        Ok(Echo { made_by: "grpc", made_from: config.as_addr.clone() })
    }
}

fn intel_ta(config: &IntelTrustAuthorityConfig) -> Result<Echo, String> {
    if config.api_key.is_empty() {
        Err("no api key".to_string())
    } else {
        Ok(Echo { made_by: "intel_ta", made_from: format!("{}#{}", config.base_url, config.api_key) })
    }
}

type Maker<T> = fn(&T) -> Result<Echo, String>;

fn all() -> Backends<Maker<AsConfig>, Maker<GrpcConfig>, Maker<IntelTrustAuthorityConfig>> {
    Backends { builtin, grpc, intel_ta }
}

fn as_config() -> AsConfig {
    AsConfig { policy: "default.rego".to_string() }
}

fn grpc_config() -> GrpcConfig {
    GrpcConfig { as_addr: "http://127.0.0.1:50004".to_string() }
}

fn intel_ta_config() -> IntelTrustAuthorityConfig {
    IntelTrustAuthorityConfig {
        base_url: "https://portal.example".to_string(),
        api_key: "k-123".to_string(),
    }
}

#[test]
fn new_takes_each_configuration_to_its_variant() {
    assert_eq!(
        AttestationService::new(as_config()),
        AttestationService::CoCoASBuiltIn(as_config())
    );
    assert_eq!(
        AttestationService::new(grpc_config()),
        AttestationService::CoCoASgRPC(grpc_config())
    );
    assert_eq!(
        AttestationService::new(intel_ta_config()),
        AttestationService::IntelTA(intel_ta_config())
    );
}

#[test]
fn from_agrees_with_new() {
    assert_eq!(AttestationService::from(as_config()), AttestationService::new(as_config()));
    assert_eq!(AttestationService::from(grpc_config()), AttestationService::new(grpc_config()));
    assert_eq!(
        AttestationService::from(intel_ta_config()),
        AttestationService::new(intel_ta_config())
    );
}

#[test]
fn clone_keeps_the_configuration() {
    for broker in [
        AttestationService::new(as_config()),
        AttestationService::new(grpc_config()),
        AttestationService::new(intel_ta_config()),
    ] {
        assert_eq!(broker.clone(), broker);
    }
    assert_eq!(as_config().clone(), as_config());
    assert_eq!(grpc_config().clone(), grpc_config());
    assert_eq!(intel_ta_config().clone(), intel_ta_config());
}

#[test]
fn create_client_calls_the_constructor_of_the_configured_backend() {
    let backends = all();
    assert_eq!(
        AttestationService::new(as_config()).create_client(&backends),
        Ok(Echo { made_by: "builtin", made_from: "default.rego".to_string() })
    );
    assert_eq!(
        AttestationService::new(grpc_config()).create_client(&backends),
        Ok(Echo { made_by: "grpc", made_from: "http://127.0.0.1:50004".to_string() })
    );
    assert_eq!(
        AttestationService::new(intel_ta_config()).create_client(&backends),
        Ok(Echo { made_by: "intel_ta", made_from: "https://portal.example#k-123".to_string() })
    );
}

#[test]
fn create_client_marks_a_failed_construction() {
    let backends = all();
    let unreachable =
        AttestationService::new(GrpcConfig { as_addr: "http://127.0.0.1:1".to_string() });
    assert_eq!(
        unreachable.create_client(&backends),
        Err(Error::Initialization("connection refused: http://127.0.0.1:1".to_string()))
    );
    let keyless = AttestationService::new(IntelTrustAuthorityConfig {
        base_url: "https://portal.example".to_string(),
        api_key: String::new(),
    });
    assert_eq!(
        keyless.create_client(&backends),
        Err(Error::Initialization("no api key".to_string()))
    );
}

#[test]
fn initialized_keeps_an_instance_and_marks_a_failure() {
    assert_eq!(initialized::<u8>(Ok(7)), Ok(7));
    assert_eq!(
        initialized::<u8>(Err("disk full".to_string())),
        Err(Error::Initialization("disk full".to_string()))
    );
    assert_eq!(initialized::<u8>(Err(String::new())), Err(Error::Initialization(String::new())));
}

#[test]
fn verify_hands_the_request_on_unchanged() {
    let backends = all();
    let broker = AttestationService::new(grpc_config());
    assert_eq!(
        broker.verify(&backends, Tee::Tdx, "n-0 n", " e\n", ""),
        Ok("grpc|http://127.0.0.1:50004|Tdx|n-0 n| e\n|".to_string())
    );
    let broker = AttestationService::new(as_config());
    assert_eq!(
        broker.verify(&backends, Tee::Snp, "", "", "req-9"),
        Ok("builtin|default.rego|Snp|||req-9".to_string())
    );
    let broker = AttestationService::new(intel_ta_config());
    assert_eq!(
        broker.verify(&backends, Tee::Sgx, "nonce", "quote", "id"),
        Ok("intel_ta|https://portal.example#k-123|Sgx|nonce|quote|id".to_string())
    );
}

#[test]
fn unreachable_backend_fails_both_operations_at_initialization() {
    let backends = all();
    let broker = AttestationService::new(GrpcConfig { as_addr: "http://127.0.0.1:1".to_string() });
    let failure = Error::Initialization("connection refused: http://127.0.0.1:1".to_string());
    assert_eq!(
        broker.verify(&backends, Tee::Sample, "nonce-1", "valid-evidence", "req-1"),
        Err(failure.clone())
    );
    assert_eq!(broker.set_policy(&backends, b"new-policy"), Err(failure.clone()));
    assert_eq!(failure.message(), "attestation service client initialization failed.");
}

#[test]
fn verify_twice_with_the_same_request_ends_the_same() {
    let backends = all();
    for broker in [
        AttestationService::new(grpc_config()),
        AttestationService::new(GrpcConfig { as_addr: "http://127.0.0.1:1".to_string() }),
    ] {
        let first = broker.verify(&backends, Tee::Sample, "nonce-1", "valid-evidence", "req-1");
        let second = broker.verify(&backends, Tee::Sample, "nonce-1", "valid-evidence", "req-1");
        assert_eq!(first.is_ok(), second.is_ok());
        assert_eq!(first, second);
    }
}

/// A backend that counts how often it is made and asked, manages its policy, and rejects
/// every second piece of evidence.
struct Counting {
    asked: Arc<AtomicUsize>,
}

impl Attest for Counting {
    fn set_policy(&mut self, input: &[u8]) -> Result<(), Error> {
        self.asked.fetch_add(1, Ordering::SeqCst);
        if input.is_empty() {
            Err(Error::Policy("empty policy".to_string()))
        } else {
            Ok(())
        }
    }

    fn verify(
        &mut self,
        _tee: Tee,
        _nonce: &str,
        attestation: &str,
        _request_id: &str,
    ) -> Result<String, Error> {
        self.asked.fetch_add(1, Ordering::SeqCst);
        if attestation == "valid-evidence" {
            Ok("token".to_string())
        } else {
            Err(Error::Verification("rejected".to_string()))
        }
    }
}

#[test]
fn every_request_gets_one_fresh_instance_and_asks_it_once() {
    let made = Arc::new(AtomicUsize::new(0));
    let asked = Arc::new(AtomicUsize::new(0));
    let make = |_config: &GrpcConfig| -> Result<Counting, String> {
        made.fetch_add(1, Ordering::SeqCst);
        Ok(Counting { asked: asked.clone() })
    };
    let backends = Backends {
        builtin: |_config: &AsConfig| -> Result<Counting, String> { Err("absent".to_string()) },
        grpc: make,
        intel_ta: |_config: &IntelTrustAuthorityConfig| -> Result<Counting, String> {
            Err("absent".to_string())
        },
    };
    let broker = AttestationService::new(grpc_config());

    assert_eq!(
        broker.verify(&backends, Tee::Sample, "n", "valid-evidence", "r"),
        Ok("token".to_string())
    );
    assert_eq!((made.load(Ordering::SeqCst), asked.load(Ordering::SeqCst)), (1, 1));

    assert_eq!(
        broker.verify(&backends, Tee::Sample, "n", "corrupt-evidence", "r"),
        Err(Error::Verification("rejected".to_string()))
    );
    assert_eq!((made.load(Ordering::SeqCst), asked.load(Ordering::SeqCst)), (2, 2));

    assert_eq!(broker.set_policy(&backends, b"new-policy"), Ok(()));
    assert_eq!((made.load(Ordering::SeqCst), asked.load(Ordering::SeqCst)), (3, 3));

    assert_eq!(
        broker.set_policy(&backends, b""),
        Err(Error::Policy("empty policy".to_string()))
    );
    assert_eq!((made.load(Ordering::SeqCst), asked.load(Ordering::SeqCst)), (4, 4));
}

#[test]
fn a_failed_construction_asks_no_instance_and_is_not_tried_again() {
    let tried = Arc::new(AtomicUsize::new(0));
    let asked = Arc::new(AtomicUsize::new(0));
    let backends = Backends {
        builtin: |_config: &AsConfig| -> Result<Counting, String> {
            tried.fetch_add(1, Ordering::SeqCst);
            Err("state directory is missing".to_string())
        },
        grpc: |_config: &GrpcConfig| -> Result<Counting, String> {
            Ok(Counting { asked: asked.clone() })
        },
        intel_ta: |_config: &IntelTrustAuthorityConfig| -> Result<Counting, String> {
            Ok(Counting { asked: asked.clone() })
        },
    };
    let broker = AttestationService::new(as_config());
    assert_eq!(
        broker.verify(&backends, Tee::Sample, "n", "valid-evidence", "r"),
        Err(Error::Initialization("state directory is missing".to_string()))
    );
    assert_eq!(tried.load(Ordering::SeqCst), 1);
    assert_eq!(
        broker.set_policy(&backends, b"p"),
        Err(Error::Initialization("state directory is missing".to_string()))
    );
    assert_eq!(tried.load(Ordering::SeqCst), 2);
    assert_eq!(asked.load(Ordering::SeqCst), 0);
}

#[test]
fn a_failed_request_leaves_the_broker_fit_for_the_next() {
    let attempts = Arc::new(AtomicUsize::new(0));
    let asked = Arc::new(AtomicUsize::new(0));
    let backends = Backends {
        builtin: |_config: &AsConfig| -> Result<Counting, String> { Err("absent".to_string()) },
        grpc: |_config: &GrpcConfig| -> Result<Counting, String> {
            if attempts.fetch_add(1, Ordering::SeqCst) == 0 {
                Err("endpoint is closed".to_string())
            } else {
                Ok(Counting { asked: asked.clone() })
            }
        },
        intel_ta: |_config: &IntelTrustAuthorityConfig| -> Result<Counting, String> {
            Err("absent".to_string())
        },
    };
    let broker = AttestationService::new(grpc_config());
    let before = broker.clone();
    assert_eq!(
        broker.verify(&backends, Tee::Sample, "n", "valid-evidence", "r"),
        Err(Error::Initialization("endpoint is closed".to_string()))
    );
    assert_eq!(broker, before);
    assert_eq!(
        broker.verify(&backends, Tee::Sample, "n", "corrupt-evidence", "r"),
        Err(Error::Verification("rejected".to_string()))
    );
    assert_eq!(broker, before);
    assert_eq!(
        broker.verify(&backends, Tee::Sample, "n", "valid-evidence", "r"),
        Ok("token".to_string())
    );
    assert_eq!(broker, before);
}
