use exonum_runtime::runtime::{
    wrap_dispatch_result, wrap_init_result, ArtifactSpec, ArtifactVersion, CallInfo, DeployError,
    DeployStatus, ExecutionError, TxHash, InitError, InstanceInitData, PublicKey, RuntimeContext,
    RustArtifactSpec, RustRuntime, Service, TransactionContext, DISPATCH_ERROR, UNKNOWN_INSTANCE,
};
use std::collections::BTreeMap;

type Storage = BTreeMap<String, String>;

#[derive(Debug, Clone, PartialEq)]
enum TestService {
    /// Records each call it gets; method 1 also calls instance 8's method 1.
    Ledger,
    /// Method 1 writes a key; any other method fails.
    Writer,
    /// Its initializer always fails.
    Broken,
}

impl Service<Storage> for TestService {
    fn initialize(
        &self,
        mut ctx: TransactionContext<'_, Storage, Self>,
        arg: Vec<u8>,
    ) -> Result<(), ExecutionError> {
        match self {
            TestService::Broken => Err(ExecutionError::with_description(3, "no".to_string())),
            _ => {
                let name = format!("{:?}-init", self);
                ctx.fork().insert(name, format!("{:?}", arg));
                Ok(())
            }
        }
    }

    fn call(
        &self,
        method_id: u32,
        mut ctx: TransactionContext<'_, Storage, Self>,
        payload: &[u8],
    ) -> Result<(), ExecutionError> {
        match self {
            TestService::Ledger => {
                ctx.fork()
                    .insert(format!("ledger-call-{}", method_id), format!("{:?}", payload));
                if method_id == 1 {
                    ctx.dispatch_call(
                        CallInfo {
                            instance_id: 8,
                            method_id: 1,
                        },
                        payload,
                    )?;
                    // The nested call's write is seen here without any commit.
                    if ctx.fork().get("written") != Some(&"yes".to_string()) {
                        return Err(ExecutionError::with_description(9, "lost".to_string()));
                    }
                }
                Ok(())
            }
            TestService::Writer => {
                if method_id == 1 {
                    ctx.fork().insert("written".to_string(), "yes".to_string());
                    Ok(())
                } else {
                    Err(ExecutionError::with_description(7, "boom".to_string()))
                }
            }
            TestService::Broken => Ok(()),
        }
    }
}

fn spec(name: &str, major: u64, minor: u64, patch: u64) -> RustArtifactSpec {
    RustArtifactSpec {
        name: name.to_string(),
        version: ArtifactVersion::new(major, minor, patch),
    }
}

fn context() -> RuntimeContext<Storage> {
    RuntimeContext {
        fork: Storage::new(),
        tx_hash: TxHash { bytes: [1; 32] },
        author: PublicKey { bytes: [2; 32] },
    }
}

fn init(id: u32, data: &[u8]) -> InstanceInitData {
    InstanceInitData {
        instance_id: id,
        constructor_data: data.to_vec(),
    }
}

#[test]
fn deploy_unregistered_artifact_fails() {
    let mut rt: RustRuntime<TestService> = RustRuntime::new();
    rt.add_service(spec("ledger", 1, 0, 0), TestService::Ledger);
    let r = rt.start_deploy(ArtifactSpec::Rust(spec("ledger", 2, 0, 0)));
    assert_eq!(r, Err(DeployError::FailedToDeploy));
    let r = rt.start_deploy(ArtifactSpec::Rust(spec("wallet", 1, 0, 0)));
    assert_eq!(r, Err(DeployError::FailedToDeploy));
}

#[test]
fn deploy_succeeds_once() {
    let mut rt: RustRuntime<TestService> = RustRuntime::new();
    rt.add_service(spec("ledger", 1, 0, 0), TestService::Ledger);
    let a = ArtifactSpec::Rust(spec("ledger", 1, 0, 0));
    assert_eq!(rt.start_deploy(a.clone()), Ok(()));
    assert_eq!(rt.start_deploy(a.clone()), Err(DeployError::AlreadyDeployed));
    assert_eq!(rt.start_deploy(a.clone()), Err(DeployError::AlreadyDeployed));
    let mut ctx = context();
    assert_eq!(rt.init_service(&mut ctx, a.clone(), &init(1, b"")), Ok(()));
    assert_eq!(rt.start_deploy(a), Err(DeployError::AlreadyDeployed));
}

#[test]
fn wrong_artifact_kind_is_refused() {
    let mut rt: RustRuntime<TestService> = RustRuntime::new();
    let other = ArtifactSpec::Other {
        runtime_id: 1,
        name: "ledger".to_string(),
    };
    assert_eq!(rt.start_deploy(other.clone()), Err(DeployError::WrongArtifact));
    assert_eq!(rt.check_deploy_status(other.clone()), Err(DeployError::WrongArtifact));
    let mut ctx = context();
    assert_eq!(
        rt.init_service(&mut ctx, other, &init(1, b"")),
        Err(InitError::WrongArtifact)
    );
}

#[test]
fn status_follows_deployment() {
    let mut rt: RustRuntime<TestService> = RustRuntime::new();
    rt.add_service(spec("ledger", 1, 0, 0), TestService::Ledger);
    let a = ArtifactSpec::Rust(spec("ledger", 1, 0, 0));
    assert_eq!(rt.check_deploy_status(a.clone()), Err(DeployError::FailedToDeploy));
    assert_eq!(rt.check_deploy_status(a.clone()), Err(DeployError::FailedToDeploy));
    rt.start_deploy(a.clone()).unwrap();
    assert_eq!(rt.check_deploy_status(a.clone()), Ok(DeployStatus::Deployed));
    let mut ctx = context();
    rt.init_service(&mut ctx, a.clone(), &init(4, b"")).unwrap();
    assert_eq!(rt.check_deploy_status(a), Ok(DeployStatus::Deployed));
}

#[test]
fn init_before_deploy_fails() {
    let mut rt: RustRuntime<TestService> = RustRuntime::new();
    rt.add_service(spec("ledger", 1, 0, 0), TestService::Ledger);
    let mut ctx = context();
    let a = ArtifactSpec::Rust(spec("ledger", 1, 0, 0));
    assert_eq!(
        rt.init_service(&mut ctx, a.clone(), &init(7, b"")),
        Err(InitError::NotDeployed)
    );
    let unknown = ArtifactSpec::Rust(spec("wallet", 1, 0, 0));
    assert_eq!(
        rt.init_service(&mut ctx, unknown, &init(7, b"")),
        Err(InitError::NotDeployed)
    );
}

#[test]
fn ledger_scenario() {
    let mut rt: RustRuntime<TestService> = RustRuntime::new();
    rt.add_service(spec("ledger", 1, 0, 0), TestService::Ledger);
    let a = ArtifactSpec::Rust(spec("ledger", 1, 0, 0));
    assert_eq!(rt.start_deploy(a.clone()), Ok(()));
    assert_eq!(rt.check_deploy_status(a.clone()), Ok(DeployStatus::Deployed));
    let mut ctx = context();
    assert_eq!(rt.init_service(&mut ctx, a, &init(7, b"")), Ok(()));
    assert_eq!(ctx.fork.get("Ledger-init"), Some(&"[]".to_string()));
    let call = CallInfo {
        instance_id: 7,
        method_id: 0,
    };
    assert_eq!(rt.execute(&mut ctx, call, b"pay"), Ok(()));
    assert_eq!(ctx.fork.get("ledger-call-0"), Some(&"[112, 97, 121]".to_string()));
}

#[test]
fn same_instance_id_twice_fails() {
    let mut rt: RustRuntime<TestService> = RustRuntime::new();
    rt.add_service(spec("ledger", 1, 0, 0), TestService::Ledger);
    rt.add_service(spec("writer", 1, 0, 0), TestService::Writer);
    let a1 = ArtifactSpec::Rust(spec("ledger", 1, 0, 0));
    let a2 = ArtifactSpec::Rust(spec("writer", 1, 0, 0));
    rt.start_deploy(a1.clone()).unwrap();
    rt.start_deploy(a2.clone()).unwrap();
    let mut ctx = context();
    assert_eq!(rt.init_service(&mut ctx, a1, &init(7, b"")), Ok(()));
    assert_eq!(
        rt.init_service(&mut ctx, a2.clone(), &init(7, b"")),
        Err(InitError::ServiceIdExists)
    );
    // Instance 7 is still the ledger: method 0 succeeds, where the writer would fail.
    let call = CallInfo {
        instance_id: 7,
        method_id: 0,
    };
    assert_eq!(rt.execute(&mut ctx, call, b""), Ok(()));
    // The writer's service was not taken and can still be bound elsewhere.
    assert_eq!(rt.init_service(&mut ctx, a2, &init(8, b"")), Ok(()));
}

#[test]
fn second_instance_of_one_artifact_is_refused() {
    let mut rt: RustRuntime<TestService> = RustRuntime::new();
    rt.add_service(spec("ledger", 1, 0, 0), TestService::Ledger);
    let a = ArtifactSpec::Rust(spec("ledger", 1, 0, 0));
    rt.start_deploy(a.clone()).unwrap();
    let mut ctx = context();
    assert_eq!(rt.init_service(&mut ctx, a.clone(), &init(1, b"")), Ok(()));
    assert_eq!(
        rt.init_service(&mut ctx, a, &init(2, b"")),
        Err(InitError::ServiceTaken)
    );
}

#[test]
fn failed_initializer_keeps_instance_bound() {
    let mut rt: RustRuntime<TestService> = RustRuntime::new();
    rt.add_service(spec("broken", 0, 1, 0), TestService::Broken);
    let a = ArtifactSpec::Rust(spec("broken", 0, 1, 0));
    rt.start_deploy(a.clone()).unwrap();
    let mut ctx = context();
    assert_eq!(
        rt.init_service(&mut ctx, a, &init(3, b"x")),
        Err(InitError::ExecutionError(ExecutionError::with_description(
            3,
            "no".to_string()
        )))
    );
    let call = CallInfo {
        instance_id: 3,
        method_id: 0,
    };
    assert_eq!(rt.execute(&mut ctx, call, b""), Ok(()));
}

#[test]
fn execute_unbound_instance_fails() {
    let rt: RustRuntime<TestService> = RustRuntime::new();
    let mut ctx = context();
    let call = CallInfo {
        instance_id: 42,
        method_id: 0,
    };
    let err = rt.execute(&mut ctx, call, b"").unwrap_err();
    assert_eq!(err.code, UNKNOWN_INSTANCE);
    assert!(ctx.fork.is_empty());
}

#[test]
fn failing_method_is_wrapped() {
    let mut rt: RustRuntime<TestService> = RustRuntime::new();
    rt.add_service(spec("writer", 1, 0, 0), TestService::Writer);
    let a = ArtifactSpec::Rust(spec("writer", 1, 0, 0));
    rt.start_deploy(a.clone()).unwrap();
    let mut ctx = context();
    rt.init_service(&mut ctx, a, &init(8, b"")).unwrap();
    let call = CallInfo {
        instance_id: 8,
        method_id: 5,
    };
    let err = rt.execute(&mut ctx, call, b"").unwrap_err();
    assert_eq!(err.code, DISPATCH_ERROR);
    assert_eq!(err.description, "Dispatch error: boom");
}

#[test]
fn nested_dispatch_shares_storage_view() {
    let mut rt: RustRuntime<TestService> = RustRuntime::new();
    rt.add_service(spec("ledger", 1, 0, 0), TestService::Ledger);
    rt.add_service(spec("writer", 1, 0, 0), TestService::Writer);
    let a1 = ArtifactSpec::Rust(spec("ledger", 1, 0, 0));
    let a2 = ArtifactSpec::Rust(spec("writer", 1, 0, 0));
    rt.start_deploy(a1.clone()).unwrap();
    rt.start_deploy(a2.clone()).unwrap();
    let mut ctx = context();
    rt.init_service(&mut ctx, a1, &init(7, b"")).unwrap();
    rt.init_service(&mut ctx, a2, &init(8, b"")).unwrap();
    let call = CallInfo {
        instance_id: 7,
        method_id: 1,
    };
    assert_eq!(rt.execute(&mut ctx, call, b""), Ok(()));
    assert_eq!(ctx.fork.get("written"), Some(&"yes".to_string()));
    assert_eq!(ctx.fork.get("ledger-call-1"), Some(&"[]".to_string()));
}

#[test]
fn nested_dispatch_to_unbound_instance_fails() {
    let mut rt: RustRuntime<TestService> = RustRuntime::new();
    rt.add_service(spec("ledger", 1, 0, 0), TestService::Ledger);
    let a1 = ArtifactSpec::Rust(spec("ledger", 1, 0, 0));
    rt.start_deploy(a1.clone()).unwrap();
    let mut ctx = context();
    rt.init_service(&mut ctx, a1, &init(7, b"")).unwrap();
    let call = CallInfo {
        instance_id: 7,
        method_id: 1,
    };
    let err = rt.execute(&mut ctx, call, b"").unwrap_err();
    assert_eq!(err.code, DISPATCH_ERROR);
    assert_eq!(err.description, "Dispatch error: Unknown service instance");
}

#[test]
fn add_service_replaces_registration() {
    let mut rt: RustRuntime<TestService> = RustRuntime::new();
    rt.add_service(spec("svc", 1, 0, 0), TestService::Ledger);
    rt.add_service(spec("svc", 1, 0, 0), TestService::Writer);
    let a = ArtifactSpec::Rust(spec("svc", 1, 0, 0));
    rt.start_deploy(a.clone()).unwrap();
    let mut ctx = context();
    rt.init_service(&mut ctx, a, &init(1, b"")).unwrap();
    assert_eq!(ctx.fork.get("Writer-init"), Some(&"[]".to_string()));
}

#[test]
fn versions_distinguish_artifacts() {
    let a = spec("ledger", 1, 0, 0);
    let mut b = spec("ledger", 1, 0, 0);
    assert!(a.same_as(&b));
    b.version.pre = "alpha".to_string();
    assert!(!a.same_as(&b));
    assert!(!a.version.same_as(&b.version));
}

struct Probe;
impl Service<Storage> for Probe {
    fn initialize(
        &self,
        mut ctx: TransactionContext<'_, Storage, Self>,
        _arg: Vec<u8>,
    ) -> Result<(), ExecutionError> {
        let hash = ctx.tx_hash();
        let author = ctx.author();
        ctx.fork()
            .insert("hash".to_string(), format!("{}", hash.bytes[0]));
        ctx.fork()
            .insert("author".to_string(), format!("{}", author.bytes[0]));
        Ok(())
    }
    fn call(
        &self,
        _method_id: u32,
        _ctx: TransactionContext<'_, Storage, Self>,
        _payload: &[u8],
    ) -> Result<(), ExecutionError> {
        Ok(())
    }
}

#[test]
fn context_exposes_transaction_data() {
    let mut rt: RustRuntime<Probe> = RustRuntime::new();
    rt.add_service(spec("probe", 1, 0, 0), Probe);
    let a = ArtifactSpec::Rust(spec("probe", 1, 0, 0));
    rt.start_deploy(a.clone()).unwrap();
    let mut ctx = context();
    rt.init_service(&mut ctx, a, &init(1, b"")).unwrap();
    assert_eq!(ctx.fork.get("hash"), Some(&"1".to_string()));
    assert_eq!(ctx.fork.get("author"), Some(&"2".to_string()));
}

#[test]
fn wrapping_results() {
    assert_eq!(wrap_init_result(Ok(())), Ok(()));
    let e = ExecutionError::with_description(4, "bad".to_string());
    assert_eq!(
        wrap_init_result(Err(e.clone())),
        Err(InitError::ExecutionError(e.clone()))
    );
    assert_eq!(wrap_dispatch_result(Ok(())), Ok(()));
    let w = wrap_dispatch_result(Err(e)).unwrap_err();
    assert_eq!(w.code, DISPATCH_ERROR);
    assert_eq!(w.description, "Dispatch error: bad");
}
