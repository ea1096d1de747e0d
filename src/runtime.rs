//! The runtime of Rust services: it deploys artifacts, binds deployed
//! artifacts to running service instances and dispatches calls to them.

use vstd::prelude::*;
use vstd::string::StringExecFns;
use crate::keyed::{
    has_key, lemma_push, lemma_remove, lemma_to_map_at, lemma_update, to_map, unique_keys,
};

verus! {

/// Address of a running service instance.
pub type ServiceInstanceId = u32;

/// Identifier of a method of a service.
pub type MethodId = u32;

/// Code of the error that wraps a failure of a service's method.
pub const DISPATCH_ERROR: u8 = 255;

/// Code of the error returned for a call to an instance id that nothing is bound to.
pub const UNKNOWN_INSTANCE: u8 = 254;

/// A transaction hash, treated as an opaque fixed-size value.
#[derive(Debug, Clone, Copy, PartialEq, Eq)]
pub struct TxHash {
    pub bytes: [u8; 32],
}

/// A public key, treated as an opaque fixed-size value.
#[derive(Debug, Clone, Copy, PartialEq, Eq)]
pub struct PublicKey {
    pub bytes: [u8; 32],
}

/// A semantic version, held as its parts.
#[derive(Debug, Clone, PartialEq, Eq, Hash)]
pub struct ArtifactVersion {
    pub major: u64,
    pub minor: u64,
    pub patch: u64,
    /// Pre-release identifiers, as written after the `-`; empty where there are none.
    pub pre: String,
    /// Build metadata, as written after the `+`; empty where there is none.
    pub build: String,
}

/// What identifies a version: its three numbers, pre-release and build text.
pub type VersionKey = (u64, u64, u64, Seq<char>, Seq<char>);

/// What identifies an artifact: its name and version.
pub type ArtifactKey = (Seq<char>, VersionKey);

impl View for ArtifactVersion {
    type V = VersionKey;

    open spec fn view(&self) -> VersionKey {
        (self.major, self.minor, self.patch, self.pre@, self.build@)
    }
}

impl ArtifactVersion {
    /// A release version `major.minor.patch`, with no pre-release or build part.
    pub fn new(major: u64, minor: u64, patch: u64) -> (r: Self)
        ensures
            r@ == (major, minor, patch, Seq::<char>::empty(), Seq::<char>::empty()),
    {
        ArtifactVersion {
            major,
            minor,
            patch,
            pre: String::new(),
            build: String::new(),
        }
    }

    /// Whether the two versions are the same.
    pub fn same_as(&self, other: &ArtifactVersion) -> (r: bool)
        ensures
            r == (self@ == other@),
    {
        self.major == other.major && self.minor == other.minor && self.patch == other.patch
            && self.pre == other.pre && self.build == other.build
    }
}

/// Identity of an artifact of the Rust runtime.
#[derive(Debug, Clone, PartialEq, Eq, Hash)]
pub struct RustArtifactSpec {
    pub name: String,
    pub version: ArtifactVersion,
}

impl View for RustArtifactSpec {
    type V = ArtifactKey;

    open spec fn view(&self) -> ArtifactKey {
        (self.name@, self.version@)
    }
}

impl RustArtifactSpec {
    /// Whether the two specifications name the same artifact.
    pub fn same_as(&self, other: &RustArtifactSpec) -> (r: bool)
        ensures
            r == (self@ == other@),
    {
        self.name == other.name && self.version.same_as(&other.version)
    }
}

/// An artifact, tagged with the kind of runtime it is for.
#[derive(Debug, Clone, PartialEq, Eq)]
pub enum ArtifactSpec {
    /// An artifact of this runtime.
    Rust(RustArtifactSpec),
    /// An artifact of another runtime, by that runtime's id and the artifact's name.
    Other { runtime_id: u32, name: String },
}

/// Outcome of a deployment poll.
#[derive(Debug, Clone, Copy, PartialEq, Eq, Structural)]
pub enum DeployStatus {
    Deployed,
}

/// Why a deployment request or poll failed.
#[derive(Debug, Clone, Copy, PartialEq, Eq, Structural)]
pub enum DeployError {
    /// The artifact is of another runtime.
    WrongArtifact,
    /// No service is registered for the artifact, or it is not deployed yet.
    FailedToDeploy,
    /// The artifact was deployed before.
    AlreadyDeployed,
}

/// A failure raised while a service runs, with a code and a readable cause.
#[derive(Debug, Clone, PartialEq, Eq)]
pub struct ExecutionError {
    pub code: u8,
    pub description: String,
}

impl ExecutionError {
    /// An error with the given code and description.
    pub fn with_description(code: u8, description: String) -> (r: Self)
        ensures
            r.code == code,
            r.description@ == description@,
    {
        ExecutionError { code, description }
    }
}

/// Why the initialization of a service instance failed.
#[derive(Debug, Clone, PartialEq, Eq)]
pub enum InitError {
    /// The artifact is of another runtime.
    WrongArtifact,
    /// The artifact has not been deployed.
    NotDeployed,
    /// The instance id is already bound to a running instance.
    ServiceIdExists,
    /// The service of the artifact was taken by an earlier initialization.
    ServiceTaken,
    /// The service's own initializer failed.
    ExecutionError(ExecutionError),
}

/// Target of a call: a running instance and one of its methods.
#[derive(Debug, Clone, Copy, PartialEq, Eq, Structural)]
pub struct CallInfo {
    pub instance_id: ServiceInstanceId,
    pub method_id: MethodId,
}

/// What a new service instance is created with.
#[derive(Debug, Clone, PartialEq, Eq)]
pub struct InstanceInitData {
    pub instance_id: ServiceInstanceId,
    pub constructor_data: Vec<u8>,
}

/// Data of one transaction, owned by the caller of the runtime: the storage
/// view the transaction works on, its hash and its author.
pub struct RuntimeContext<F> {
    /// The storage view; every call of the transaction works on this one.
    pub fork: F,
    /// Hash of the transaction.
    pub tx_hash: TxHash,
    /// Public key of the transaction's author.
    pub author: PublicKey,
}

/// Scoped handle that a service receives for one call: the transaction's
/// storage view, borrowed for the call, copies of its hash and author, and
/// the runtime, for calls into other services.
pub struct TransactionContext<'a, F, S> {
    /// The storage view of the transaction; every nested call works on it.
    pub fork: &'a mut F,
    /// Hash of the transaction.
    pub tx_hash: TxHash,
    /// Public key of the transaction's author.
    pub author: PublicKey,
    /// The runtime that made the call.
    pub runtime: &'a RustRuntime<S>,
}

impl<'a, F, S> TransactionContext<'a, F, S> {
    /// A context for one call into a service, on the storage view `fork`.
    fn new(fork: &'a mut F, tx_hash: TxHash, author: PublicKey, runtime: &'a RustRuntime<S>) -> (r:
        Self)
        requires
            runtime.wf(),
        ensures
            r.wf(),
            r.runtime() == runtime@,
            *r.fork == *old(fork),
            *final(r.fork) == *final(fork),
            r.tx_hash == tx_hash,
            r.author == author,
    {
        TransactionContext { fork, tx_hash, author, runtime }
    }

    /// The runtime the context calls into is well formed.
    pub open spec fn wf(&self) -> bool {
        self.runtime.wf()
    }

    /// The state of the runtime the context calls into.
    pub open spec fn runtime(&self) -> RuntimeModel<S> {
        self.runtime@
    }

    /// The transaction's data, as the context holds it now.
    pub open spec fn env(&self) -> RuntimeContext<F> {
        RuntimeContext { fork: *self.fork, tx_hash: self.tx_hash, author: self.author }
    }

    /// The storage view of the transaction.
    pub fn fork(&mut self) -> (r: &mut F)
        ensures
            *r == *old(self).fork,
            *final(self).fork == *final(r),
            final(self).tx_hash == old(self).tx_hash,
            final(self).author == old(self).author,
            final(self).runtime() == old(self).runtime(),
            final(self).wf() == old(self).wf(),
    {
        &mut *self.fork
    }

    /// The hash of the transaction.
    pub fn tx_hash(&self) -> (r: TxHash)
        ensures
            r == self.tx_hash,
    {
        self.tx_hash
    }

    /// The public key of the transaction's author.
    pub fn author(&self) -> (r: PublicKey)
        ensures
            r == self.author,
    {
        self.author
    }

    /// Calls a method of another service instance within the same
    /// transaction: the callee gets this context's storage view, hash and
    /// author, and its writes are seen here when it returns.
    pub fn dispatch_call(&mut self, dispatch: CallInfo, payload: &[u8]) -> (r: Result<
        (),
        ExecutionError,
    >) where S: Service<F>
        requires
            old(self).wf(),
        ensures
            final(self).wf(),
            final(self).runtime() == old(self).runtime(),
            final(self).tx_hash == old(self).tx_hash,
            final(self).author == old(self).author,
            execute_outcome(old(self).runtime(), dispatch, r),
            !old(self).runtime().instances.contains_key(dispatch.instance_id) ==> final(self).env()
                == old(self).env(),
            old(self).runtime().instances.contains_key(dispatch.instance_id) ==> exists|
                res: Result<(), ExecutionError>,
            |
                old(self).runtime().instances[dispatch.instance_id].call_result(
                    dispatch.method_id,
                    old(self).env(),
                    payload@,
                    res,
                    *final(self).fork,
                ) && dispatch_wrapped(res, r),
    {
        self.runtime.execute_on(&mut *self.fork, self.tx_hash, self.author, dispatch, payload)
    }
}

/// A service: business logic that can be deployed and run.
pub trait Service<F>: Sized {
    /// `r` and `fork_after` may be what the initializer returns and leaves
    /// in the storage view, when it runs on the transaction data `env` with
    /// the constructor data `arg`. A service that does not say more admits
    /// every outcome.
    open spec fn init_result(
        &self,
        env: RuntimeContext<F>,
        arg: Seq<u8>,
        r: Result<(), ExecutionError>,
        fork_after: F,
    ) -> bool {
        true
    }

    /// `r` and `fork_after` may be what the method `method_id` returns and
    /// leaves in the storage view, when it runs on the transaction data `env`
    /// with `payload`. A service that does not say more admits every outcome.
    open spec fn call_result(
        &self,
        method_id: MethodId,
        env: RuntimeContext<F>,
        payload: Seq<u8>,
        r: Result<(), ExecutionError>,
        fork_after: F,
    ) -> bool {
        true
    }

    /// Sets up a new instance of the service.
    fn initialize(&self, ctx: TransactionContext<'_, F, Self>, arg: Vec<u8>) -> (r: Result<
        (),
        ExecutionError,
    >)
        requires
            ctx.wf(),
        ensures
            self.init_result(ctx.env(), arg@, r, *final(ctx.fork)),
    ;

    /// Runs the method `method_id` of the service on `payload`.
    fn call(&self, method_id: MethodId, ctx: TransactionContext<'_, F, Self>, payload: &[u8]) -> (r:
        Result<(), ExecutionError>)
        requires
            ctx.wf(),
        ensures
            self.call_result(method_id, ctx.env(), payload@, r, *final(ctx.fork)),
    ;
}

/// The registries of the Rust runtime.
///
/// Every operation that changes a registry takes `&mut self`, so there is one
/// writer at a time; an embedding node that runs several workers shares the
/// runtime behind a lock.
pub struct RustRuntime<S> {
    /// Services registered and not yet taken by an instance, by artifact.
    services: Vec<(RustArtifactSpec, S)>,
    /// Artifacts that have been deployed.
    deployed: Vec<RustArtifactSpec>,
    /// Running instances, by instance id.
    initialized: Vec<(ServiceInstanceId, S)>,
}

/// What the runtime holds, as mathematical values.
pub struct RuntimeModel<S> {
    /// Services registered and not yet taken by an instance.
    pub pending: Map<ArtifactKey, S>,
    /// Artifacts that have been deployed.
    pub deployed: Set<ArtifactKey>,
    /// Running instances.
    pub instances: Map<ServiceInstanceId, S>,
}

impl<S> RuntimeModel<S> {
    /// A service was registered for the artifact `a`: it still waits in the
    /// pool, or the artifact was deployed, which needs a registered service.
    pub open spec fn registered(self, a: ArtifactKey) -> bool {
        self.pending.contains_key(a) || self.deployed.contains(a)
    }
}

/// The key of an artifact of this runtime.
pub open spec fn rust_key(artifact: ArtifactSpec) -> ArtifactKey {
    match artifact {
        ArtifactSpec::Rust(a) => a@,
        ArtifactSpec::Other { .. } => arbitrary(),
    }
}

/// What `start_deploy` returns on the state `m`.
pub open spec fn deploy_outcome<S>(m: RuntimeModel<S>, artifact: ArtifactSpec) -> Result<
    (),
    DeployError,
> {
    match artifact {
        ArtifactSpec::Rust(a) => if m.deployed.contains(a@) {
            Result::Err(DeployError::AlreadyDeployed)
        } else if !m.pending.contains_key(a@) {
            Result::Err(DeployError::FailedToDeploy)
        } else {
            Result::Ok(())
        },
        ArtifactSpec::Other { .. } => Result::Err(DeployError::WrongArtifact),
    }
}

/// The state after `start_deploy` on the state `m`.
pub open spec fn deploy_next<S>(m: RuntimeModel<S>, artifact: ArtifactSpec) -> RuntimeModel<S> {
    if deploy_outcome(m, artifact) is Ok {
        RuntimeModel { deployed: m.deployed.insert(rust_key(artifact)), ..m }
    } else {
        m
    }
}

/// What `check_deploy_status` returns on the state `m`.
pub open spec fn status_outcome<S>(m: RuntimeModel<S>, artifact: ArtifactSpec) -> Result<
    DeployStatus,
    DeployError,
> {
    match artifact {
        ArtifactSpec::Rust(a) => if m.deployed.contains(a@) {
            Result::Ok(DeployStatus::Deployed)
        } else {
            Result::Err(DeployError::FailedToDeploy)
        },
        ArtifactSpec::Other { .. } => Result::Err(DeployError::WrongArtifact),
    }
}

/// The checks of `init_service` on the state `m`: the error it returns
/// without touching anything, or `Ok` where it binds a new instance.
pub open spec fn init_check<S>(
    m: RuntimeModel<S>,
    artifact: ArtifactSpec,
    id: ServiceInstanceId,
) -> Result<(), InitError> {
    match artifact {
        ArtifactSpec::Rust(a) => if !m.deployed.contains(a@) {
            Result::Err(InitError::NotDeployed)
        } else if m.instances.contains_key(id) {
            Result::Err(InitError::ServiceIdExists)
        } else if !m.pending.contains_key(a@) {
            Result::Err(InitError::ServiceTaken)
        } else {
            Result::Ok(())
        },
        ArtifactSpec::Other { .. } => Result::Err(InitError::WrongArtifact),
    }
}

/// The state after `init_service` on the state `m`: where the checks pass,
/// the artifact's service leaves the pool and is bound to `id`.
pub open spec fn init_next<S>(
    m: RuntimeModel<S>,
    artifact: ArtifactSpec,
    id: ServiceInstanceId,
) -> RuntimeModel<S> {
    if init_check(m, artifact, id) is Ok {
        let a = rust_key(artifact);
        RuntimeModel {
            pending: m.pending.remove(a),
            instances: m.instances.insert(id, m.pending[a]),
            ..m
        }
    } else {
        m
    }
}

/// What `init_service` returns once the service's initializer returned `res`.
pub open spec fn init_wrapped(res: Result<(), ExecutionError>) -> Result<(), InitError> {
    match res {
        Result::Ok(()) => Result::Ok(()),
        Result::Err(e) => Result::Err(InitError::ExecutionError(e)),
    }
}

/// The prefix of the description of a wrapped dispatch failure.
pub open spec fn dispatch_prefix() -> Seq<char> {
    "Dispatch error: "@
}

/// `r` is what a call returns once the service's method returned `res`: a
/// success as it is, a failure wrapped with the dispatch code and its cause.
pub open spec fn dispatch_wrapped(res: Result<(), ExecutionError>, r: Result<(), ExecutionError>) -> bool {
    match res {
        Result::Ok(()) => r is Ok,
        Result::Err(e) => r is Err && r->Err_0.code == DISPATCH_ERROR
            && r->Err_0.description@ == dispatch_prefix() + e.description@,
    }
}

/// `r` may be what a call of `dispatch` returns on the state `m`: a call to an
/// unbound instance fails with `UNKNOWN_INSTANCE`; a call to a bound one
/// returns what its method returned, wrapped.
pub open spec fn execute_outcome<S>(
    m: RuntimeModel<S>,
    dispatch: CallInfo,
    r: Result<(), ExecutionError>,
) -> bool {
    if m.instances.contains_key(dispatch.instance_id) {
        exists|res: Result<(), ExecutionError>| dispatch_wrapped(res, r)
    } else {
        r is Err && r->Err_0.code == UNKNOWN_INSTANCE
    }
}

/// Wraps what a service's initializer returned as the result of `init_service`.
pub fn wrap_init_result(res: Result<(), ExecutionError>) -> (r: Result<(), InitError>)
    ensures
        r == init_wrapped(res),
{
    match res {
        Result::Ok(()) => Result::Ok(()),
        Result::Err(e) => Result::Err(InitError::ExecutionError(e)),
    }
}

/// Wraps what a service's method returned as the result of a call.
pub fn wrap_dispatch_result(res: Result<(), ExecutionError>) -> (r: Result<(), ExecutionError>)
    ensures
        dispatch_wrapped(res, r),
{
    match res {
        Result::Ok(()) => Result::Ok(()),
        Result::Err(e) => {
            let description = String::from_str("Dispatch error: ").concat(e.description.as_str());
            Result::Err(ExecutionError::with_description(DISPATCH_ERROR, description))
        },
    }
}

impl<S> View for RustRuntime<S> {
    type V = RuntimeModel<S>;

    closed spec fn view(&self) -> RuntimeModel<S> {
        RuntimeModel {
            pending: to_map(self.service_entries()),
            deployed: Set::new(
                |k: ArtifactKey|
                    exists|i: int| 0 <= i < self.deployed@.len() && #[trigger] self.deployed@[i]@ == k,
            ),
            instances: to_map(self.initialized@),
        }
    }
}

impl<S> RustRuntime<S> {
    /// The pool of services, keyed by what identifies their artifacts.
    closed spec fn service_entries(&self) -> Seq<(ArtifactKey, S)> {
        self.services@.map_values(|p: (RustArtifactSpec, S)| (p.0@, p.1))
    }

    /// The registries are well formed: no artifact waits in the pool twice,
    /// no instance id is bound twice.
    pub closed spec fn wf(&self) -> bool {
        unique_keys(self.service_entries()) && unique_keys(self.initialized@)
    }

    /// An empty runtime.
    pub fn new() -> (r: Self)
        ensures
            r.wf(),
            r@.pending == Map::<ArtifactKey, S>::empty(),
            r@.deployed == Set::<ArtifactKey>::empty(),
            r@.instances == Map::<ServiceInstanceId, S>::empty(),
    {
        let r = RustRuntime { services: Vec::new(), deployed: Vec::new(), initialized: Vec::new() };
        assert(r@.pending =~= Map::<ArtifactKey, S>::empty());
        assert(r@.deployed =~= Set::<ArtifactKey>::empty());
        assert(r@.instances =~= Map::<ServiceInstanceId, S>::empty());
        r
    }

    /// Position of the artifact in the pool of services.
    fn find_service(&self, artifact: &RustArtifactSpec) -> (r: Option<usize>)
        ensures
            match r {
                Option::Some(i) => i < self.services@.len() && self.services@[i as int].0@ == artifact@,
                Option::None => !has_key(self.service_entries(), artifact@),
            },
    {
        let mut i: usize = 0;
        while i < self.services.len()
            invariant
                i <= self.services@.len(),
                forall|j: int| 0 <= j < i ==> (#[trigger] self.services@[j]).0@ != artifact@,
            decreases self.services@.len() - i,
        {
            if self.services[i].0.same_as(artifact) {
                return Option::Some(i);
            }
            i += 1;
        }
        assert forall|j: int| 0 <= j < self.service_entries().len() implies #[trigger] self.service_entries()[j].0
            != artifact@ by {
            assert(self.services@[j].0@ != artifact@);
        }
        Option::None
    }

    /// Position of the instance id among the running instances.
    fn find_instance(&self, id: ServiceInstanceId) -> (r: Option<usize>)
        ensures
            match r {
                Option::Some(i) => i < self.initialized@.len() && self.initialized@[i as int].0 == id,
                Option::None => !has_key(self.initialized@, id),
            },
    {
        let mut i: usize = 0;
        while i < self.initialized.len()
            invariant
                i <= self.initialized@.len(),
                forall|j: int| 0 <= j < i ==> (#[trigger] self.initialized@[j]).0 != id,
            decreases self.initialized@.len() - i,
        {
            if self.initialized[i].0 == id {
                return Option::Some(i);
            }
            i += 1;
        }
        Option::None
    }

    /// Registers `service` for `artifact`, replacing a service registered for
    /// it before.
    pub fn add_service(&mut self, artifact: RustArtifactSpec, service: S)
        requires
            old(self).wf(),
        ensures
            final(self).wf(),
            final(self)@ == (RuntimeModel {
                pending: old(self)@.pending.insert(artifact@, service),
                ..old(self)@
            }),
    {
        let ghost entries = self.service_entries();
        let ghost key = artifact@;
        match self.find_service(&artifact) {
            Option::Some(i) => {
                proof {
                    lemma_update(entries, i as int, service);
                }
                self.services.set(i, (artifact, service));
                assert(self.service_entries() =~= entries.update(i as int, (key, service)));
            },
            Option::None => {
                proof {
                    lemma_push(entries, key, service);
                }
                self.services.push((artifact, service));
                assert(self.service_entries() =~= entries.push((key, service)));
            },
        }
    }

    /// Deploys the artifact: it must be of this runtime, have a registered
    /// service and not have been deployed before.
    pub fn start_deploy(&mut self, artifact: ArtifactSpec) -> (r: Result<(), DeployError>)
        requires
            old(self).wf(),
        ensures
            final(self).wf(),
            r == deploy_outcome(old(self)@, artifact),
            final(self)@ == deploy_next(old(self)@, artifact),
    {
        let a = match artifact {
            ArtifactSpec::Rust(a) => a,
            ArtifactSpec::Other { .. } => {
                return Result::Err(DeployError::WrongArtifact);
            },
        };
        if self.is_deployed(&a) {
            return Result::Err(DeployError::AlreadyDeployed);
        }
        let ghost key = a@;
        match self.find_service(&a) {
            Option::None => {
                return Result::Err(DeployError::FailedToDeploy);
            },
            Option::Some(i) => {
                assert(self.service_entries()[i as int].0 == key);
                assert(has_key(self.service_entries(), key));
            },
        }
        let ghost before = self@;
        self.deployed.push(a);
        assert forall|k: ArtifactKey| #[trigger] self@.deployed.contains(k) == before.deployed.insert(
            key,
        ).contains(k) by {
            if before.deployed.contains(k) {
                let i = choose|i: int|
                    0 <= i < old(self).deployed@.len() && #[trigger] old(self).deployed@[i]@ == k;
                assert(self.deployed@[i] == old(self).deployed@[i]);
            }
            if k == key {
                assert(self.deployed@[old(self).deployed@.len() as int]@ == key);
            }
            if self@.deployed.contains(k) {
                let i = choose|i: int|
                    0 <= i < self.deployed@.len() && #[trigger] self.deployed@[i]@ == k;
                if i < old(self).deployed@.len() {
                    assert(self.deployed@[i] == old(self).deployed@[i]);
                }
            }
        }
        assert(self@.deployed =~= before.deployed.insert(key));
        Result::Ok(())
    }

    /// Reports whether the artifact has been deployed.
    pub fn check_deploy_status(&self, artifact: ArtifactSpec) -> (r: Result<DeployStatus, DeployError>)
        ensures
            r == status_outcome(self@, artifact),
    {
        let a = match artifact {
            ArtifactSpec::Rust(a) => a,
            ArtifactSpec::Other { .. } => {
                return Result::Err(DeployError::WrongArtifact);
            },
        };
        if self.is_deployed(&a) {
            Result::Ok(DeployStatus::Deployed)
        } else {
            Result::Err(DeployError::FailedToDeploy)
        }
    }

    /// Creates the service instance `init.instance_id` of a deployed artifact:
    /// the artifact's service leaves the pool, is bound to the id, and then
    /// runs its initializer on `init.constructor_data`. The instance stays
    /// bound where the initializer fails.
    pub fn init_service<F>(
        &mut self,
        context: &mut RuntimeContext<F>,
        artifact: ArtifactSpec,
        init: &InstanceInitData,
    ) -> (r: Result<(), InitError>) where S: Service<F>
        requires
            old(self).wf(),
        ensures
            final(self).wf(),
            final(self)@ == init_next(old(self)@, artifact, init.instance_id),
            final(context).tx_hash == old(context).tx_hash,
            final(context).author == old(context).author,
            init_check(old(self)@, artifact, init.instance_id) is Err ==> r == init_check(
                old(self)@,
                artifact,
                init.instance_id,
            ) && *final(context) == *old(context),
            init_check(old(self)@, artifact, init.instance_id) is Ok ==> exists|
                res: Result<(), ExecutionError>,
            |
                old(self)@.pending[rust_key(artifact)].init_result(
                    *old(context),
                    init.constructor_data@,
                    res,
                    final(context).fork,
                ) && r == init_wrapped(res),
    {
        let a = match artifact {
            ArtifactSpec::Rust(a) => a,
            ArtifactSpec::Other { .. } => {
                return Result::Err(InitError::WrongArtifact);
            },
        };
        if !self.is_deployed(&a) {
            return Result::Err(InitError::NotDeployed);
        }
        let id = init.instance_id;
        if self.find_instance(id).is_some() {
            return Result::Err(InitError::ServiceIdExists);
        }
        let idx = match self.find_service(&a) {
            Option::Some(i) => i,
            Option::None => {
                return Result::Err(InitError::ServiceTaken);
            },
        };
        let ghost before = self@;
        let ghost entries = self.service_entries();
        let ghost key = a@;
        proof {
            lemma_to_map_at(entries, idx as int);
            lemma_remove(entries, idx as int);
        }
        let (_, service) = self.services.remove(idx);
        assert(self.service_entries() =~= entries.remove(idx as int));
        proof {
            lemma_push(self.initialized@, id, service);
        }
        self.initialized.push((id, service));
        assert(self@.deployed =~= before.deployed);
        assert(self@ == init_next(before, artifact, id));
        let rt: &RustRuntime<S> = &*self;
        let last = rt.initialized.len() - 1;
        assert(rt.initialized@[last as int].1 == before.pending[key]);
        let arg = init.constructor_data.clone();
        assert(arg@ =~= init.constructor_data@);
        let ctx = TransactionContext::new(&mut context.fork, context.tx_hash, context.author, rt);
        let res = rt.initialized[last].1.initialize(ctx, arg);
        wrap_init_result(res)
    }

    /// Calls the method `dispatch.method_id` of the instance
    /// `dispatch.instance_id` on `payload`, within the transaction of `context`.
    pub fn execute<F>(
        &self,
        context: &mut RuntimeContext<F>,
        dispatch: CallInfo,
        payload: &[u8],
    ) -> (r: Result<(), ExecutionError>) where S: Service<F>
        requires
            self.wf(),
        ensures
            execute_outcome(self@, dispatch, r),
            final(context).tx_hash == old(context).tx_hash,
            final(context).author == old(context).author,
            !self@.instances.contains_key(dispatch.instance_id) ==> *final(context) == *old(
                context,
            ),
            self@.instances.contains_key(dispatch.instance_id) ==> exists|
                res: Result<(), ExecutionError>,
            |
                self@.instances[dispatch.instance_id].call_result(
                    dispatch.method_id,
                    *old(context),
                    payload@,
                    res,
                    final(context).fork,
                ) && dispatch_wrapped(res, r),
    {
        self.execute_on(&mut context.fork, context.tx_hash, context.author, dispatch, payload)
    }

    /// Calls a method of a bound instance on the storage view `fork`, for the
    /// transaction with hash `tx_hash` by `author`.
    fn execute_on<F>(
        &self,
        fork: &mut F,
        tx_hash: TxHash,
        author: PublicKey,
        dispatch: CallInfo,
        payload: &[u8],
    ) -> (r: Result<(), ExecutionError>) where S: Service<F>
        requires
            self.wf(),
        ensures
            execute_outcome(self@, dispatch, r),
            !self@.instances.contains_key(dispatch.instance_id) ==> *final(fork) == *old(fork),
            self@.instances.contains_key(dispatch.instance_id) ==> exists|
                res: Result<(), ExecutionError>,
            |
                self@.instances[dispatch.instance_id].call_result(
                    dispatch.method_id,
                    RuntimeContext { fork: *old(fork), tx_hash, author },
                    payload@,
                    res,
                    *final(fork),
                ) && dispatch_wrapped(res, r),
    {
        match self.find_instance(dispatch.instance_id) {
            Option::None => {
                let description = String::from_str("Unknown service instance");
                Result::Err(ExecutionError::with_description(UNKNOWN_INSTANCE, description))
            },
            Option::Some(i) => {
                proof {
                    lemma_to_map_at(self.initialized@, i as int);
                }
                let ctx = TransactionContext::new(fork, tx_hash, author, self);
                let res = self.initialized[i].1.call(dispatch.method_id, ctx, payload);
                let r = wrap_dispatch_result(res);
                assert(dispatch_wrapped(res, r));
                r
            },
        }
    }

    /// Whether the artifact has been deployed.
    fn is_deployed(&self, artifact: &RustArtifactSpec) -> (r: bool)
        ensures
            r == self@.deployed.contains(artifact@),
    {
        let mut i: usize = 0;
        while i < self.deployed.len()
            invariant
                i <= self.deployed@.len(),
                forall|j: int| 0 <= j < i ==> (#[trigger] self.deployed@[j])@ != artifact@,
            decreases self.deployed@.len() - i,
        {
            if self.deployed[i].same_as(artifact) {
                assert(self.deployed@[i as int]@ == artifact@);
                return true;
            }
            i += 1;
        }
        false
    }
}

/// Deploying an artifact that no service was registered for fails with
/// `FailedToDeploy` and changes nothing.
pub proof fn lemma_deploy_unregistered<S>(m: RuntimeModel<S>, a: RustArtifactSpec)
    requires
        !m.registered(a@),
    ensures
        deploy_outcome(m, ArtifactSpec::Rust(a)) == Result::<(), DeployError>::Err(
            DeployError::FailedToDeploy,
        ),
        deploy_next(m, ArtifactSpec::Rust(a)) == m,
{
}

/// The first deployment of an artifact with a registered service succeeds;
/// the next one fails with `AlreadyDeployed` and changes nothing.
pub proof fn lemma_deploy_once<S>(m: RuntimeModel<S>, a: RustArtifactSpec)
    requires
        m.registered(a@),
        !m.deployed.contains(a@),
    ensures
        deploy_outcome(m, ArtifactSpec::Rust(a)) is Ok,
        deploy_outcome(deploy_next(m, ArtifactSpec::Rust(a)), ArtifactSpec::Rust(a))
            == Result::<(), DeployError>::Err(DeployError::AlreadyDeployed),
        deploy_next(deploy_next(m, ArtifactSpec::Rust(a)), ArtifactSpec::Rust(a)) == deploy_next(
            m,
            ArtifactSpec::Rust(a),
        ),
{
}

/// A deployed artifact stays deployed through every operation of the
/// runtime; while it is, its status is `Deployed` and each new deployment
/// of it fails with `AlreadyDeployed`.
pub proof fn lemma_deployment_permanent<S>(
    m: RuntimeModel<S>,
    a: RustArtifactSpec,
    other: ArtifactSpec,
    id: ServiceInstanceId,
    key: ArtifactKey,
    service: S,
)
    requires
        m.deployed.contains(a@),
    ensures
        status_outcome(m, ArtifactSpec::Rust(a)) == Result::<DeployStatus, DeployError>::Ok(
            DeployStatus::Deployed,
        ),
        deploy_outcome(m, ArtifactSpec::Rust(a)) == Result::<(), DeployError>::Err(
            DeployError::AlreadyDeployed,
        ),
        deploy_next(m, other).deployed.contains(a@),
        init_next(m, other, id).deployed.contains(a@),
        (RuntimeModel { pending: m.pending.insert(key, service), ..m }).deployed.contains(a@),
{
}

/// The status of an artifact is `FailedToDeploy` until it is deployed, and
/// `Deployed` once its deployment succeeded.
pub proof fn lemma_status_follows_deploy<S>(m: RuntimeModel<S>, a: RustArtifactSpec)
    ensures
        !m.deployed.contains(a@) ==> status_outcome(m, ArtifactSpec::Rust(a)) == Result::<
            DeployStatus,
            DeployError,
        >::Err(DeployError::FailedToDeploy),
        deploy_outcome(m, ArtifactSpec::Rust(a)) is Ok ==> status_outcome(
            deploy_next(m, ArtifactSpec::Rust(a)),
            ArtifactSpec::Rust(a),
        ) == Result::<DeployStatus, DeployError>::Ok(DeployStatus::Deployed),
{
}

/// Initializing an instance of an artifact that is not deployed fails with
/// `NotDeployed` and changes nothing.
pub proof fn lemma_init_needs_deploy<S>(m: RuntimeModel<S>, a: RustArtifactSpec, id: ServiceInstanceId)
    requires
        !m.deployed.contains(a@),
    ensures
        init_check(m, ArtifactSpec::Rust(a), id) == Result::<(), InitError>::Err(
            InitError::NotDeployed,
        ),
        init_next(m, ArtifactSpec::Rust(a), id) == m,
{
}

/// Once an instance id is bound by initializing one deployed artifact, a
/// second initialization under that id, of another deployed artifact, fails
/// with `ServiceIdExists` and leaves the first instance as it was.
pub proof fn lemma_instance_id_taken<S>(
    m: RuntimeModel<S>,
    a1: RustArtifactSpec,
    a2: RustArtifactSpec,
    id: ServiceInstanceId,
)
    requires
        m.deployed.contains(a1@),
        m.deployed.contains(a2@),
        a1@ != a2@,
        m.pending.contains_key(a1@),
    ensures
        init_next(m, ArtifactSpec::Rust(a1), id).instances.contains_key(id),
        init_check(init_next(m, ArtifactSpec::Rust(a1), id), ArtifactSpec::Rust(a2), id)
            == Result::<(), InitError>::Err(InitError::ServiceIdExists),
        init_next(init_next(m, ArtifactSpec::Rust(a1), id), ArtifactSpec::Rust(a2), id)
            == init_next(m, ArtifactSpec::Rust(a1), id),
{
}

/// A call to an instance id that nothing is bound to fails.
pub proof fn lemma_unbound_call_fails<S>(
    m: RuntimeModel<S>,
    dispatch: CallInfo,
    r: Result<(), ExecutionError>,
)
    requires
        !m.instances.contains_key(dispatch.instance_id),
        execute_outcome(m, dispatch, r),
    ensures
        r is Err,
{
}

} // verus!
