//! The decisions of cluster registration: which name, which states, which
//! steps in which order, and what is written into the cluster.
//!
//! Registration is not transactional: a failing step stops the workflow and
//! nothing done before it is undone. Re-running converges, because every
//! step can be repeated (namespaces are reused, the token secret and the
//! configmap are replaced, ownership is only claimed of unowned states).

use vstd::prelude::*;
use vstd::string::StringSliceAdditionalSpecFns;

use crate::k8s::Helm;
use crate::v0::{ClusterName, StateName};

verus! {

/// The type of the secret that holds a cluster's token.
pub const CLUSTER_TOKEN_SECRET_TYPE: &'static str = "statehub.io/cluster-token";

/// The name of the secret that holds a cluster's token.
pub const CLUSTER_TOKEN_SECRET_NAME: &'static str = "statehub-cluster-token";

/// The key of the token within that secret.
pub const CLUSTER_TOKEN_KEY: &'static str = "cluster-token";

/// The name of the configmap of a registered cluster.
pub const CLUSTER_CONFIGMAP_NAME: &'static str = "statehub";

/// How long the cluster's components wait before cleaning up.
pub const DEFAULT_CLEANUP_GRACE: &'static str = "600s";

/// The namespace that components are installed in unless told otherwise.
pub const DEFAULT_NAMESPACE: &'static str = "statehub-system";

/// Why a registration could not start.
pub enum RegisterError {
    /// No name was given and the Kubernetes configuration has no context.
    NoClusterName,
}

impl RegisterError {
    pub open spec fn spec_message(&self) -> Seq<char> {
        "No default Kubernetes context found, need to provide cluster name"@
    }

    pub fn message(&self) -> (r: String)
        ensures
            r@ == self.spec_message(),
    {
        String::from_str("No default Kubernetes context found, need to provide cluster name")
    }
}

/// The name given, else the name of the default Kubernetes context.
pub fn resolve_cluster_name(explicit: Option<ClusterName>, context: Option<ClusterName>) -> (r: Result<
    ClusterName,
    RegisterError,
>)
    ensures
        match explicit {
            Some(n) => r == Ok::<ClusterName, RegisterError>(n),
            None => match context {
                Some(n) => r == Ok::<ClusterName, RegisterError>(n),
                None => r is Err,
            },
        },
{
    match explicit {
        Some(n) => Ok(n),
        None => match context {
            Some(n) => Ok(n),
            None => Err(RegisterError::NoClusterName),
        },
    }
}

/// What a registration was asked to do.
pub struct RegisterOptions {
    /// The states to extend to the cluster's locations; `None` to extend none.
    pub states: Option<Vec<StateName>>,
    /// The state that backs the default storage class, if any.
    pub default_state: Option<String>,
    /// Whether to claim ownership of the states that have no owner.
    pub claim_unowned_states: bool,
}

impl RegisterOptions {
    /// From the command's flags. `--no-state` extends no state and sets up
    /// no default storage class; otherwise the default storage class is the
    /// one named, or else the first state's.
    pub fn from_flags(
        states: Vec<StateName>,
        no_state: bool,
        no_default_storage_class: bool,
        default_storage_class: Option<String>,
        no_state_owner: bool,
    ) -> (r: RegisterOptions)
        ensures
            r.claim_unowned_states == !no_state_owner,
            no_state ==> r.states is None && r.default_state is None,
            !no_state ==> r.states == Some(states),
            !no_state && no_default_storage_class ==> r.default_state is None,
            !no_state && !no_default_storage_class ==> match default_storage_class {
                Some(d) => r.default_state == Some(d),
                None => if states@.len() > 0 {
                    r.default_state matches Some(d) && d@ == states@[0].0@
                } else {
                    r.default_state is None
                },
            },
    {
        let no_default_storage_class = if no_state {
            true
        } else {
            no_default_storage_class
        };
        let default_state = if no_default_storage_class {
            None
        } else if default_storage_class.is_none() {
            if states.len() > 0 {
                Some(states[0].0.clone())
            } else {
                None
            }
        } else {
            default_storage_class
        };
        let states = if no_state {
            None
        } else {
            Some(states)
        };
        RegisterOptions { states, default_state, claim_unowned_states: !no_state_owner }
    }
}

/// The steps of a registration, in the order they run.
#[derive(Clone, Copy, Debug, PartialEq, Eq, Structural)]
pub enum RegisterStep {
    ResolveName,
    DiscoverLocations,
    ResolveProvider,
    Register,
    ExtendStates,
    PrepareNamespace,
    IssueToken,
    StoreConfigmap,
    InstallHelm,
    ClaimOwnership,
    Done,
}

impl RegisterStep {
    /// The step after this one; extending states and claiming ownership
    /// are skipped when not asked for.
    pub open spec fn spec_next(self, extend_states: bool, claim: bool) -> RegisterStep {
        match self {
            RegisterStep::ResolveName => RegisterStep::DiscoverLocations,
            RegisterStep::DiscoverLocations => RegisterStep::ResolveProvider,
            RegisterStep::ResolveProvider => RegisterStep::Register,
            RegisterStep::Register => if extend_states {
                RegisterStep::ExtendStates
            } else {
                RegisterStep::PrepareNamespace
            },
            RegisterStep::ExtendStates => RegisterStep::PrepareNamespace,
            RegisterStep::PrepareNamespace => RegisterStep::IssueToken,
            RegisterStep::IssueToken => RegisterStep::StoreConfigmap,
            RegisterStep::StoreConfigmap => RegisterStep::InstallHelm,
            RegisterStep::InstallHelm => if claim {
                RegisterStep::ClaimOwnership
            } else {
                RegisterStep::Done
            },
            RegisterStep::ClaimOwnership => RegisterStep::Done,
            RegisterStep::Done => RegisterStep::Done,
        }
    }

    /// The step changes something outside this process. The steps before
    /// `Register` only read, so a failure there leaves nothing behind.
    pub open spec fn spec_mutates(self) -> bool {
        !(self is ResolveName || self is DiscoverLocations || self is ResolveProvider
            || self is Done)
    }

    pub fn next(self, extend_states: bool, claim: bool) -> (r: RegisterStep)
        ensures
            r == self.spec_next(extend_states, claim),
    {
        match self {
            RegisterStep::ResolveName => RegisterStep::DiscoverLocations,
            RegisterStep::DiscoverLocations => RegisterStep::ResolveProvider,
            RegisterStep::ResolveProvider => RegisterStep::Register,
            RegisterStep::Register => if extend_states {
                RegisterStep::ExtendStates
            } else {
                RegisterStep::PrepareNamespace
            },
            RegisterStep::ExtendStates => RegisterStep::PrepareNamespace,
            RegisterStep::PrepareNamespace => RegisterStep::IssueToken,
            RegisterStep::IssueToken => RegisterStep::StoreConfigmap,
            RegisterStep::StoreConfigmap => RegisterStep::InstallHelm,
            RegisterStep::InstallHelm => if claim {
                RegisterStep::ClaimOwnership
            } else {
                RegisterStep::Done
            },
            RegisterStep::ClaimOwnership => RegisterStep::Done,
            RegisterStep::Done => RegisterStep::Done,
        }
    }

    pub fn mutates(self) -> (r: bool)
        ensures
            r == self.spec_mutates(),
    {
        match self {
            RegisterStep::ResolveName => false,
            RegisterStep::DiscoverLocations => false,
            RegisterStep::ResolveProvider => false,
            RegisterStep::Done => false,
            _ => true,
        }
    }
}

/// Every step that a registration runs, in order.
pub open spec fn spec_steps(extend_states: bool, claim: bool) -> Seq<RegisterStep> {
    seq![
        RegisterStep::ResolveName,
        RegisterStep::DiscoverLocations,
        RegisterStep::ResolveProvider,
        RegisterStep::Register,
    ] + (if extend_states {
        seq![RegisterStep::ExtendStates]
    } else {
        Seq::empty()
    }) + seq![
        RegisterStep::PrepareNamespace,
        RegisterStep::IssueToken,
        RegisterStep::StoreConfigmap,
        RegisterStep::InstallHelm,
    ] + (if claim {
        seq![RegisterStep::ClaimOwnership]
    } else {
        Seq::empty()
    })
}

/// The steps from the first on, each the `next` of the one before, up to
/// (not including) `Done`.
pub fn register_steps(extend_states: bool, claim: bool) -> (r: Vec<RegisterStep>)
    ensures
        r@ == spec_steps(extend_states, claim),
{
    let mut r: Vec<RegisterStep> = Vec::new();
    let mut step = RegisterStep::ResolveName;
    let mut n: usize = 0;
    while step != RegisterStep::Done
        invariant
            n == r@.len(),
            n <= 10,
            step == RegisterStep::Done || (n < spec_steps(extend_states, claim).len() && step
                == spec_steps(extend_states, claim)[n as int]),
            step == RegisterStep::Done ==> n == spec_steps(extend_states, claim).len(),
            r@ == spec_steps(extend_states, claim).take(n as int),
        decreases 10 - n,
    {
        r.push(step);
        step = step.next(extend_states, claim);
        n = n + 1;
        assert(r@ =~= spec_steps(extend_states, claim).take(n as int));
    }
    assert(r@ =~= spec_steps(extend_states, claim));
    r
}

/// The steps that change nothing outside come first, and the first step
/// that does is the cluster's own registration: a failure before it leaves
/// nothing to clean up.
pub proof fn lemma_registration_first(extend_states: bool, claim: bool)
    ensures
        spec_steps(extend_states, claim)[3] == RegisterStep::Register,
        forall|i: int| 0 <= i < 3 ==> !(#[trigger] spec_steps(extend_states, claim)[i]).spec_mutates(),
        forall|i: int|
            3 <= i < spec_steps(extend_states, claim).len() ==> (#[trigger] spec_steps(
                extend_states,
                claim,
            )[i]).spec_mutates(),
{
}

/// The standard, padded base64 text of some bytes.
pub uninterp spec fn base64_of(bytes: Seq<u8>) -> Seq<char>;

/// Relies on `base64::encode` (standard alphabet, with padding): the text
/// depends on the bytes alone. It panics only when the encoded length
/// overflows `usize`, which the bound excludes.
#[verifier::external_body]
fn encode_base64(text: &str) -> (r: String)
    requires
        text.spec_bytes().len() <= usize::MAX / 2,
    ensures
        r@ == base64_of(text.spec_bytes()),
{
    base64::encode(text)
}

/// The data of the secret that holds a cluster's token: the key, and the
/// token's UTF-8 bytes in base64.
pub fn cluster_token_data(token: &str) -> (r: (String, String))
    requires
        token.spec_bytes().len() <= usize::MAX / 2,
    ensures
        r.0@ == CLUSTER_TOKEN_KEY@,
        r.1@ == base64_of(token.spec_bytes()),
{
    (String::from_str(CLUSTER_TOKEN_KEY), encode_base64(token))
}

/// What the configmap of a registered cluster holds.
pub struct ConfigMapData {
    pub cluster_name: String,
    /// The state of the default storage class, or empty for none.
    pub default_state: String,
    pub api_url: String,
    pub cleanup_grace: String,
}

/// The configmap for a cluster, with the default state of `helm`.
pub fn configmap_data(cluster: &ClusterName, helm: &Helm, api_url: &str) -> (r: ConfigMapData)
    ensures
        r.cluster_name@ == cluster.0@,
        r.default_state@ == match helm.spec_default_state() {
            Some(d) => d,
            None => Seq::empty(),
        },
        r.api_url@ == api_url@,
        r.cleanup_grace@ == DEFAULT_CLEANUP_GRACE@,
{
    let default_state = match helm.default_state() {
        Some(d) => String::from_str(d),
        None => String::new(),
    };
    ConfigMapData {
        cluster_name: cluster.0.clone(),
        default_state,
        api_url: String::from_str(api_url),
        cleanup_grace: String::from_str(DEFAULT_CLEANUP_GRACE),
    }
}

} // verus!
