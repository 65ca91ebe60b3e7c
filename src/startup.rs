use vstd::prelude::*;

verus! {

/// The node's own settings, read once when the alert manager starts.
pub struct StartupConfig {
    /// Whether this node may run the alert manager at all.
    pub alert_manager: bool,
    /// Whether an embedded report server is started beside it.
    pub enable_report_server: bool,
    /// Whether several clusters coordinate through a shared registry.
    pub super_cluster_enabled: bool,
    /// The name of the local cluster, used to claim the alert manager role.
    pub cluster_name: String,
}

/// Where startup stands between two answers of the registry.
#[derive(Clone, Debug)]
pub enum StartupPhase {
    Begin,
    AwaitOwner,
    AwaitLiveClusters { owner: String },
    AwaitRegistration,
    Finished,
}

/// What the driver of startup reports back.
#[derive(Clone, Debug)]
pub enum StartupEvent {
    /// Startup is asked to begin.
    Begin,
    /// The registry named the current owner of the role; empty when nobody holds it.
    Owner { name: String },
    /// The registry listed the clusters that are live now.
    LiveClusters { names: Vec<String> },
    /// The local cluster was registered as the owner.
    Registered,
    /// A call to the registry failed.
    RegistryFailed,
}

/// What the driver of startup must do next.
#[derive(Clone, Debug, PartialEq, Eq)]
pub enum StartupAction {
    /// Return success without starting the periodic loops.
    Return,
    /// Ask the registry who owns the alert manager role.
    QueryOwner,
    /// Ask the registry which clusters are live.
    ListLiveClusters,
    /// Register this cluster as the owner of the role.
    RegisterOwner { cluster: String },
    /// Start the three periodic loops in the background and return success.
    StartLoops,
    /// Return the registry's error to the caller.
    Abort,
    /// The event did not fit the phase: nothing to do.
    Ignore,
}

/// The outcome of the ownership claim.
#[derive(Clone, Copy, Debug, PartialEq, Eq, Structural)]
pub enum ClaimDecision {
    /// Another live cluster owns the role: do not run the loops here.
    Defer,
    /// Nobody owns the role, or its owner is gone: claim it.
    Register,
}

/// Whether `names` holds a cluster named `name`.
pub open spec fn names_contain(names: Seq<String>, name: Seq<char>) -> bool {
    exists|i: int| 0 <= i < names.len() && (#[trigger] names[i])@ == name
}

/// Whether the role is held by a cluster that is live now.
pub open spec fn owner_is_live(owner: Seq<char>, live: Seq<String>) -> bool {
    owner.len() > 0 && names_contain(live, owner)
}

/// Decides the ownership claim from the current owner and the live clusters.
pub fn claim_decision(owner: &String, live: &Vec<String>) -> (r: ClaimDecision)
    ensures
        r == ClaimDecision::Defer <==> owner_is_live(owner@, live@),
{
    let owner_str: &str = owner.as_str();
    if owner_str.is_empty() {
        return ClaimDecision::Register;
    }
    let mut i: usize = 0;
    while i < live.len()
        invariant
            i <= live.len(),
            owner@.len() > 0,
            forall|j: int| 0 <= j < i ==> (#[trigger] live@[j])@ != owner@,
        decreases live.len() - i,
    {
        if live[i] == *owner {
            assert(live@[i as int]@ == owner@);
            return ClaimDecision::Defer;
        }
        i = i + 1;
    }
    ClaimDecision::Register
}

/// The transition of startup: the next phase and the action.
pub open spec fn startup_next(cfg: StartupConfig, phase: StartupPhase, event: StartupEvent) -> (
    StartupPhase,
    StartupAction,
) {
    match (phase, event) {
        (StartupPhase::Begin, StartupEvent::Begin) => if !cfg.alert_manager {
            (StartupPhase::Finished, StartupAction::Return)
        } else if cfg.super_cluster_enabled {
            (StartupPhase::AwaitOwner, StartupAction::QueryOwner)
        } else {
            (StartupPhase::Finished, StartupAction::StartLoops)
        },
        (StartupPhase::AwaitOwner, StartupEvent::Owner { name }) => if name@.len() == 0 {
            (StartupPhase::AwaitRegistration, StartupAction::RegisterOwner { cluster: cfg.cluster_name })
        } else {
            (StartupPhase::AwaitLiveClusters { owner: name }, StartupAction::ListLiveClusters)
        },
        (StartupPhase::AwaitLiveClusters { owner }, StartupEvent::LiveClusters { names }) => if owner_is_live(
            owner@,
            names@,
        ) {
            (StartupPhase::Finished, StartupAction::Return)
        } else {
            (StartupPhase::AwaitRegistration, StartupAction::RegisterOwner { cluster: cfg.cluster_name })
        },
        (StartupPhase::AwaitRegistration, StartupEvent::Registered) => (
            StartupPhase::Finished,
            StartupAction::StartLoops,
        ),
        (StartupPhase::AwaitOwner, StartupEvent::RegistryFailed) => (
            StartupPhase::Finished,
            StartupAction::Abort,
        ),
        (StartupPhase::AwaitLiveClusters { .. }, StartupEvent::RegistryFailed) => (
            StartupPhase::Finished,
            StartupAction::Abort,
        ),
        (StartupPhase::AwaitRegistration, StartupEvent::RegistryFailed) => (
            StartupPhase::Finished,
            StartupAction::Abort,
        ),
        (p, _) => (p, StartupAction::Ignore),
    }
}

/// The startup of the alert manager on one node: an eligibility check, the ownership
/// claim when clusters coordinate, and the start of the periodic loops by the owner only.
pub struct Startup {
    pub config: StartupConfig,
    pub phase: StartupPhase,
}

impl Startup {
    /// Startup that has not begun.
    pub fn new(config: StartupConfig) -> (r: Startup)
        ensures
            r.config == config,
            r.phase == StartupPhase::Begin,
    {
        Startup { config, phase: StartupPhase::Begin }
    }

    /// Whether the embedded report server is to be started, as a detached best-effort task.
    pub fn wants_report_server(&self) -> (r: bool)
        ensures
            r == (self.config.alert_manager && self.config.enable_report_server),
    {
        self.config.alert_manager && self.config.enable_report_server
    }

    /// Takes one event and says what to do next.
    pub fn step(self, event: StartupEvent) -> (r: (Startup, StartupAction))
        ensures
            r.0.config == self.config,
            (r.0.phase, r.1) == startup_next(self.config, self.phase, event),
    {
        let Startup { config, phase } = self;
        let (next, action) = match (phase, event) {
            (StartupPhase::Begin, StartupEvent::Begin) => if !config.alert_manager {
                (StartupPhase::Finished, StartupAction::Return)
            } else if config.super_cluster_enabled {
                (StartupPhase::AwaitOwner, StartupAction::QueryOwner)
            } else {
                (StartupPhase::Finished, StartupAction::StartLoops)
            },
            (StartupPhase::AwaitOwner, StartupEvent::Owner { name }) => if name.as_str().is_empty() {
                (
                    StartupPhase::AwaitRegistration,
                    StartupAction::RegisterOwner { cluster: config.cluster_name.clone() },
                )
            } else {
                (StartupPhase::AwaitLiveClusters { owner: name }, StartupAction::ListLiveClusters)
            },
            (StartupPhase::AwaitLiveClusters { owner }, StartupEvent::LiveClusters { names }) => {
                match claim_decision(&owner, &names) {
                    ClaimDecision::Defer => (StartupPhase::Finished, StartupAction::Return),
                    ClaimDecision::Register => (
                        StartupPhase::AwaitRegistration,
                        StartupAction::RegisterOwner { cluster: config.cluster_name.clone() },
                    ),
                }
            },
            (StartupPhase::AwaitRegistration, StartupEvent::Registered) => (
                StartupPhase::Finished,
                StartupAction::StartLoops,
            ),
            (StartupPhase::AwaitOwner, StartupEvent::RegistryFailed) => (
                StartupPhase::Finished,
                StartupAction::Abort,
            ),
            (StartupPhase::AwaitLiveClusters { .. }, StartupEvent::RegistryFailed) => (
                StartupPhase::Finished,
                StartupAction::Abort,
            ),
            (StartupPhase::AwaitRegistration, StartupEvent::RegistryFailed) => (
                StartupPhase::Finished,
                StartupAction::Abort,
            ),
            (p, _) => (p, StartupAction::Ignore),
        };
        (Startup { config, phase: next }, action)
    }
}

/// The claim protocol on a node that may run the alert manager in a coordinated deployment:
/// it reads the owner; if the owner is non-empty it lists the live clusters; it defers,
/// registering nothing, exactly when the owner is live, and otherwise registers the
/// local cluster's name, after which it starts the loops.
pub proof fn lemma_claim_protocol(cfg: StartupConfig, owner: String, live: Vec<String>)
    requires
        cfg.alert_manager,
        cfg.super_cluster_enabled,
    ensures
        ({
            let (p1, a1) = startup_next(cfg, StartupPhase::Begin, StartupEvent::Begin);
            let (p2, a2) = startup_next(cfg, p1, StartupEvent::Owner { name: owner });
            let (p3, a3) = startup_next(cfg, p2, StartupEvent::LiveClusters { names: live });
            let register = StartupAction::RegisterOwner { cluster: cfg.cluster_name };
            &&& a1 == StartupAction::QueryOwner
            &&& owner@.len() == 0 ==> a2 == register
                && startup_next(cfg, p2, StartupEvent::Registered).1 == StartupAction::StartLoops
            &&& owner@.len() > 0 ==> a2 == StartupAction::ListLiveClusters
            &&& owner@.len() > 0 && owner_is_live(owner@, live@) ==> a3 == StartupAction::Return
                && p3 == StartupPhase::Finished
            &&& owner@.len() > 0 && !owner_is_live(owner@, live@) ==> a3 == register
                && startup_next(cfg, p3, StartupEvent::Registered).1 == StartupAction::StartLoops
        }),
{
}

/// The loops start only on a node that may run the alert manager, and then either
/// without coordination or right after this cluster was registered as the owner.
pub proof fn lemma_loops_only_for_owner(cfg: StartupConfig, phase: StartupPhase, event: StartupEvent)
    ensures
        startup_next(cfg, phase, event).1 == StartupAction::StartLoops ==> (phase
            == StartupPhase::Begin && event == StartupEvent::Begin && cfg.alert_manager
            && !cfg.super_cluster_enabled) || (phase == StartupPhase::AwaitRegistration && event
            == StartupEvent::Registered),
{
}

/// Any failure of the registry while the claim is under way aborts startup.
pub proof fn lemma_registry_failure_aborts(cfg: StartupConfig, phase: StartupPhase)
    requires
        phase is AwaitOwner || phase is AwaitLiveClusters || phase is AwaitRegistration,
    ensures
        startup_next(cfg, phase, StartupEvent::RegistryFailed) == (
            StartupPhase::Finished,
            StartupAction::Abort,
        ),
{
}

} // verus!
