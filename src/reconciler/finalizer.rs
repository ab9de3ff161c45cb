//! The staged teardown of an instance: drain its workloads, delete its
//! namespace, record the end, release the finalizer.
use crate::model::{ChallengeInstance, ChallengeInstanceStatus, ConditionStatus, ControllerConfig, Phase};
use crate::naming::generate_namespace_name;
use crate::reconciler::entry::{remove_all, removed_finalizer_absent, Action, FINALIZER};
use crate::reconciler::state::{condition, condition_is, PROGRESS_SECONDS};
use crate::resources::plan::{instance_namespace, plan_is, CreationPlan};
use crate::text::{opt_view, owned, strings_view};
use vstd::prelude::*;

verus! {

pub const NAMESPACE_DELETED: &'static str = "NamespaceDeleted";

/// A workload of the instance's namespace, and whether pods of it still live.
#[derive(Clone, Debug)]
pub struct WorkloadState {
    pub name: String,
    pub live_pods: bool,
}

/// What the platform reports of the instance's namespace.
#[derive(PartialEq, Eq, Structural, Clone, Copy, Debug)]
pub enum NamespaceState {
    Active,
    Terminating,
    Absent,
}

/// The next stage of a teardown.
#[derive(Clone, Debug)]
pub enum CleanupAction {
    /// Delete these workloads, in the background, and look again in 2 s.
    DeleteWorkloads(Vec<String>),
    /// Delete the namespace and look again in 2 s.
    DeleteNamespace,
    /// The namespace is going away: look again in 2 s.
    WaitForNamespace,
    /// Everything is gone: record the end and release the finalizer.
    Finalize,
}

/// The names of the workloads that still have live pods, in order.
pub open spec fn live_workloads(ws: Seq<WorkloadState>) -> Seq<Seq<char>>
    decreases ws.len(),
{
    if ws.len() == 0 {
        Seq::empty()
    } else if ws.last().live_pods {
        live_workloads(ws.drop_last()).push(ws.last().name@)
    } else {
        live_workloads(ws.drop_last())
    }
}

/// Whether `a` is the teardown stage for the observed workloads and namespace.
pub open spec fn cleanup_action_is(a: CleanupAction, ws: Seq<WorkloadState>, ns: NamespaceState) -> bool {
    if live_workloads(ws).len() > 0 {
        a matches CleanupAction::DeleteWorkloads(names) && strings_view(names@) == live_workloads(ws)
    } else {
        match ns {
            NamespaceState::Active => a is DeleteNamespace,
            NamespaceState::Terminating => a is WaitForNamespace,
            NamespaceState::Absent => a is Finalize,
        }
    }
}

/// Decides the next stage of a teardown: workloads first, then the
/// namespace, and only then the release of the instance.
pub fn cleanup_step(workloads: &Vec<WorkloadState>, namespace: NamespaceState) -> (r: CleanupAction)
    ensures
        cleanup_action_is(r, workloads@, namespace),
{
    let mut live: Vec<String> = Vec::new();
    let mut i: usize = 0;
    while i < workloads.len()
        invariant
            i <= workloads@.len(),
            strings_view(live@) == live_workloads(workloads@.subrange(0, i as int)),
        decreases workloads@.len() - i,
    {
        let ghost sub = workloads@.subrange(0, i + 1);
        proof {
            assert(sub.drop_last() =~= workloads@.subrange(0, i as int));
            assert(sub.last() == workloads@[i as int]);
        }
        if workloads[i].live_pods {
            let ghost before = live@;
            live.push(owned(workloads[i].name.as_str()));
            proof {
                assert(strings_view(live@) =~= strings_view(before).push(workloads@[i as int].name@));
            }
        }
        i += 1;
    }
    proof {
        assert(workloads@.subrange(0, workloads@.len() as int) =~= workloads@);
    }
    if live.len() > 0 {
        return CleanupAction::DeleteWorkloads(live);
    }
    match namespace {
        NamespaceState::Active => CleanupAction::DeleteNamespace,
        NamespaceState::Terminating => CleanupAction::WaitForNamespace,
        NamespaceState::Absent => CleanupAction::Finalize,
    }
}

/// When to look again after a teardown stage.
pub fn cleanup_requeue(a: &CleanupAction) -> (r: Action)
    ensures
        r == if a is Finalize {
            Action::AwaitChange
        } else {
            Action::Requeue { seconds: PROGRESS_SECONDS }
        },
{
    match a {
        CleanupAction::Finalize => Action::AwaitChange,
        _ => Action::Requeue { seconds: PROGRESS_SECONDS },
    }
}

/// The namespace to tear down: the recorded one, else the one derived from
/// the prefix, the challenge name and the owner, so that namespaces of
/// aborted startups are collected too.
pub open spec fn cleanup_namespace_of(i: ChallengeInstance, config: ControllerConfig) -> Seq<char> {
    match i.status {
        Some(s) => match s.namespace {
            Some(n) => n@,
            None => instance_namespace(i, config),
        },
        None => instance_namespace(i, config),
    }
}

/// Determines the namespace to tear down.
pub fn cleanup_namespace(instance: &ChallengeInstance, config: &ControllerConfig) -> (r: String)
    ensures
        r@ == cleanup_namespace_of(*instance, *config),
{
    if let Some(status) = &instance.status {
        if let Some(ns) = &status.namespace {
            return owned(ns.as_str());
        }
    }
    generate_namespace_name(
        config.namespace_prefix.as_str(),
        instance.spec.challenge_ref.name.as_str(),
        instance.spec.owner_id.as_str(),
    )
}

/// Records the end of an instance: phase `Terminated`, the time, and the
/// condition `NamespaceDeleted`.
pub fn finalize_status(status: &mut ChallengeInstanceStatus, now: &str)
    ensures
        final(status).phase == Some(Phase::Terminated),
        opt_view(final(status).terminated_at) == Some(now@),
        final(status).conditions@.len() == old(status).conditions@.len() + 1,
        forall|k: int| 0 <= k < old(status).conditions@.len() ==> #[trigger] final(status).conditions@[k] == old(status).conditions@[k],
        condition_is(
            final(status).conditions@.last(),
            NAMESPACE_DELETED@,
            ConditionStatus::True,
            now@,
            "Deleted"@,
            "Namespace deleted"@,
        ),
        final(status).instance_id == old(status).instance_id,
        final(status).namespace == old(status).namespace,
        final(status).services == old(status).services,
        final(status).started_at == old(status).started_at,
        final(status).ready_at == old(status).ready_at,
        final(status).expires_at == old(status).expires_at,
{
    status.phase = Some(Phase::Terminated);
    status.terminated_at = Some(owned(now));
    status.conditions.push(condition(NAMESPACE_DELETED, ConditionStatus::True, now, "Deleted", "Namespace deleted"));
}

/// Every child that a plan creates lives in the instance's namespace, or is
/// that namespace.
pub open spec fn plan_within_namespace(p: CreationPlan) -> bool {
    let ns = p.namespace.name@;
    &&& p.network_policy.namespace@ == ns
    &&& forall|k: int|
        0 <= k < p.containers@.len() ==> {
            let cc = #[trigger] p.containers@[k];
            &&& (forall|j: int| 0 <= j < cc.services@.len() ==> #[trigger] cc.services@[j].namespace@ == ns)
            &&& (forall|j: int| 0 <= j < cc.http_routes@.len() ==> #[trigger] cc.http_routes@[j].namespace@ == ns)
            &&& (forall|j: int| 0 <= j < cc.tls_routes@.len() ==> #[trigger] cc.tls_routes@[j].namespace@ == ns)
            &&& (forall|j: int| 0 <= j < cc.config_maps@.len() ==> #[trigger] cc.config_maps@[j].namespace@ == ns)
            &&& cc.pdb.namespace@ == ns
            &&& cc.deployment.namespace@ == ns
        }
}

/// A teardown releases an instance only when no workload of it has live
/// pods and its namespace, which holds every child it created, is gone;
/// the finalizer list it leaves holds no finalizer of the controller, so the
/// platform removes the instance itself.
pub proof fn finalize_leaves_nothing(
    ws: Seq<WorkloadState>,
    ns: NamespaceState,
    a: CleanupAction,
    p: CreationPlan,
    instance: ChallengeInstance,
    challenge: crate::model::Challenge,
    class: crate::model::ChallengeInstanceClass,
    config: ControllerConfig,
    finalizers: Seq<Seq<char>>,
)
    requires
        cleanup_action_is(a, ws, ns),
        a is Finalize,
        plan_is(p, instance, challenge, class, config),
    ensures
        ns == NamespaceState::Absent,
        forall|k: int| 0 <= k < ws.len() ==> !(#[trigger] ws[k]).live_pods,
        plan_within_namespace(p),
        p.namespace.name@ == instance_namespace(instance, config),
        !remove_all(finalizers, FINALIZER@).contains(FINALIZER@),
{
    no_live_workloads(ws);
    removed_finalizer_absent(finalizers, FINALIZER@);
    let nsn = p.namespace.name@;
    assert forall|k: int| 0 <= k < p.containers@.len() implies {
        let cc = #[trigger] p.containers@[k];
        &&& (forall|j: int| 0 <= j < cc.services@.len() ==> #[trigger] cc.services@[j].namespace@ == nsn)
        &&& (forall|j: int| 0 <= j < cc.http_routes@.len() ==> #[trigger] cc.http_routes@[j].namespace@ == nsn)
        &&& (forall|j: int| 0 <= j < cc.tls_routes@.len() ==> #[trigger] cc.tls_routes@[j].namespace@ == nsn)
        &&& (forall|j: int| 0 <= j < cc.config_maps@.len() ==> #[trigger] cc.config_maps@[j].namespace@ == nsn)
        &&& cc.pdb.namespace@ == nsn
        &&& cc.deployment.namespace@ == nsn
    } by {
        let cc = p.containers@[k];
        let c = challenge.spec.containers@[k];
        assert(crate::resources::plan::container_children_are(cc, instance, c, nsn, class));
        let hp = crate::resources::service::ports_of_type(c.ports@, crate::model::PortType::PublicHttpRoute);
        let tp = crate::resources::service::ports_of_type(c.ports@, crate::model::PortType::PublicTlsRoute);
        assert forall|j: int| 0 <= j < cc.http_routes@.len() implies #[trigger] cc.http_routes@[j].namespace@ == nsn by {
            assert(crate::resources::plan::http_route_for(cc.http_routes@[j], instance, c, hp[j], nsn, class));
        }
        assert forall|j: int| 0 <= j < cc.tls_routes@.len() implies #[trigger] cc.tls_routes@[j].namespace@ == nsn by {
            assert(crate::resources::plan::tls_route_for(cc.tls_routes@[j], instance, c, tp[j], nsn, class));
        }
        let vs = choose|vs: Seq<crate::flag::volume::FlagVolume>|
            crate::resources::plan::flag_volumes_are(vs, c) && crate::resources::deployment::deployment_is(
                cc.deployment,
                instance,
                c,
                nsn,
                class,
                vs,
            );
    }
}

proof fn no_live_workloads(ws: Seq<WorkloadState>)
    requires
        live_workloads(ws).len() == 0,
    ensures
        forall|k: int| 0 <= k < ws.len() ==> !(#[trigger] ws[k]).live_pods,
    decreases ws.len(),
{
    if ws.len() > 0 {
        no_live_workloads(ws.drop_last());
        assert forall|k: int| 0 <= k < ws.len() implies !(#[trigger] ws[k]).live_pods by {
            if k < ws.len() - 1 {
                assert(ws.drop_last()[k] == ws[k]);
            }
        }
    }
}

} // verus!
