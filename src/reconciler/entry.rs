//! The entry point's choice of branch, the finalizer string, and the
//! bookkeeping shared by every status write.
use crate::error::Error;
use crate::labels::instance_id_of;
use crate::model::{ChallengeInstance, ChallengeInstanceStatus, ControllerConfig, Phase};
use crate::text::{owned, strings_view};
use crate::timeout::{instance_expired, is_expired};
use vstd::prelude::*;

verus! {

/// The finalizer that guards every live instance.
pub const FINALIZER: &'static str = "challengeinstance.berg.norelect.ch/finalizer";

/// When to look at an instance again.
#[derive(PartialEq, Eq, Structural, Clone, Copy, Debug)]
pub enum Action {
    /// After this many seconds.
    Requeue { seconds: u64 },
    /// Only when something about it changes.
    AwaitChange,
}

/// The branch a reconcile takes.
#[derive(PartialEq, Eq, Structural, Clone, Copy, Debug)]
pub enum Step {
    /// Deletion was requested: tear down.
    Cleanup,
    /// The finalizer is missing: add it.
    AddFinalizer,
    /// No instance id yet: assign one and start the clock.
    Initialize,
    /// The instance outlived its timeout: mark it and delete it.
    Expire,
    /// Fetch the challenge and the class, then act on the phase.
    Dispatch(Phase),
}

/// Whether `f` holds the finalizer.
pub open spec fn has_finalizer(f: Seq<Seq<char>>) -> bool {
    f.contains(FINALIZER@)
}

/// The phase recorded on `i`, `Pending` when none is.
pub open spec fn phase_of(i: ChallengeInstance) -> Phase {
    match i.status {
        Some(s) => match s.phase {
            Some(p) => p,
            None => Phase::Pending,
        },
        None => Phase::Pending,
    }
}

/// The first applicable branch for `i` at `now`.
pub open spec fn step_of(i: ChallengeInstance, now: i64) -> Step {
    if i.deletion_requested {
        Step::Cleanup
    } else if !has_finalizer(strings_view(i.finalizers@)) {
        Step::AddFinalizer
    } else if instance_id_of(i) is None {
        Step::Initialize
    } else if instance_expired(i, now) {
        Step::Expire
    } else {
        Step::Dispatch(phase_of(i))
    }
}

fn holds_finalizer(f: &Vec<String>) -> (r: bool)
    ensures
        r == has_finalizer(strings_view(f@)),
{
    proof {
        reveal_strlit("challengeinstance.berg.norelect.ch/finalizer");
    }
    let target = owned(FINALIZER);
    let mut i: usize = 0;
    while i < f.len()
        invariant
            i <= f@.len(),
            target@ == FINALIZER@,
            forall|j: int| 0 <= j < i ==> f@[j]@ != FINALIZER@,
        decreases f@.len() - i,
    {
        if f[i] == target {
            proof {
                assert(strings_view(f@)[i as int] == FINALIZER@);
            }
            return true;
        }
        i += 1;
    }
    proof {
        if has_finalizer(strings_view(f@)) {
            let j = choose|j: int| 0 <= j < strings_view(f@).len() && strings_view(f@)[j] == FINALIZER@;
            assert(f@[j]@ == FINALIZER@);
        }
    }
    false
}

/// Decides the branch that a reconcile of `instance` takes at `now`
/// (microseconds since the epoch).
pub fn next_step(instance: &ChallengeInstance, now: i64) -> (r: Step)
    ensures
        r == step_of(*instance, now),
{
    if instance.deletion_requested {
        return Step::Cleanup;
    }
    if !holds_finalizer(&instance.finalizers) {
        return Step::AddFinalizer;
    }
    let has_id = match &instance.status {
        Some(s) => s.instance_id.is_some(),
        None => false,
    };
    if !has_id {
        return Step::Initialize;
    }
    if is_expired(instance, now) {
        return Step::Expire;
    }
    let phase = match &instance.status {
        Some(s) => match s.phase {
            Some(p) => p,
            None => Phase::Pending,
        },
        None => Phase::Pending,
    };
    Step::Dispatch(phase)
}

/// The namespace in which the challenge of `i` is looked up: the one its
/// reference names, else the controller's default.
pub open spec fn challenge_namespace_for(i: ChallengeInstance, config: ControllerConfig) -> Seq<char> {
    match i.spec.challenge_ref.namespace {
        Some(n) => n@,
        None => config.challenge_namespace@,
    }
}

/// The class that `i` runs under: the one it names, else the default class.
pub open spec fn class_name_for(i: ChallengeInstance, config: ControllerConfig) -> Seq<char> {
    match i.spec.instance_class {
        Some(n) => n@,
        None => config.default_instance_class@,
    }
}

/// Where to look up the challenge of an instance.
pub fn challenge_namespace(instance: &ChallengeInstance, config: &ControllerConfig) -> (r: String)
    ensures
        r@ == challenge_namespace_for(*instance, *config),
{
    match &instance.spec.challenge_ref.namespace {
        Some(n) => owned(n.as_str()),
        None => owned(config.challenge_namespace.as_str()),
    }
}

/// The name of the class of an instance.
pub fn class_name(instance: &ChallengeInstance, config: &ControllerConfig) -> (r: String)
    ensures
        r@ == class_name_for(*instance, *config),
{
    match &instance.spec.instance_class {
        Some(n) => owned(n.as_str()),
        None => owned(config.default_instance_class.as_str()),
    }
}

/// The error for a challenge that the platform does not have.
pub fn challenge_not_found(instance: &ChallengeInstance, config: &ControllerConfig) -> (r: Error)
    ensures
        r matches Error::ChallengeNotFound { namespace, name } && namespace@ == challenge_namespace_for(
            *instance,
            *config,
        ) && name@ == instance.spec.challenge_ref.name@,
{
    Error::ChallengeNotFound {
        namespace: challenge_namespace(instance, config),
        name: owned(instance.spec.challenge_ref.name.as_str()),
    }
}

/// The error for a class that the platform does not have.
pub fn class_not_found(instance: &ChallengeInstance, config: &ControllerConfig) -> (r: Error)
    ensures
        r matches Error::InstanceClassNotFound { name } && name@ == class_name_for(*instance, *config),
{
    Error::InstanceClassNotFound { name: class_name(instance, config) }
}

/// The finalizers with the controller's appended.
pub fn with_finalizer(finalizers: &Vec<String>) -> (r: Vec<String>)
    ensures
        strings_view(r@) == strings_view(finalizers@).push(FINALIZER@),
{
    let mut r = crate::text::copy_strings(finalizers);
    let ghost before = r@;
    r.push(owned(FINALIZER));
    proof {
        assert(strings_view(r@) =~= strings_view(before).push(FINALIZER@));
    }
    r
}

/// `s` without any occurrence of `x`, order kept.
pub open spec fn remove_all(s: Seq<Seq<char>>, x: Seq<char>) -> Seq<Seq<char>>
    decreases s.len(),
{
    if s.len() == 0 {
        s
    } else if s.last() == x {
        remove_all(s.drop_last(), x)
    } else {
        remove_all(s.drop_last(), x).push(s.last())
    }
}

/// The finalizers without the controller's.
pub fn without_finalizer(finalizers: &Vec<String>) -> (r: Vec<String>)
    ensures
        strings_view(r@) == remove_all(strings_view(finalizers@), FINALIZER@),
{
    proof {
        reveal_strlit("challengeinstance.berg.norelect.ch/finalizer");
    }
    let target = owned(FINALIZER);
    let mut r: Vec<String> = Vec::new();
    let mut i: usize = 0;
    while i < finalizers.len()
        invariant
            i <= finalizers@.len(),
            target@ == FINALIZER@,
            strings_view(r@) == remove_all(strings_view(finalizers@.subrange(0, i as int)), FINALIZER@),
        decreases finalizers@.len() - i,
    {
        let ghost sub = strings_view(finalizers@.subrange(0, i + 1));
        proof {
            assert(sub.drop_last() =~= strings_view(finalizers@.subrange(0, i as int)));
            assert(sub.last() == finalizers@[i as int]@);
        }
        if finalizers[i] != target {
            let ghost before = r@;
            r.push(owned(finalizers[i].as_str()));
            proof {
                assert(strings_view(r@) =~= strings_view(before).push(finalizers@[i as int]@));
            }
        }
        i += 1;
    }
    proof {
        assert(finalizers@.subrange(0, finalizers@.len() as int) =~= finalizers@);
    }
    r
}

/// After removal the finalizer is gone.
pub proof fn removed_finalizer_absent(s: Seq<Seq<char>>, x: Seq<char>)
    ensures
        !remove_all(s, x).contains(x),
    decreases s.len(),
{
    if s.len() > 0 {
        removed_finalizer_absent(s.drop_last(), x);
        let r = remove_all(s.drop_last(), x);
        if s.last() != x {
            assert forall|i: int| 0 <= i < r.push(s.last()).len() implies r.push(s.last())[i] != x by {
                if i < r.len() {
                    assert(r.push(s.last())[i] == r[i]);
                }
            }
        }
    }
}

/// Records the generation that a status write was computed from.
pub fn finish_status(status: &mut ChallengeInstanceStatus, generation: Option<i64>)
    ensures
        final(status).observed_generation == generation,
        final(status).instance_id == old(status).instance_id,
        final(status).phase == old(status).phase,
        final(status).namespace == old(status).namespace,
        final(status).services == old(status).services,
        final(status).started_at == old(status).started_at,
        final(status).ready_at == old(status).ready_at,
        final(status).terminated_at == old(status).terminated_at,
        final(status).expires_at == old(status).expires_at,
        final(status).conditions == old(status).conditions,
{
    status.observed_generation = generation;
}

/// The delay before retrying after `error`: 10 s for transient errors, 5 min
/// for the others.
pub fn error_policy(error: &Error) -> (r: Action)
    ensures
        r == (Action::Requeue { seconds: error.requeue_seconds_spec() }),
{
    Action::Requeue { seconds: error.requeue_seconds() }
}

} // verus!
