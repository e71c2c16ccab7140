//! Provider-level state shared between all pods: the registry from pod
//! identity to execution handle, which serves the out-of-band stop and log
//! requests, and the provider's admission checks.

use vstd::prelude::*;

use crate::config::{Container, PodKey, PodKeyV};
use crate::runtime::{stop_spec, Runtime, StopEffect};

verus! {

/// A provider-level failure served back to the node agent.
#[derive(Debug)]
pub enum ProviderError {
    /// A log request named a pod with no registered handle.
    PodNotFound { pod_name: String },
}

/// What a registry-level stop call did.
#[derive(Debug, Clone, Copy, PartialEq, Eq, Structural)]
pub enum StopOutcome {
    /// The pod's task was asked to abort.
    Interrupted,
    /// The pod's task had already been asked to abort; no further effect.
    AlreadyInterrupted,
    /// No handle is registered for the pod; stopping it is a no-op, not an
    /// error.
    NotRegistered,
}

/// The outcome a registry stop reports for a handle in the given state.
pub open spec fn stop_outcome_of(r: Runtime) -> StopOutcome {
    if r.interrupt_requested {
        StopOutcome::AlreadyInterrupted
    } else {
        StopOutcome::Interrupted
    }
}

/// How a registry stop changes the entries: the one entry of the stopped
/// pod moves to its stopped state and names the outcome; every other entry
/// stays in place untouched.
pub open spec fn stopped_at(
    before: Seq<(PodKey, Runtime)>,
    after: Seq<(PodKey, Runtime)>,
    k: PodKeyV,
    r: StopOutcome,
) -> bool {
    &&& after.len() == before.len()
    &&& forall|j: int| 0 <= j < before.len() && (#[trigger] before[j]).0@ != k ==> after[j]
        == before[j]
    &&& forall|j: int| 0 <= j < before.len() && (#[trigger] before[j]).0@ == k ==> (after[j].0
        == before[j].0 && after[j].1 == stop_spec(before[j].1).0 && r == stop_outcome_of(
        before[j].1,
    ))
}

/// Some entry of the registry carries the given pod identity.
pub open spec fn has_pod(s: Seq<(PodKey, Runtime)>, k: PodKeyV) -> bool {
    exists|i: int| 0 <= i < s.len() && (#[trigger] s[i]).0@ == k
}

/// No two entries carry one pod identity.
pub open spec fn pods_unique(s: Seq<(PodKey, Runtime)>) -> bool {
    forall|i: int, j: int| 0 <= i < j < s.len() ==> (#[trigger] s[i]).0@ != (#[trigger] s[j]).0@
}

/// Provider-level state: the registry from pod identity to execution
/// handle. At most one handle is registered per pod at any time.
#[derive(Debug)]
pub struct ProviderState {
    handles: Vec<(PodKey, Runtime)>,
}

impl ProviderState {
    /// The registry's entries.
    pub closed spec fn entries(self) -> Seq<(PodKey, Runtime)> {
        self.handles@
    }

    /// At most one handle per pod.
    pub open spec fn wf(self) -> bool {
        pods_unique(self.entries())
    }

    /// An empty registry.
    pub fn new() -> (r: ProviderState)
        ensures
            r.wf(),
            r.entries().len() == 0,
    {
        ProviderState { handles: Vec::new() }
    }

    /// Removes the handle registered for a pod, if any. The caller must
    /// already have stopped the pod's task.
    pub fn remove(&mut self, key: &PodKey)
        requires
            old(self).wf(),
        ensures
            final(self).wf(),
            !has_pod(final(self).entries(), key@),
            !has_pod(old(self).entries(), key@) ==> final(self).entries() == old(self).entries(),
            has_pod(old(self).entries(), key@) ==> exists|i: int|
                0 <= i < old(self).entries().len() && (#[trigger] old(self).entries()[i]).0@ == key@
                && final(self).entries() == old(self).entries().remove(i),
    {
        let ghost sv = self.handles@;
        let n = self.handles.len();
        let mut i: usize = 0;
        while i < n
            invariant
                i <= n,
                n == self.handles@.len(),
                self.handles@ == sv,
                sv == old(self).entries(),
                pods_unique(sv),
                forall|j: int| 0 <= j < i ==> (#[trigger] sv[j]).0@ != key@,
            decreases n - i,
        {
            if self.handles[i].0.same_pod(key) {
                self.handles.remove(i);
                proof {
                    assert(sv[i as int].0@ =~= key@);
                    assert(has_pod(sv, key@));
                    assert(self.handles@ =~= sv.remove(i as int));
                    assert(old(self).entries()[i as int].0@ == key@ && final(self).entries()
                        == old(self).entries().remove(i as int));
                    assert forall|j: int| 0 <= j < sv.len() && j != i implies (#[trigger] sv[j]).0@
                        != key@ by {
                        if j < i {
                        } else {
                            assert(sv[i as int].0@ != sv[j].0@);
                        }
                    }
                    assert forall|m: int| 0 <= m < self.handles@.len() implies (
                    #[trigger] self.handles@[m]).0@ != key@ by {
                        if m < i {
                            assert(self.handles@[m] == sv[m]);
                        } else {
                            assert(self.handles@[m] == sv[m + 1]);
                        }
                    }
                    assert forall|m: int, l: int| 0 <= m < l < self.handles@.len() implies (
                    #[trigger] self.handles@[m]).0@ != (#[trigger] self.handles@[l]).0@ by {
                        let m0 = if m < i { m } else { m + 1 };
                        let l0 = if l < i { l } else { l + 1 };
                        assert(self.handles@[m] == sv[m0]);
                        assert(self.handles@[l] == sv[l0]);
                        assert(sv[m0].0@ != sv[l0].0@);
                    }
                }
                return ;
            }
            i += 1;
        }
        proof {
            assert(!has_pod(sv, key@));
        }
    }

    /// Registers the handle for a pod, replacing any earlier handle; the
    /// caller must already have stopped a replaced task.
    pub fn register(&mut self, key: PodKey, handle: Runtime)
        requires
            old(self).wf(),
        ensures
            final(self).wf(),
            has_pod(final(self).entries(), key@),
            forall|j: int| 0 <= j < final(self).entries().len() && (#[trigger] final(self).entries()[j]).0@ == key@ ==> final(self).entries()[j].1 == handle,
            !has_pod(old(self).entries(), key@) ==> final(self).entries() == old(
                self,
            ).entries().push((key, handle)),
            has_pod(old(self).entries(), key@) ==> exists|i: int|
                0 <= i < old(self).entries().len() && (#[trigger] old(self).entries()[i]).0@ == key@
                && final(self).entries() == old(self).entries().remove(i).push((key, handle)),
    {
        let ghost kv = key@;
        self.remove(&key);
        let ghost mid = self.handles@;
        self.handles.push((key, handle));
        proof {
            assert(self.handles@ == mid.push(self.handles@.last()));
            assert(self.handles@.last().0@ == kv);
            assert forall|m: int, l: int| 0 <= m < l < self.handles@.len() implies (
            #[trigger] self.handles@[m]).0@ != (#[trigger] self.handles@[l]).0@ by {
                if l == self.handles@.len() - 1 {
                    assert(self.handles@[m] == mid[m]);
                    assert(mid[m].0@ != kv);
                }
            }
        }
    }

    /// Asks the pod's task to abort. A pod with no registered handle is
    /// already stopped or was never started, so stopping it succeeds as a
    /// no-op; stopping a pod twice carries no second interrupt.
    pub fn stop(&mut self, key: &PodKey) -> (r: StopOutcome)
        requires
            old(self).wf(),
        ensures
            final(self).wf(),
            !has_pod(old(self).entries(), key@) ==> r == StopOutcome::NotRegistered
                && final(self).entries() == old(self).entries(),
            has_pod(old(self).entries(), key@) ==> stopped_at(
                old(self).entries(),
                final(self).entries(),
                key@,
                r,
            ),
    {
        let mut i: usize = 0;
        let n = self.handles.len();
        while i < n
            invariant
                i <= n,
                n == self.handles@.len(),
                old(self).wf(),
                self.handles@ == old(self).handles@,
                forall|j: int| 0 <= j < i ==> (#[trigger] self.handles@[j]).0@ != key@,
            decreases n - i,
        {
            if self.handles[i].0.same_pod(key) {
                let ghost sv = self.handles@;
                proof {
                    assert(sv[i as int].0@ =~= key@);
                    assert(has_pod(sv, key@));
                }
                let (pod, mut h) = self.handles.remove(i);
                let effect = h.stop();
                self.handles.insert(i, (pod, h));
                proof {
                    assert(self.handles@ =~= sv.update(i as int, (sv[i as int].0, h)));
                    assert forall|j: int| 0 <= j < sv.len() && (#[trigger] sv[j]).0@ == key@
                        implies j == i as int by {
                        if j < i {
                        } else if j > i {
                            assert(sv[i as int].0@ != sv[j].0@);
                        }
                    }
                    assert forall|m: int, l: int| 0 <= m < l < self.handles@.len() implies (
                    #[trigger] self.handles@[m]).0@ != (#[trigger] self.handles@[l]).0@ by {
                        assert(self.handles@[m].0@ == sv[m].0@);
                        assert(self.handles@[l].0@ == sv[l].0@);
                    }
                }
                return if matches!(effect, StopEffect::Interrupt) {
                    StopOutcome::Interrupted
                } else {
                    StopOutcome::AlreadyInterrupted
                };
            }
            i += 1;
        }
        StopOutcome::NotRegistered
    }

    /// Serves a log request: the identifier of the pod's captured-output
    /// stream, or a pod-not-found failure when no handle is registered.
    pub fn logs(&self, namespace: &str, pod_name: &str) -> (r: Result<u64, ProviderError>)
        requires
            self.wf(),
        ensures
            match r {
                Result::Ok(id) => exists|i: int| 0 <= i < self.entries().len() && (
                #[trigger] self.entries()[i]).0@ == (PodKeyV {
                    namespace: namespace@,
                    name: pod_name@,
                }) && self.entries()[i].1.task_id == id,
                Result::Err(e) => !has_pod(
                    self.entries(),
                    PodKeyV { namespace: namespace@, name: pod_name@ },
                ) && (e matches ProviderError::PodNotFound { pod_name: p } && p@ == pod_name@),
            },
    {
        let key = PodKey::new(namespace, pod_name);
        let ghost kv = PodKeyV { namespace: namespace@, name: pod_name@ };
        let mut i: usize = 0;
        let n = self.handles.len();
        while i < n
            invariant
                i <= n,
                n == self.handles@.len(),
                key@ == kv,
                kv == (PodKeyV { namespace: namespace@, name: pod_name@ }),
                forall|j: int| 0 <= j < i ==> (#[trigger] self.handles@[j]).0@ != kv,
            decreases n - i,
        {
            if self.handles[i].0.same_pod(&key) {
                proof {
                    assert(self.handles@[i as int].0@ =~= kv);
                    assert((#[trigger] self.entries()[i as int]).0@ == kv);
                }
                return Result::Ok(self.handles[i].1.task_id);
            }
            assert(self.handles@[i as int].0@ != kv);
            i += 1;
        }
        Result::Err(ProviderError::PodNotFound { pod_name: String::from_str(pod_name) })
    }
}

/// The prefix that bars a container image from this provider.
pub open spec fn kube_proxy_prefix() -> Seq<char> {
    "k8s.gcr.io/kube-proxy"@
}

/// Whether one text starts with another.
pub fn str_has_prefix(s: &str, p: &str) -> (r: bool)
    ensures
        r == p@.is_prefix_of(s@),
{
    let sn = s.unicode_len();
    let pn = p.unicode_len();
    if pn > sn {
        assert(!p@.is_prefix_of(s@));
        return false;
    }
    let mut i: usize = 0;
    while i < pn
        invariant
            i <= pn,
            pn == p@.len(),
            pn <= sn,
            sn == s@.len(),
            forall|j: int| 0 <= j < i ==> p@[j] == s@[j],
        decreases pn - i,
    {
        if s.get_char(i) != p.get_char(i) {
            assert(!p@.is_prefix_of(s@));
            return false;
        }
        i += 1;
    }
    assert(p@ =~= s@.subrange(0, pn as int));
    true
}

/// Admission check for one container: everything runs except the cluster's
/// own kube-proxy image, which this provider cannot host.
pub fn validate_container_runnable(container: &Container) -> (r: Result<(), String>)
    ensures
        match r {
            Result::Ok(()) => !(container@.image matches Option::Some(img)
                && kube_proxy_prefix().is_prefix_of(img)),
            Result::Err(e) => container@.image matches Option::Some(img)
                && kube_proxy_prefix().is_prefix_of(img) && e@ == "Cannot run kube-proxy"@,
        },
{
    match &container.image {
        Option::Some(image) => {
            if str_has_prefix(image.as_str(), "k8s.gcr.io/kube-proxy") {
                Result::Err(String::from_str("Cannot run kube-proxy"))
            } else {
                Result::Ok(())
            }
        },
        Option::None => Result::Ok(()),
    }
}

} // verus!
