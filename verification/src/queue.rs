//! The per-pod event queue and dispatcher: one bounded channel and one
//! runner per pod, resynchronization against the authoritative live set,
//! and compare-and-remove when a runner finishes.

use vstd::prelude::*;
use crate::pod::{PodKey, PodSnapshot};

verus! {

/// How many events a per-pod channel buffers.
pub const CHANNEL_BOUND: usize = 16;

/// An event on a single pod's channel.
pub enum PodEvent {
    Applied(PodSnapshot),
    Deleted(PodKey),
}

/// The bounded single-consumer channel feeding one pod's runner.
///
/// A deletion supersedes everything buffered before it: the buffer then
/// holds the deletion alone, and later updates queue behind it. On
/// overflow the oldest update is dropped; a pending deletion is never
/// dropped.
pub struct PodChannel {
    pub buf: Vec<PodEvent>,
}

/// What the buffer becomes when an event is offered.
pub open spec fn spec_channel_push(buf: Seq<PodEvent>, e: PodEvent) -> Seq<PodEvent> {
    if e is Deleted {
        seq![e]
    } else if buf.len() < CHANNEL_BOUND {
        buf.push(e)
    } else if buf.len() > 0 && buf[0] is Deleted {
        buf.remove(1).push(e)
    } else {
        buf.remove(0).push(e)
    }
}

impl PodChannel {
    /// At most `CHANNEL_BOUND` events wait, and only the front one can
    /// be a deletion.
    pub open spec fn wf(&self) -> bool {
        &&& self.buf@.len() <= CHANNEL_BOUND
        &&& forall|i: int| 1 <= i < self.buf@.len() ==> self.buf@[i] is Applied
    }

    pub fn new() -> (c: PodChannel)
        ensures
            c.wf(),
            c.buf@.len() == 0,
    {
        PodChannel { buf: Vec::new() }
    }

    /// Offer an event. Deletions preempt the buffer; updates append,
    /// dropping the oldest update when the channel is full.
    pub fn push_event(&mut self, e: PodEvent)
        requires
            old(self).wf(),
        ensures
            final(self).wf(),
            final(self).buf@ == spec_channel_push(old(self).buf@, e),
    {
        match &e {
            PodEvent::Deleted(_) => {
                self.buf.clear();
                self.buf.push(e);
                proof {
                    assert(self.buf@ =~= spec_channel_push(old(self).buf@, e));
                }
            },
            PodEvent::Applied(_) => {
                if self.buf.len() >= CHANNEL_BOUND {
                    let drop_at: usize = if matches!(self.buf[0], PodEvent::Deleted(_)) {
                        1
                    } else {
                        0
                    };
                    self.buf.remove(drop_at);
                }
                self.buf.push(e);
            },
        }
    }

    /// Take the oldest waiting event, if any.
    pub fn pop_event(&mut self) -> (r: Option<PodEvent>)
        requires
            old(self).wf(),
        ensures
            final(self).wf(),
            old(self).buf@.len() == 0 ==> r is None && *final(self) == *old(self),
            old(self).buf@.len() > 0 ==> {
                &&& r matches Some(e) && e == old(self).buf@[0]
                &&& final(self).buf@ == old(self).buf@.remove(0)
            },
    {
        if self.buf.len() == 0 {
            None
        } else {
            Some(self.buf.remove(0))
        }
    }
}

/// One live runner: the pod it owns, the identity of this incarnation,
/// and the channel its events wait on.
pub struct RunnerSlot {
    pub key: PodKey,
    pub runner_id: u64,
    pub channel: PodChannel,
}

/// Whether some slot owns the key.
pub open spec fn spec_has_key(entries: Seq<RunnerSlot>, key: PodKey) -> bool {
    exists|i: int| 0 <= i < entries.len() && (#[trigger] entries[i]).key.key_eq_spec(&key)
}

/// Whether some pod in the list carries the key.
pub open spec fn spec_pods_have_key(pods: Seq<PodSnapshot>, key: PodKey) -> bool {
    exists|i: int| 0 <= i < pods.len() && (#[trigger] pods[i]).key.key_eq_spec(&key)
}

/// A resynchronization starts at most one runner per listed pod.
pub proof fn lemma_fresh_pods_len(pods: Seq<PodSnapshot>, entries: Seq<RunnerSlot>)
    ensures
        spec_fresh_pods(pods, entries).len() <= pods.len(),
    decreases pods.len(),
{
    if pods.len() > 0 {
        lemma_fresh_pods_len(pods.drop_last(), entries);
    }
}

/// The pods of `pods`, in order, whose keys no slot of `entries` owns:
/// the pods a resynchronization must start runners for.
pub open spec fn spec_fresh_pods(pods: Seq<PodSnapshot>, entries: Seq<RunnerSlot>) -> Seq<
    PodSnapshot,
>
    decreases pods.len(),
{
    if pods.len() == 0 {
        Seq::empty()
    } else {
        let rest = spec_fresh_pods(pods.drop_last(), entries);
        if spec_has_key(entries, pods.last().key) {
            rest
        } else {
            rest.push(pods.last())
        }
    }
}

/// No two pods of the list share a key.
pub open spec fn spec_distinct_keys(pods: Seq<PodSnapshot>) -> bool {
    forall|i: int, j: int|
        0 <= i < j < pods.len() ==> !(#[trigger] pods[i]).key.key_eq_spec(&(#[trigger] pods[j]).key)
}

/// The dispatcher: a map from pod key to its single runner, with the
/// runner identities it has handed out.
pub struct Queue {
    pub entries: Vec<RunnerSlot>,
    pub next_runner_id: u64,
}

impl Queue {
    /// No key is owned by two slots, every channel is well-formed, and
    /// every handed-out runner identity is below the next one.
    pub open spec fn wf(&self) -> bool {
        &&& forall|i: int, j: int|
            0 <= i < j < self.entries@.len() ==> !(#[trigger] self.entries@[i]).key.key_eq_spec(
                &(#[trigger] self.entries@[j]).key,
            )
        &&& forall|i: int| 0 <= i < self.entries@.len() ==> (#[trigger] self.entries@[i]).channel.wf()
        &&& forall|i: int|
            0 <= i < self.entries@.len() ==> (#[trigger] self.entries@[i]).runner_id
                < self.next_runner_id
    }

    pub fn new() -> (q: Queue)
        ensures
            q.wf(),
            q.entries@.len() == 0,
    {
        Queue { entries: Vec::new(), next_runner_id: 0 }
    }

    /// The slot owning the key, if any; under `wf` it is unique.
    fn find_entry(&self, key: &PodKey) -> (r: Option<usize>)
        ensures
            match r {
                Some(i) => i < self.entries@.len() && self.entries@[i as int].key.key_eq_spec(key),
                None => !spec_has_key(self.entries@, *key),
            },
    {
        let mut i: usize = 0;
        while i < self.entries.len()
            invariant
                0 <= i <= self.entries@.len(),
                forall|j: int|
                    0 <= j < i ==> !(#[trigger] self.entries@[j]).key.key_eq_spec(key),
            decreases self.entries@.len() - i,
        {
            if self.entries[i].key == *key {
                return Some(i);
            }
            i = i + 1;
        }
        None
    }

    /// Route a pod update to its runner, creating channel and runner on
    /// the first update for the key.
    pub fn enqueue_applied(&mut self, p: PodSnapshot)
        requires
            old(self).wf(),
            old(self).next_runner_id < u64::MAX,
        ensures
            final(self).wf(),
            spec_has_key(old(self).entries@, p.key) ==> {
                &&& final(self).entries@.len() == old(self).entries@.len()
                &&& final(self).next_runner_id == old(self).next_runner_id
                &&& forall|i: int|
                    0 <= i < old(self).entries@.len() && !(#[trigger] old(
                        self,
                    ).entries@[i]).key.key_eq_spec(&p.key) ==> final(self).entries@[i] == old(
                        self,
                    ).entries@[i]
                &&& forall|i: int|
                    0 <= i < old(self).entries@.len() && (#[trigger] old(
                        self,
                    ).entries@[i]).key.key_eq_spec(&p.key) ==> {
                        &&& final(self).entries@[i].key == old(self).entries@[i].key
                        &&& final(self).entries@[i].runner_id == old(self).entries@[i].runner_id
                        &&& final(self).entries@[i].channel.buf@ == spec_channel_push(
                            old(self).entries@[i].channel.buf@,
                            PodEvent::Applied(p),
                        )
                    }
            },
            !spec_has_key(old(self).entries@, p.key) ==> {
                &&& final(self).entries@.len() == old(self).entries@.len() + 1
                &&& forall|i: int|
                    0 <= i < old(self).entries@.len() ==> final(self).entries@[i] == old(
                        self,
                    ).entries@[i]
                &&& final(self).entries@.last().key.key_eq_spec(&p.key)
                &&& final(self).entries@.last().runner_id == old(self).next_runner_id
                &&& final(self).entries@.last().channel.buf@.len() == 1
                &&& final(self).entries@.last().channel.buf@[0] == PodEvent::Applied(p)
                &&& final(self).next_runner_id == old(self).next_runner_id + 1
            },
    {
        match self.find_entry(&p.key) {
            Some(i) => {
                self.entries[i].channel.push_event(PodEvent::Applied(p));
            },
            None => {
                let key = p.key.clone_key();
                let mut channel = PodChannel::new();
                channel.push_event(PodEvent::Applied(p));
                let runner_id = self.next_runner_id;
                self.next_runner_id = self.next_runner_id + 1;
                self.entries.push(RunnerSlot { key, runner_id, channel });
            },
        }
    }

    /// Route a deletion to its runner; a deletion for an unknown pod is
    /// a no-op.
    pub fn enqueue_deleted(&mut self, key: &PodKey)
        requires
            old(self).wf(),
        ensures
            final(self).wf(),
            final(self).entries@.len() == old(self).entries@.len(),
            final(self).next_runner_id == old(self).next_runner_id,
            forall|i: int|
                0 <= i < old(self).entries@.len() && !(#[trigger] old(
                    self,
                ).entries@[i]).key.key_eq_spec(key) ==> final(self).entries@[i] == old(
                    self,
                ).entries@[i],
            forall|i: int|
                0 <= i < old(self).entries@.len() && (#[trigger] old(
                    self,
                ).entries@[i]).key.key_eq_spec(key) ==> {
                    &&& final(self).entries@[i].key == old(self).entries@[i].key
                    &&& final(self).entries@[i].runner_id == old(self).entries@[i].runner_id
                    &&& final(self).entries@[i].channel.buf@.len() == 1
                    &&& final(self).entries@[i].channel.buf@[0] matches PodEvent::Deleted(k)
                        && k.key_eq_spec(key)
                },
    {
        match self.find_entry(key) {
            Some(i) => {
                self.entries[i].channel.push_event(PodEvent::Deleted(key.clone_key()));
            },
            None => {},
        }
    }

    /// Whether any of the first `n` slots owns the key.
    fn key_in_prefix(entries: &Vec<RunnerSlot>, n: usize, key: &PodKey) -> (r: bool)
        requires
            n <= entries@.len(),
        ensures
            r == spec_has_key(entries@.take(n as int), *key),
    {
        let mut i: usize = 0;
        while i < n
            invariant
                0 <= i <= n <= entries@.len(),
                forall|j: int| 0 <= j < i ==> !(#[trigger] entries@[j]).key.key_eq_spec(key),
            decreases n - i,
        {
            if entries[i].key == *key {
                proof {
                    assert(entries@.take(n as int)[i as int].key.key_eq_spec(key));
                }
                return true;
            }
            i = i + 1;
        }
        proof {
            assert forall|j: int| 0 <= j < n implies !(#[trigger] entries@.take(
                n as int,
            )[j]).key.key_eq_spec(key) by {
                assert(entries@.take(n as int)[j] == entries@[j]);
            }
        }
        false
    }

    /// Whether any pod of the list carries the key.
    fn pods_contain(pods: &Vec<PodSnapshot>, key: &PodKey) -> (r: bool)
        ensures
            r == spec_pods_have_key(pods@, *key),
    {
        let mut i: usize = 0;
        while i < pods.len()
            invariant
                0 <= i <= pods@.len(),
                forall|j: int| 0 <= j < i ==> !(#[trigger] pods@[j]).key.key_eq_spec(key),
            decreases pods@.len() - i,
        {
            if pods[i].key == *key {
                return true;
            }
            i = i + 1;
        }
        false
    }

    /// Reconcile the known pods against the authoritative live list.
    /// Runners for pods that vanished observe a synthesized deletion;
    /// runners for new pods are started; runners for pods present in
    /// both keep their slot, identity and channel untouched.
    pub fn resync(&mut self, pods: Vec<PodSnapshot>)
        requires
            old(self).wf(),
            spec_distinct_keys(pods@),
            old(self).next_runner_id + pods@.len() <= u64::MAX,
        ensures
            final(self).wf(),
            final(self).entries@.len() == old(self).entries@.len() + spec_fresh_pods(
                pods@,
                old(self).entries@,
            ).len(),
            final(self).next_runner_id == old(self).next_runner_id + spec_fresh_pods(
                pods@,
                old(self).entries@,
            ).len(),
            forall|i: int|
                0 <= i < old(self).entries@.len() && spec_pods_have_key(
                    pods@,
                    (#[trigger] old(self).entries@[i]).key,
                ) ==> final(self).entries@[i] == old(self).entries@[i],
            forall|i: int|
                0 <= i < old(self).entries@.len() && !spec_pods_have_key(
                    pods@,
                    (#[trigger] old(self).entries@[i]).key,
                ) ==> {
                    &&& final(self).entries@[i].key == old(self).entries@[i].key
                    &&& final(self).entries@[i].runner_id == old(self).entries@[i].runner_id
                    &&& final(self).entries@[i].channel.buf@.len() == 1
                    &&& final(self).entries@[i].channel.buf@[0] matches PodEvent::Deleted(k)
                        && k.key_eq_spec(&old(self).entries@[i].key)
                },
            forall|j: int|
                0 <= j < spec_fresh_pods(pods@, old(self).entries@).len() ==> {
                    let fresh = spec_fresh_pods(pods@, old(self).entries@);
                    let slot = #[trigger] final(self).entries@[old(self).entries@.len() + j];
                    &&& slot.key.key_eq_spec(&fresh[j].key)
                    &&& slot.runner_id == old(self).next_runner_id + j
                    &&& slot.channel.buf@.len() == 1
                    &&& slot.channel.buf@[0] == PodEvent::Applied(fresh[j])
                },
    {
        let old_len = self.entries.len();
        let ghost old_entries = self.entries@;
        let ghost old_next = self.next_runner_id;

        // Synthesize a deletion for every runner whose pod vanished.
        let mut i: usize = 0;
        while i < old_len
            invariant
                0 <= i <= old_len == self.entries@.len() == old_entries.len(),
                self.next_runner_id == old_next,
                forall|j: int| i <= j < old_entries.len() ==> self.entries@[j] == old_entries[j],
                forall|j: int|
                    0 <= j < i && spec_pods_have_key(pods@, (#[trigger] old_entries[j]).key)
                        ==> self.entries@[j] == old_entries[j],
                forall|j: int|
                    0 <= j < i && !spec_pods_have_key(pods@, (#[trigger] old_entries[j]).key) ==> {
                        &&& self.entries@[j].key == old_entries[j].key
                        &&& self.entries@[j].runner_id == old_entries[j].runner_id
                        &&& self.entries@[j].channel.buf@.len() == 1
                        &&& self.entries@[j].channel.buf@[0] matches PodEvent::Deleted(k)
                            && k.key_eq_spec(&old_entries[j].key)
                    },
                forall|j: int| 0 <= j < old_entries.len() ==> (#[trigger] self.entries@[j]).key
                    == old_entries[j].key,
                self.wf(),
            decreases old_len - i,
        {
            if !Self::pods_contain(&pods, &self.entries[i].key) {
                let k = self.entries[i].key.clone_key();
                let mut channel = PodChannel::new();
                channel.push_event(PodEvent::Deleted(k));
                self.entries[i].channel = channel;
            }
            i = i + 1;
        }

        // Start a runner for every pod no slot owns yet.
        let ghost after_deletes = self.entries@;
        let mut rest = pods;
        let ghost all_pods = rest@;
        let mut done: usize = 0;
        proof {
            assert(rest@.len() == rest.len());
        }
        while rest.len() > 0
            invariant
                0 <= done <= all_pods.len() <= usize::MAX,
                rest@ =~= all_pods.skip(done as int),
                old_len == old_entries.len() == after_deletes.len(),
                spec_distinct_keys(all_pods),
                forall|j: int| 0 <= j < old_entries.len() ==> (#[trigger] after_deletes[j]).key
                    == old_entries[j].key,
                self.entries@.len() == old_len + spec_fresh_pods(
                    all_pods.take(done as int),
                    old_entries,
                ).len(),
                self.next_runner_id == old_next + spec_fresh_pods(
                    all_pods.take(done as int),
                    old_entries,
                ).len(),
                old_next + all_pods.len() <= u64::MAX,
                forall|j: int| 0 <= j < old_len ==> self.entries@[j] == after_deletes[j],
                forall|j: int|
                    0 <= j < spec_fresh_pods(all_pods.take(done as int), old_entries).len() ==> {
                        let fresh = spec_fresh_pods(all_pods.take(done as int), old_entries);
                        let slot = #[trigger] self.entries@[old_len + j];
                        &&& slot.key.key_eq_spec(&fresh[j].key)
                        &&& slot.runner_id == old_next + j
                        &&& slot.channel.buf@.len() == 1
                        &&& slot.channel.buf@[0] == PodEvent::Applied(fresh[j])
                    },
                forall|j: int|
                    0 <= j < spec_fresh_pods(all_pods.take(done as int), old_entries).len()
                        ==> exists|m: int|
                        0 <= m < done && all_pods[m] == #[trigger] spec_fresh_pods(
                            all_pods.take(done as int),
                            old_entries,
                        )[j],
                self.wf(),
            decreases rest@.len(),
        {
            let p = rest.remove(0);
            proof {
                assert(all_pods[done as int] == p);
                assert(all_pods.take(done as int + 1).drop_last() =~= all_pods.take(done as int));
                assert(all_pods.take(done as int + 1).last() == p);
            }
            let ghost fresh_before = spec_fresh_pods(all_pods.take(done as int), old_entries);
            if !Self::key_in_prefix(&self.entries, old_len, &p.key) {
                proof {
                    // The prefix carries the old keys, so the pod is fresh.
                    assert forall|m: int| 0 <= m < old_entries.len() implies !(
                    #[trigger] old_entries[m]).key.key_eq_spec(&p.key) by {
                        assert(self.entries@.take(old_len as int)[m] == self.entries@[m]);
                        assert(self.entries@[m] == after_deletes[m]);
                        assert(after_deletes[m].key == old_entries[m].key);
                    }
                    assert(!spec_has_key(old_entries, p.key));
                    lemma_fresh_pods_len(all_pods.take(done as int), old_entries);
                }
                let key = p.key.clone_key();
                let mut channel = PodChannel::new();
                channel.push_event(PodEvent::Applied(p));
                let runner_id = self.next_runner_id;
                self.next_runner_id = self.next_runner_id + 1;
                proof {
                    // The new key collides with no existing slot: not with
                    // the old ones, and not with other fresh pods.
                    assert forall|m: int| 0 <= m < self.entries@.len() implies !(
                    #[trigger] self.entries@[m]).key.key_eq_spec(&key) by {
                        if m < old_len {
                            assert(self.entries@[m] == after_deletes[m]);
                            assert(after_deletes[m].key == old_entries[m].key);
                            assert(!old_entries[m].key.key_eq_spec(&p.key));
                        } else {
                            let j = m - old_len;
                            assert(self.entries@[old_len + j] == self.entries@[m]);
                            assert(self.entries@[old_len + j].key.key_eq_spec(
                                &fresh_before[j].key,
                            ));
                            assert(exists|w: int|
                                0 <= w < done && all_pods[w] == #[trigger] spec_fresh_pods(
                                    all_pods.take(done as int),
                                    old_entries,
                                )[j]);
                            let w = choose|w: int|
                                0 <= w < done && all_pods[w] == fresh_before[j];
                            assert(!all_pods[w].key.key_eq_spec(&all_pods[done as int].key));
                        }
                    }
                }
                self.entries.push(RunnerSlot { key, runner_id, channel });
            } else {
                proof {
                    assert forall|m: int| 0 <= m < old_entries.len() && (
                    #[trigger] old_entries[m]).key.key_eq_spec(&p.key) implies spec_has_key(
                        old_entries,
                        p.key,
                    ) by {}
                    let w = choose|w: int|
                        0 <= w < old_len && (#[trigger] self.entries@.take(
                            old_len as int,
                        )[w]).key.key_eq_spec(&p.key);
                    assert(self.entries@.take(old_len as int)[w] == self.entries@[w]);
                    assert(self.entries@[w] == after_deletes[w]);
                    assert(after_deletes[w].key == old_entries[w].key);
                    assert(old_entries[w].key.key_eq_spec(&p.key));
                    assert(spec_has_key(old_entries, p.key));
                }
            }
            proof {
                assert(all_pods.skip(done as int).len() > 0);
                assert(done < all_pods.len());
            }
            done = done + 1;
        }
        proof {
            assert(all_pods.take(all_pods.len() as int) =~= all_pods);
        }
    }

    /// A runner that finished removes its own slot — but only while the
    /// slot still names this incarnation, so a racing re-creation of the
    /// pod is left alone.
    pub fn runner_completed(&mut self, key: &PodKey, runner_id: u64)
        requires
            old(self).wf(),
        ensures
            final(self).wf(),
            final(self).next_runner_id == old(self).next_runner_id,
            forall|i: int|
                0 <= i < old(self).entries@.len() && (#[trigger] old(
                    self,
                ).entries@[i]).key.key_eq_spec(key) && old(self).entries@[i].runner_id == runner_id
                    ==> final(self).entries@ == old(self).entries@.remove(i),
            (forall|i: int|
                0 <= i < old(self).entries@.len() ==> !((#[trigger] old(
                    self,
                ).entries@[i]).key.key_eq_spec(key) && old(self).entries@[i].runner_id == runner_id))
                ==> *final(self) == *old(self),
    {
        match self.find_entry(key) {
            Some(i) => {
                if self.entries[i].runner_id == runner_id {
                    self.entries.remove(i);
                } else {
                }
            },
            None => {},
        }
    }
}

/// At most one runner exists per pod key at any moment: two different
/// slots of a well-formed dispatcher never own the same key.
pub proof fn lemma_at_most_one_runner(q: &Queue, i: int, j: int)
    requires
        q.wf(),
        0 <= i < q.entries@.len(),
        0 <= j < q.entries@.len(),
        i != j,
    ensures
        !q.entries@[i].key.key_eq_spec(&q.entries@[j].key),
{
}

} // verus!
