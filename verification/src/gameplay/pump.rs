//! The per-frame pump over a queue of pending requests.
//!
//! Once per frame the caller asks every pending task how it stands and
//! hands the answers in, one per pending request in queue order. The pump
//! takes the complete requests out of the queue, in queue order, and leaves
//! the others where they were, each with what its task said of its
//! progress. A request without an answer counts as not complete.

use vstd::prelude::*;
use vstd::multiset::Multiset;
use vstd::seq_lib::lemma_multiset_commutative;
use crate::mt::{Progress, TaskStatus};

verus! {

/// The flags say that the request at position `i` is complete.
pub open spec fn is_complete(flags: Seq<bool>, i: int) -> bool {
    0 <= i < flags.len() && flags[i]
}

/// The complete requests from position `k` on, in queue order.
pub open spec fn ready_from<T>(queue: Seq<T>, flags: Seq<bool>, k: int) -> Seq<T>
    decreases queue.len() - k,
{
    if k < 0 || k >= queue.len() {
        Seq::empty()
    } else if is_complete(flags, k) {
        seq![queue[k]] + ready_from(queue, flags, k + 1)
    } else {
        ready_from(queue, flags, k + 1)
    }
}

/// The requests from position `k` on that are not complete, in queue order.
pub open spec fn pending_from<T>(queue: Seq<T>, flags: Seq<bool>, k: int) -> Seq<T>
    decreases queue.len() - k,
{
    if k < 0 || k >= queue.len() {
        Seq::empty()
    } else if is_complete(flags, k) {
        pending_from(queue, flags, k + 1)
    } else {
        seq![queue[k]] + pending_from(queue, flags, k + 1)
    }
}

/// The requests that one frame takes out of the queue.
pub open spec fn ready_of<T>(queue: Seq<T>, flags: Seq<bool>) -> Seq<T> {
    ready_from(queue, flags, 0)
}

/// The requests that one frame leaves in the queue.
pub open spec fn pending_of<T>(queue: Seq<T>, flags: Seq<bool>) -> Seq<T> {
    pending_from(queue, flags, 0)
}

/// The queue after the frames `frames`, each given by its flags.
pub open spec fn pending_after<T>(queue: Seq<T>, frames: Seq<Seq<bool>>) -> Seq<T>
    decreases frames.len(),
{
    if frames.len() == 0 {
        queue
    } else {
        pending_of(pending_after(queue, frames.drop_last()), frames.last())
    }
}

/// Everything that the frames `frames` took out of the queue, in the order
/// in which it was taken out.
pub open spec fn integrated_after<T>(queue: Seq<T>, frames: Seq<Seq<bool>>) -> Seq<T>
    decreases frames.len(),
{
    if frames.len() == 0 {
        Seq::empty()
    } else {
        integrated_after(queue, frames.drop_last()) + ready_of(
            pending_after(queue, frames.drop_last()),
            frames.last(),
        )
    }
}

/// Only the flags of positions in the queue matter, and only whether they
/// say complete.
proof fn lemma_same_flags<T>(queue: Seq<T>, a: Seq<bool>, b: Seq<bool>, k: int)
    requires
        forall|i: int| 0 <= i < queue.len() ==> is_complete(a, i) == is_complete(b, i),
    ensures
        ready_from(queue, a, k) == ready_from(queue, b, k),
        pending_from(queue, a, k) == pending_from(queue, b, k),
    decreases queue.len() - k,
{
    if 0 <= k < queue.len() {
        lemma_same_flags(queue, a, b, k + 1);
    }
}

/// Where nothing from `k` on is complete, nothing is taken and all stays.
proof fn lemma_none_complete<T>(queue: Seq<T>, flags: Seq<bool>, k: int)
    requires
        0 <= k <= queue.len(),
        forall|i: int| k <= i < queue.len() ==> !is_complete(flags, i),
    ensures
        ready_from(queue, flags, k) == Seq::<T>::empty(),
        pending_from(queue, flags, k) == queue.subrange(k, queue.len() as int),
    decreases queue.len() - k,
{
    if k < queue.len() {
        lemma_none_complete(queue, flags, k + 1);
        assert(queue.subrange(k, queue.len() as int) =~= seq![queue[k]] + queue.subrange(
            k + 1,
            queue.len() as int,
        ));
    } else {
        assert(queue.subrange(k, queue.len() as int) =~= Seq::<T>::empty());
    }
}

/// Past a position that was removed from both, queue and flags read as
/// before, one place further on.
proof fn lemma_shift<T>(queue: Seq<T>, flags: Seq<bool>, i: int, j: int)
    requires
        0 <= i < queue.len(),
        flags.len() == queue.len(),
        i <= j,
    ensures
        ready_from(queue, flags, j + 1) == ready_from(queue.remove(i), flags.remove(i), j),
        pending_from(queue, flags, j + 1) == pending_from(queue.remove(i), flags.remove(i), j),
    decreases queue.len() - j,
{
    if j + 1 < queue.len() {
        lemma_shift(queue, flags, i, j + 1);
    }
}

/// Taking the first complete request out of the queue takes it off the
/// front of what is ready and changes nothing in what is pending.
proof fn lemma_remove_first_complete<T>(queue: Seq<T>, flags: Seq<bool>, i: int, k: int)
    requires
        0 <= k <= i < queue.len(),
        flags.len() == queue.len(),
        flags[i],
        forall|j: int| k <= j < i ==> !flags[j],
    ensures
        ready_from(queue, flags, k) == seq![queue[i]] + ready_from(
            queue.remove(i),
            flags.remove(i),
            k,
        ),
        pending_from(queue, flags, k) == pending_from(queue.remove(i), flags.remove(i), k),
    decreases i - k,
{
    if k == i {
        lemma_shift(queue, flags, i, i);
    } else {
        lemma_remove_first_complete(queue, flags, i, k + 1);
    }
}

/// Takes the complete requests out of `queue`.
///
/// The queue is scanned from its front for the first complete request; that
/// one is taken out and the scan starts again, until a scan finds none. So
/// the requests come out in queue order, and what stays keeps its order.
pub fn take_complete<T>(queue: &mut Vec<T>, complete: &Vec<bool>) -> (ready: Vec<T>)
    ensures
        ready@ == ready_of(old(queue)@, complete@),
        final(queue)@ == pending_of(old(queue)@, complete@),
{
    let mut flags: Vec<bool> = Vec::new();
    let mut n: usize = 0;
    while n < queue.len()
        invariant
            n <= queue.len(),
            flags.len() == n,
            forall|i: int| 0 <= i < n ==> flags[i] == is_complete(complete@, i),
            queue@ == old(queue)@,
        decreases queue.len() - n,
    {
        flags.push(n < complete.len() && complete[n]);
        n += 1;
    }
    proof {
        lemma_same_flags(queue@, flags@, complete@, 0);
    }
    let mut ready: Vec<T> = Vec::new();
    loop
        invariant
            flags.len() == queue.len(),
            ready@ + ready_of(queue@, flags@) == ready_of(old(queue)@, complete@),
            pending_of(queue@, flags@) == pending_of(old(queue)@, complete@),
        ensures
            ready@ == ready_of(old(queue)@, complete@),
            queue@ == pending_of(old(queue)@, complete@),
        decreases queue.len(),
    {
        let mut found: Option<usize> = None;
        let mut i: usize = 0;
        while i < queue.len()
            invariant_except_break
                found is None,
                forall|j: int| 0 <= j < i ==> !flags[j],
            invariant
                i <= queue.len(),
                flags.len() == queue.len(),
            ensures
                flags.len() == queue.len(),
                match found {
                    Some(at) => at < queue.len() && flags[at as int] && forall|j: int|
                        0 <= j < at ==> !flags[j],
                    None => forall|j: int| 0 <= j < queue.len() ==> !flags[j],
                },
            decreases queue.len() - i,
        {
            if flags[i] {
                found = Some(i);
                break ;
            }
            i += 1;
        }
        match found {
            None => {
                proof {
                    lemma_none_complete(queue@, flags@, 0);
                    assert(queue@.subrange(0, queue@.len() as int) =~= queue@);
                    assert(ready@ + Seq::<T>::empty() =~= ready@);
                }
                break ;
            },
            Some(at) => {
                proof {
                    lemma_remove_first_complete(queue@, flags@, at as int, 0);
                }
                let ghost taken = ready@;
                let ghost rest = ready_of(queue@.remove(at as int), flags@.remove(at as int));
                let request = queue.remove(at);
                flags.remove(at);
                ready.push(request);
                assert(ready@ + rest =~= taken + (seq![request] + rest));
            },
        }
    }
    ready
}

/// What one frame of the pump hands back.
#[derive(Debug)]
pub struct Pumped<T> {
    /// The requests that are complete, in queue order. They have left the
    /// queue.
    pub ready: Vec<T>,
    /// For each request that stays in the queue, in queue order, where its
    /// task stands; `None` where no answer was handed in for it.
    pub progress: Vec<Option<Progress>>,
}

/// For each answer, whether it says complete.
pub open spec fn flags_of(statuses: Seq<TaskStatus>) -> Seq<bool> {
    Seq::new(statuses.len(), |i: int| statuses[i] is Complete)
}

/// Where the task of the request at position `i` stands, as far as the
/// answers say.
pub open spec fn progress_at(statuses: Seq<TaskStatus>, i: int) -> Option<Progress> {
    if 0 <= i < statuses.len() {
        match statuses[i] {
            TaskStatus::Pending(progress) => Some(progress),
            TaskStatus::Complete => None,
        }
    } else {
        None
    }
}

/// Where the tasks of a queue of `n` requests stand.
pub open spec fn reports_of(statuses: Seq<TaskStatus>, n: nat) -> Seq<Option<Progress>> {
    Seq::new(n, |i: int| progress_at(statuses, i))
}

/// What a frame leaves has one length, whatever it is a queue of.
proof fn lemma_pending_len<A, B>(a: Seq<A>, b: Seq<B>, flags: Seq<bool>, k: int)
    requires
        a.len() == b.len(),
    ensures
        pending_from(a, flags, k).len() == pending_from(b, flags, k).len(),
    decreases a.len() - k,
{
    if 0 <= k < a.len() {
        lemma_pending_len(a, b, flags, k + 1);
    }
}

/// One frame of the pump: takes the complete requests out of `queue`, and
/// says where the tasks of the others stand.
pub fn pump<T>(queue: &mut Vec<T>, statuses: &Vec<TaskStatus>) -> (out: Pumped<T>)
    ensures
        out.ready@ == ready_of(old(queue)@, flags_of(statuses@)),
        final(queue)@ == pending_of(old(queue)@, flags_of(statuses@)),
        out.progress@ == pending_of(
            reports_of(statuses@, old(queue)@.len()),
            flags_of(statuses@),
        ),
        out.progress@.len() == final(queue)@.len(),
{
    let mut flags: Vec<bool> = Vec::new();
    let mut reports: Vec<Option<Progress>> = Vec::new();
    let mut n: usize = 0;
    while n < queue.len()
        invariant
            n <= queue.len(),
            flags.len() == n,
            reports.len() == n,
            forall|i: int| 0 <= i < n ==> flags[i] == is_complete(flags_of(statuses@), i),
            forall|i: int| 0 <= i < n ==> reports[i] == progress_at(statuses@, i),
            queue@ == old(queue)@,
        decreases queue.len() - n,
    {
        if n < statuses.len() {
            flags.push(statuses[n].is_complete());
            reports.push(statuses[n].progress());
        } else {
            flags.push(false);
            reports.push(None);
        }
        n += 1;
    }
    proof {
        lemma_same_flags(queue@, flags@, flags_of(statuses@), 0);
        lemma_same_flags(reports@, flags@, flags_of(statuses@), 0);
        lemma_pending_len(queue@, reports@, flags_of(statuses@), 0);
        assert(reports@ =~= reports_of(statuses@, queue@.len()));
    }
    let ready = take_complete(queue, &flags);
    take_complete(&mut reports, &flags);
    Pumped { ready, progress: reports }
}

/// What a frame takes out and what it leaves are together the queue it
/// found: nothing is lost, nothing is made up, nothing is taken twice.
pub proof fn lemma_frame_conserves<T>(queue: Seq<T>, flags: Seq<bool>)
    ensures
        ready_of(queue, flags).to_multiset().add(pending_of(queue, flags).to_multiset())
            == queue.to_multiset(),
        ready_of(queue, flags).len() + pending_of(queue, flags).len() == queue.len(),
{
    lemma_conserves_from(queue, flags, 0);
    assert(queue.subrange(0, queue.len() as int) =~= queue);
}

proof fn lemma_conserves_from<T>(queue: Seq<T>, flags: Seq<bool>, k: int)
    requires
        0 <= k <= queue.len(),
    ensures
        ready_from(queue, flags, k).to_multiset().add(pending_from(queue, flags, k).to_multiset())
            == queue.subrange(k, queue.len() as int).to_multiset(),
        ready_from(queue, flags, k).len() + pending_from(queue, flags, k).len() == queue.len() - k,
    decreases queue.len() - k,
{
    broadcast use vstd::multiset::group_multiset_axioms;

    let tail = queue.subrange(k, queue.len() as int);
    if k < queue.len() {
        lemma_conserves_from(queue, flags, k + 1);
        let rest = queue.subrange(k + 1, queue.len() as int);
        let r = ready_from(queue, flags, k + 1);
        let p = pending_from(queue, flags, k + 1);
        let one = seq![queue[k]];
        assert(tail =~= one + rest);
        lemma_multiset_commutative(one, rest);
        lemma_multiset_commutative(one, r);
        lemma_multiset_commutative(one, p);
        if is_complete(flags, k) {
            assert(ready_from(queue, flags, k) == one + r);
            assert(pending_from(queue, flags, k) == p);
            assert((one + r).to_multiset().add(p.to_multiset()) =~= one.to_multiset().add(
                r.to_multiset().add(p.to_multiset()),
            ));
        } else {
            assert(ready_from(queue, flags, k) == r);
            assert(pending_from(queue, flags, k) == one + p);
            assert(r.to_multiset().add((one + p).to_multiset()) =~= one.to_multiset().add(
                r.to_multiset().add(p.to_multiset()),
            ));
        }
        assert(tail.to_multiset() =~= one.to_multiset().add(rest.to_multiset()));
    } else {
        assert(tail =~= Seq::<T>::empty());
        tail.to_multiset_ensures();
        assert(tail.to_multiset() =~= Multiset::<T>::empty());
    }
}

/// A frame in which every pending request is complete empties the queue and
/// takes the requests out in the order in which they were put in.
pub proof fn lemma_all_complete<T>(queue: Seq<T>, flags: Seq<bool>)
    requires
        forall|i: int| 0 <= i < queue.len() ==> is_complete(flags, i),
    ensures
        ready_of(queue, flags) == queue,
        pending_of(queue, flags) == Seq::<T>::empty(),
{
    lemma_all_complete_from(queue, flags, 0);
    assert(queue.subrange(0, queue.len() as int) =~= queue);
}

proof fn lemma_all_complete_from<T>(queue: Seq<T>, flags: Seq<bool>, k: int)
    requires
        0 <= k <= queue.len(),
        forall|i: int| 0 <= i < queue.len() ==> is_complete(flags, i),
    ensures
        ready_from(queue, flags, k) == queue.subrange(k, queue.len() as int),
        pending_from(queue, flags, k) == Seq::<T>::empty(),
    decreases queue.len() - k,
{
    if k < queue.len() {
        lemma_all_complete_from(queue, flags, k + 1);
        assert(queue.subrange(k, queue.len() as int) =~= seq![queue[k]] + queue.subrange(
            k + 1,
            queue.len() as int,
        ));
    } else {
        assert(queue.subrange(k, queue.len() as int) =~= Seq::<T>::empty());
    }
}

/// A frame in which no pending request is complete changes nothing.
pub proof fn lemma_nothing_complete<T>(queue: Seq<T>, flags: Seq<bool>)
    requires
        forall|i: int| 0 <= i < queue.len() ==> !is_complete(flags, i),
    ensures
        ready_of(queue, flags) == Seq::<T>::empty(),
        pending_of(queue, flags) == queue,
{
    lemma_none_complete(queue, flags, 0);
    assert(queue.subrange(0, queue.len() as int) =~= queue);
}

/// Completion of the pipeline. Whatever the frames, the requests that were
/// taken out and those still pending are together the requests that were
/// scheduled. So once the queue is empty, every scheduled request has been
/// taken out exactly once: as many as were scheduled, and the same ones.
pub proof fn lemma_pipeline_completion<T>(queue: Seq<T>, frames: Seq<Seq<bool>>)
    ensures
        integrated_after(queue, frames).to_multiset().add(
            pending_after(queue, frames).to_multiset(),
        ) == queue.to_multiset(),
        integrated_after(queue, frames).len() + pending_after(queue, frames).len() == queue.len(),
        pending_after(queue, frames).len() == 0 ==> integrated_after(queue, frames).to_multiset()
            == queue.to_multiset(),
    decreases frames.len(),
{
    broadcast use vstd::multiset::group_multiset_axioms;

    let done = integrated_after(queue, frames);
    let left = pending_after(queue, frames);
    if frames.len() == 0 {
        assert(done.to_multiset() =~= Multiset::<T>::empty()) by {
            done.to_multiset_ensures();
        }
        assert(done.to_multiset().add(left.to_multiset()) =~= queue.to_multiset());
    } else {
        let before = frames.drop_last();
        let done0 = integrated_after(queue, before);
        let left0 = pending_after(queue, before);
        let taken = ready_of(left0, frames.last());
        lemma_pipeline_completion(queue, before);
        lemma_frame_conserves(left0, frames.last());
        lemma_multiset_commutative(done0, taken);
        assert(done.to_multiset().add(left.to_multiset()) =~= queue.to_multiset());
    }
    if left.len() == 0 {
        assert(left.to_multiset() =~= Multiset::<T>::empty()) by {
            left.to_multiset_ensures();
        }
        assert(done.to_multiset() =~= done.to_multiset().add(left.to_multiset()));
    }
}

} // verus!
