//! Deferred structural mutation of the entity collection.
//!
//! During a tick no entity is removed or appended in place: indices to delete
//! and entities to append accumulate here, and one commit applies them after
//! the pass.  Scheduling a deletion twice is a no-op, so damage credited "on
//! delete" can never be credited twice.

use vstd::prelude::*;
use crate::entity::Entity;

verus! {

pub open spec fn unique_indices(s: Seq<usize>) -> bool {
    forall|i: int, j: int| 0 <= i < j < s.len() ==> s[i] != s[j]
}

/// How many of the indices `0 <= i < n` are scheduled in `del`.
pub open spec fn num_deleted_below(del: Seq<usize>, n: int) -> int
    decreases n,
{
    if n <= 0 {
        0
    } else {
        num_deleted_below(del, n - 1) + if del.contains((n - 1) as usize) {
            1int
        } else {
            0int
        }
    }
}

/// The entities of `s` whose indices are not scheduled in `del`, in order.
pub open spec fn kept_seq(s: Seq<Entity>, del: Seq<usize>) -> Seq<Entity>
    decreases s.len(),
{
    if s.len() == 0 {
        Seq::empty()
    } else {
        let prefix = kept_seq(s.drop_last(), del);
        if del.contains((s.len() - 1) as usize) {
            prefix
        } else {
            prefix.push(s.last())
        }
    }
}

proof fn lemma_kept_len(s: Seq<Entity>, del: Seq<usize>)
    ensures
        kept_seq(s, del).len() == s.len() - num_deleted_below(del, s.len() as int),
    decreases s.len(),
{
    if s.len() > 0 {
        lemma_kept_len(s.drop_last(), del);
    }
}

proof fn lemma_num_deleted_empty(del: Seq<usize>, n: int)
    requires
        del.len() == 0,
        0 <= n,
    ensures
        num_deleted_below(del, n) == 0,
    decreases n,
{
    if n > 0 {
        lemma_num_deleted_empty(del, n - 1);
    }
}

proof fn lemma_num_deleted_push(d0: Seq<usize>, d: usize, n: int)
    requires
        !d0.contains(d),
        0 <= n <= usize::MAX + 1,
    ensures
        num_deleted_below(d0.push(d), n) == num_deleted_below(d0, n) + if (d as int) < n {
            1int
        } else {
            0int
        },
    decreases n,
{
    let del = d0.push(d);
    if n > 0 {
        lemma_num_deleted_push(d0, d, n - 1);
        let m = (n - 1) as usize;
        if del.contains(m) {
            let i = choose|i: int| 0 <= i < del.len() && del[i] == m;
            if i < d0.len() {
                assert(d0[i] == m);
            } else {
                assert(m == d);
            }
        }
        if d0.contains(m) {
            let i = choose|i: int| 0 <= i < d0.len() && d0[i] == m;
            assert(del[i] == m);
        }
        if m == d {
            assert(del[d0.len() as int] == m);
        }
        assert(del.contains(m) == (d0.contains(m) || m == d));
        assert(num_deleted_below(del, n) == num_deleted_below(del, n - 1) + if del.contains(m) {
            1int
        } else {
            0int
        });
    }
}

/// With every scheduled index unique and below `n`, exactly `del.len()`
/// of the first `n` indices are scheduled.
proof fn lemma_num_deleted_all(del: Seq<usize>, n: int)
    requires
        unique_indices(del),
        forall|i: int| 0 <= i < del.len() ==> (del[i] as int) < n,
        0 <= n <= usize::MAX + 1,
    ensures
        num_deleted_below(del, n) == del.len(),
    decreases del.len(),
{
    if del.len() == 0 {
        lemma_num_deleted_empty(del, n);
    } else {
        let d0 = del.drop_last();
        let d = del.last();
        assert(!d0.contains(d)) by {
            if d0.contains(d) {
                let i = choose|i: int| 0 <= i < d0.len() && d0[i] == d;
                assert(del[i] == del[del.len() - 1]);
            }
        }
        lemma_num_deleted_all(d0, n);
        lemma_num_deleted_push(d0, d, n);
        assert(del =~= d0.push(d));
    }
}

/// The committed collection is the previous one without the scheduled
/// indices, followed by the appends; its size is previous size minus the
/// number of distinct scheduled deletions plus the number of appends.
pub proof fn lemma_apply_deferred_size(s: Seq<Entity>, del: Seq<usize>, app: Seq<Entity>)
    requires
        unique_indices(del),
        forall|i: int| 0 <= i < del.len() ==> (del[i] as int) < s.len(),
        s.len() <= usize::MAX,
    ensures
        (kept_seq(s, del) + app).len() == s.len() - del.len() + app.len(),
{
    lemma_kept_len(s, del);
    lemma_num_deleted_all(del, s.len() as int);
}

/// Every element kept by a commit was an element of the previous
/// collection, so a property of all previous elements survives.
pub proof fn lemma_kept_seq_all(s: Seq<Entity>, del: Seq<usize>, p: spec_fn(Entity) -> bool)
    requires
        forall|i: int| 0 <= i < s.len() ==> p(#[trigger] s[i]),
    ensures
        forall|i: int| 0 <= i < kept_seq(s, del).len() ==> p(#[trigger] kept_seq(s, del)[i]),
    decreases s.len(),
{
    if s.len() > 0 {
        assert(forall|i: int| 0 <= i < s.drop_last().len() ==> p(#[trigger] s.drop_last()[i]));
        lemma_kept_seq_all(s.drop_last(), del, p);
        let k0 = kept_seq(s, del);
        let kp = kept_seq(s.drop_last(), del);
        assert forall|i: int| 0 <= i < k0.len() implies p(k0[i]) by {
            if i < kp.len() {
                assert(k0[i] == kp[i]);
            } else {
                assert(k0[i] == s.last());
                assert(p(s[s.len() - 1]));
            }
        }
    }
}

/// `s1` begins with `s0`: appending never rewrites what was already there.
pub open spec fn seq_extends<A>(s0: Seq<A>, s1: Seq<A>) -> bool {
    &&& s1.len() >= s0.len()
    &&& forall|i: int| 0 <= i < s0.len() ==> s1[i] == #[trigger] s0[i]
}

/// The per-tick accumulators for structural mutation.
pub struct Deferred {
    pub deletes: Vec<usize>,
    pub appends: Vec<Entity>,
}

impl Deferred {
    /// Scheduled indices are unique and all within `bound`.
    pub open spec fn wf(&self, bound: int) -> bool {
        &&& unique_indices(self.deletes@)
        &&& forall|i: int| 0 <= i < self.deletes@.len() ==> (self.deletes@[i] as int) < bound
    }

    pub fn new() -> (d: Deferred)
        ensures
            d.deletes@ == Seq::<usize>::empty(),
            d.appends@ == Seq::<Entity>::empty(),
    {
        Deferred { deletes: Vec::new(), appends: Vec::new() }
    }

    /// Whether `idx` is already scheduled for deletion.
    pub fn is_scheduled(&self, idx: usize) -> (b: bool)
        ensures
            b == self.deletes@.contains(idx),
    {
        let mut i: usize = 0;
        while i < self.deletes.len()
            invariant
                i <= self.deletes@.len(),
                forall|j: int| 0 <= j < i ==> self.deletes@[j] != idx,
            decreases self.deletes@.len() - i,
        {
            if self.deletes[i] == idx {
                return true;
            }
            i = i + 1;
        }
        false
    }

    /// Schedule `idx` for deletion; a second request for the same index
    /// changes nothing.
    pub fn schedule_delete(&mut self, idx: usize)
        ensures
            final(self).appends == old(self).appends,
            old(self).deletes@.contains(idx) ==> final(self).deletes == old(self).deletes,
            !old(self).deletes@.contains(idx) ==> final(self).deletes@ == old(self).deletes@.push(
                idx,
            ),
            final(self).deletes@.contains(idx),
            forall|b: int| old(self).wf(b) && (idx as int) < b ==> final(self).wf(b),
    {
        if !self.is_scheduled(idx) {
            self.deletes.push(idx);
            proof {
                assert(self.deletes@[self.deletes@.len() - 1] == idx);
            }
        }
    }

    /// Schedule an entity to be appended after the pass.
    pub fn schedule_append(&mut self, e: Entity)
        ensures
            final(self).deletes == old(self).deletes,
            final(self).appends@ == old(self).appends@.push(e),
    {
        self.appends.push(e);
    }
}

/// Commit the deferred mutations: drop every scheduled index, keep the rest
/// in order, then concatenate the appends.  `tracked_index` is an external
/// index into the collection (the controlled combatant's), shifted down by
/// the number of deletions below it so that it keeps naming the same entity.
pub fn apply_deferred(entities: &mut Vec<Entity>, ops: &Deferred, tracked_index: &mut usize)
    requires
        ops.wf(old(entities)@.len() as int),
    ensures
        final(entities)@ == kept_seq(old(entities)@, ops.deletes@) + ops.appends@,
        final(entities)@.len() == old(entities)@.len() - ops.deletes@.len() + ops.appends@.len(),
        *final(tracked_index) == *old(tracked_index) - num_deleted_below(
            ops.deletes@,
            *old(tracked_index) as int,
        ),
        *final(tracked_index) <= *old(tracked_index),
{
    let ghost s0 = entities@;
    let n = entities.len();
    let mut out: Vec<Entity> = Vec::new();
    let mut i: usize = 0;
    while i < n
        invariant
            n == s0.len(),
            entities@ == s0,
            i <= n,
            out@ == kept_seq(s0.subrange(0, i as int), ops.deletes@),
        decreases n - i,
    {
        if !ops.is_scheduled(i) {
            out.push(entities[i]);
        }
        proof {
            assert(s0.subrange(0, i + 1).drop_last() =~= s0.subrange(0, i as int));
            assert(s0.subrange(0, i + 1).last() == s0[i as int]);
        }
        i = i + 1;
    }
    proof {
        assert(s0.subrange(0, n as int) =~= s0);
        lemma_kept_len(s0, ops.deletes@);
        lemma_num_deleted_all(ops.deletes@, n as int);
    }
    let mut j: usize = 0;
    while j < ops.appends.len()
        invariant
            j <= ops.appends@.len(),
            out@ == kept_seq(s0, ops.deletes@) + ops.appends@.subrange(0, j as int),
        decreases ops.appends@.len() - j,
    {
        out.push(ops.appends[j]);
        proof {
            assert(ops.appends@.subrange(0, j + 1) =~= ops.appends@.subrange(0, j as int).push(
                ops.appends@[j as int],
            ));
        }
        j = j + 1;
    }
    proof {
        assert(ops.appends@.subrange(0, ops.appends@.len() as int) =~= ops.appends@);
    }
    *entities = out;
    let t: usize = *tracked_index;
    let mut shift: usize = 0;
    let mut m: usize = 0;
    while m < t
        invariant
            m <= t,
            shift <= m,
            shift == num_deleted_below(ops.deletes@, m as int),
        decreases t - m,
    {
        if ops.is_scheduled(m) {
            shift = shift + 1;
        }
        m = m + 1;
    }
    *tracked_index = t - shift;
}

} // verus!
