//! Lifecycle of ephemeral entities: the reaper that marks them despawned
//! once they leave the domain by more than a margin, and the commit that
//! applies buffered creations and removals atomically between ticks.

use crate::domain::Domain;
use crate::entity::{Ephemeral, Lifecycle};
use vstd::prelude::*;

verus! {

/// Whether a position lies outside the domain by strictly more than
/// `margin` on any side. The effective floor is the lower y bound.
pub open spec fn out_of_bounds(px: int, py: int, d: Domain, margin: int) -> bool {
    ||| px < d.left - margin
    ||| px > d.right + margin
    ||| py < d.floor_bottom - margin
    ||| py > d.top + margin
}

/// Whether one sweep removes the entity: it must still be alive (removal
/// of an already despawned or not yet committed entity is a no-op) and out
/// of bounds by more than the margin.
pub open spec fn should_reap(e: Ephemeral, d: Domain, margin: int) -> bool {
    e.stage is Alive && out_of_bounds(e.px as int, e.py as int, d, margin)
}

/// One entity after one sweep: despawned exactly when the sweep reaps it,
/// untouched otherwise.
pub open spec fn mark_swept_one(e: Ephemeral, d: Domain, margin: int) -> Ephemeral {
    if should_reap(e, d, margin) {
        Ephemeral { stage: Lifecycle::Despawned, ..e }
    } else {
        e
    }
}

/// The whole entity list after one sweep.
pub open spec fn mark_swept(s: Seq<Ephemeral>, d: Domain, margin: int) -> Seq<Ephemeral> {
    s.map(|i: int, e: Ephemeral| mark_swept_one(e, d, margin))
}

/// The ids one sweep reports for removal, in list order.
pub open spec fn swept_ids(s: Seq<Ephemeral>, d: Domain, margin: int) -> Seq<u64>
    decreases s.len(),
{
    if s.len() == 0 {
        Seq::empty()
    } else {
        let prefix = swept_ids(s.drop_last(), d, margin);
        if should_reap(s.last(), d, margin) {
            prefix.push(s.last().id)
        } else {
            prefix
        }
    }
}

/// One reaper pass. Every live entity whose position exceeds a domain
/// bound by more than `margin` is marked despawned and its id reported,
/// in list order; every other entity, already despawned or not, is left
/// exactly as it was.
pub fn sweep(entities: &mut Vec<Ephemeral>, d: &Domain, margin: i64) -> (removed: Vec<u64>)
    requires
        d.wf(),
        0 <= margin <= crate::COORD_LIMIT,
    ensures
        final(entities)@ == mark_swept(old(entities)@, *d, margin as int),
        removed@ == swept_ids(old(entities)@, *d, margin as int),
{
    let ghost s0 = entities@;
    let mut removed: Vec<u64> = Vec::new();
    let mut i: usize = 0;
    while i < entities.len()
        invariant
            d.wf(),
            0 <= margin <= crate::COORD_LIMIT,
            i <= entities@.len(),
            entities@.len() == s0.len(),
            forall|j: int| 0 <= j < i ==> entities@[j] == mark_swept_one(s0[j], *d, margin as int),
            forall|j: int| i <= j < s0.len() ==> entities@[j] == s0[j],
            removed@ == swept_ids(s0.take(i as int), *d, margin as int),
        decreases entities@.len() - i,
    {
        let ghost prev = s0.take(i as int);
        let e = entities[i];
        let live = match e.stage {
            Lifecycle::Alive => true,
            _ => false,
        };
        if live && (e.px < d.left - margin || e.px > d.right + margin || e.py < d.floor_bottom
            - margin || e.py > d.top + margin) {
            entities[i] = Ephemeral { stage: Lifecycle::Despawned, ..e };
            removed.push(e.id);
        }
        proof {
            assert(s0.take(i + 1 as int).drop_last() =~= prev);
            assert(s0.take(i + 1 as int).last() == s0[i as int]);
        }
        i = i + 1;
    }
    proof {
        assert(s0.take(s0.len() as int) =~= s0);
        assert(entities@ =~= mark_swept(s0, *d, margin as int));
    }
    removed
}

/// Law: a sweep reports an id exactly when some entity of the list is
/// alive, out of bounds by more than the margin, and carries that id;
/// entities within bound plus margin are never removed.
pub proof fn lemma_swept_ids_iff(s: Seq<Ephemeral>, d: Domain, margin: int, id: u64)
    ensures
        swept_ids(s, d, margin).contains(id) <==> exists|j: int|
            0 <= j < s.len() && should_reap(#[trigger] s[j], d, margin) && s[j].id == id,
    decreases s.len(),
{
    if s.len() > 0 {
        lemma_swept_ids_iff(s.drop_last(), d, margin, id);
        let prefix = swept_ids(s.drop_last(), d, margin);
        let full = swept_ids(s, d, margin);
        if full.contains(id) {
            let k = choose|k: int| 0 <= k < full.len() && full[k] == id;
            if k < prefix.len() {
                assert(prefix[k] == id);
                assert(prefix.contains(id));
                let j = choose|j: int|
                    0 <= j < s.drop_last().len() && should_reap(
                        #[trigger] s.drop_last()[j],
                        d,
                        margin,
                    ) && s.drop_last()[j].id == id;
                assert(s.drop_last()[j] == s[j]);
                assert(should_reap(s[j], d, margin) && s[j].id == id);
            } else {
                assert(should_reap(s[s.len() - 1], d, margin) && s[s.len() - 1].id == id);
            }
        }
        if exists|j: int| 0 <= j < s.len() && should_reap(#[trigger] s[j], d, margin) && s[j].id
            == id {
            let j = choose|j: int|
                0 <= j < s.len() && should_reap(#[trigger] s[j], d, margin) && s[j].id == id;
            if j < s.len() - 1 {
                assert(should_reap(s.drop_last()[j], d, margin) && s.drop_last()[j].id == id);
                assert(prefix.contains(id));
                let k = choose|k: int| 0 <= k < prefix.len() && prefix[k] == id;
                assert(full[k] == id);
                assert(full.contains(id));
            } else {
                assert(full.last() == id);
                assert(full.contains(id));
            }
        }
    }
}

/// Law: the sweep is idempotent. After one sweep no entity is both alive
/// and out of bounds, so a second sweep over the marked list reports
/// nothing.
pub proof fn lemma_sweep_idempotent(s: Seq<Ephemeral>, d: Domain, margin: int)
    ensures
        swept_ids(mark_swept(s, d, margin), d, margin) == Seq::<u64>::empty(),
    decreases s.len(),
{
    let m = mark_swept(s, d, margin);
    if s.len() == 0 {
        assert(m.len() == 0);
    } else {
        lemma_sweep_idempotent(s.drop_last(), d, margin);
        assert(m.drop_last() =~= mark_swept(s.drop_last(), d, margin));
        assert(!should_reap(m.last(), d, margin));
    }
}

/// One entity as the commit promotes it: a buffered creation becomes
/// alive; an already live one is unchanged.
pub open spec fn spec_promote(e: Ephemeral) -> Ephemeral {
    Ephemeral { stage: Lifecycle::Alive, ..e }
}

/// The live entity list after a commit: despawned entities are gone,
/// buffered creations have become alive, everything else is untouched and
/// keeps its order.
pub open spec fn committed(s: Seq<Ephemeral>) -> Seq<Ephemeral>
    decreases s.len(),
{
    if s.len() == 0 {
        Seq::empty()
    } else {
        let prefix = committed(s.drop_last());
        if s.last().stage is Despawned {
            prefix
        } else {
            prefix.push(spec_promote(s.last()))
        }
    }
}

/// Applies the buffered mutations of a tick atomically at its boundary:
/// entities the reaper despawned are destroyed, every remaining entity and
/// the freshly spawned one (if any) are alive for the next tick. No
/// component ever observes a partially applied creation or removal.
pub fn commit(entities: &mut Vec<Ephemeral>, incoming: Option<Ephemeral>)
    ensures
        final(entities)@ == match incoming {
            None => committed(old(entities)@),
            Some(b) => committed(old(entities)@).push(spec_promote(b)),
        },
{
    let ghost s0 = entities@;
    let mut out: Vec<Ephemeral> = Vec::new();
    let mut i: usize = 0;
    while i < entities.len()
        invariant
            i <= entities@.len(),
            entities@ == s0,
            out@ == committed(s0.take(i as int)),
        decreases entities@.len() - i,
    {
        let ghost prev = s0.take(i as int);
        let e = entities[i];
        let gone = match e.stage {
            Lifecycle::Despawned => true,
            _ => false,
        };
        if !gone {
            out.push(Ephemeral { stage: Lifecycle::Alive, ..e });
        }
        proof {
            assert(s0.take(i + 1 as int).drop_last() =~= prev);
            assert(s0.take(i + 1 as int).last() == s0[i as int]);
        }
        i = i + 1;
    }
    proof {
        assert(s0.take(s0.len() as int) =~= s0);
    }
    match incoming {
        Some(b) => {
            out.push(Ephemeral { stage: Lifecycle::Alive, ..b });
        },
        None => {},
    }
    *entities = out;
}

} // verus!
