use vstd::prelude::*;

use crate::ids::{ChangesetId, HgChangesetId};
use crate::movement::HookRejection;

verus! {

/// The id by which the calling protocol knows a changeset.
#[derive(Clone, Copy, Debug, PartialEq, Eq, Structural)]
pub struct IdMapping {
    pub changeset: ChangesetId,
    pub protocol_id: HgChangesetId,
}

/// Translates hook rejections into the ids of the calling protocol, using
/// the ids of the changesets uploaded with the push.
#[derive(Debug)]
pub struct HookRejectionRemapper {
    pub mapping: Vec<IdMapping>,
}

/// A hook rejection as reported to the client.
#[derive(Debug)]
pub struct RemappedRejection {
    pub hook_name: String,
    pub protocol_id: HgChangesetId,
    pub reason: String,
}

/// The protocol id of `cs`: the first mapping entry for it.
pub open spec fn protocol_id_of(m: Seq<IdMapping>, cs: ChangesetId) -> Option<HgChangesetId>
    decreases m.len(),
{
    if m.len() == 0 {
        None
    } else if m[0].changeset == cs {
        Some(m[0].protocol_id)
    } else {
        protocol_id_of(m.subrange(1, m.len() as int), cs)
    }
}

/// Every rejection names a changeset that the mapping knows.
pub open spec fn all_mapped(m: Seq<IdMapping>, rejections: Seq<HookRejection>) -> bool {
    forall|i: int|
        0 <= i < rejections.len() ==> #[trigger] protocol_id_of(m, rejections[i].changeset) is Some
}

/// Rejection `i` is the first whose changeset the mapping does not know.
pub open spec fn is_first_unmapped(
    m: Seq<IdMapping>,
    rejections: Seq<HookRejection>,
    i: int,
) -> bool {
    &&& 0 <= i < rejections.len()
    &&& protocol_id_of(m, rejections[i].changeset) is None
    &&& forall|j: int| 0 <= j < i ==> #[trigger] protocol_id_of(m, rejections[j].changeset) is Some
}

/// The first rejection whose changeset the mapping does not know.
pub open spec fn first_unmapped(m: Seq<IdMapping>, rejections: Seq<HookRejection>) -> int {
    choose|i: int| #[trigger] is_first_unmapped(m, rejections, i)
}

/// `out` is `rejections` in the same order, each with its protocol id.
pub open spec fn remapped(
    m: Seq<IdMapping>,
    rejections: Seq<HookRejection>,
    out: Seq<RemappedRejection>,
) -> bool {
    &&& out.len() == rejections.len()
    &&& forall|i: int|
        0 <= i < out.len() ==> {
            &&& (#[trigger] out[i]).hook_name == rejections[i].hook_name
            &&& out[i].reason == rejections[i].reason
            &&& protocol_id_of(m, rejections[i].changeset) == Some(out[i].protocol_id)
        }
}

impl HookRejectionRemapper {
    /// The protocol id of a changeset, if the mapping has one.
    pub fn lookup(&self, cs: ChangesetId) -> (r: Option<HgChangesetId>)
        ensures
            r == protocol_id_of(self.mapping@, cs),
    {
        let mut i: usize = 0;
        assert(self.mapping@.subrange(0, self.mapping@.len() as int) =~= self.mapping@);
        while i < self.mapping.len()
            invariant
                i <= self.mapping@.len(),
                protocol_id_of(self.mapping@, cs) == protocol_id_of(
                    self.mapping@.subrange(i as int, self.mapping@.len() as int),
                    cs,
                ),
            decreases self.mapping@.len() - i,
        {
            let ghost rest = self.mapping@.subrange(i as int, self.mapping@.len() as int);
            if self.mapping[i].changeset == cs {
                return Some(self.mapping[i].protocol_id);
            }
            assert(rest.subrange(1, rest.len() as int) =~= self.mapping@.subrange(
                i + 1,
                self.mapping@.len() as int,
            ));
            i = i + 1;
        }
        None
    }
}

/// Remaps every rejection, keeping their order; fails with the changeset of
/// the first rejection that the mapping does not know.
pub fn map_hook_rejections(rejections: Vec<HookRejection>, remapper: &HookRejectionRemapper) -> (r:
    Result<Vec<RemappedRejection>, ChangesetId>)
    ensures
        match r {
            Ok(out) => all_mapped(remapper.mapping@, rejections@) && remapped(
                remapper.mapping@,
                rejections@,
                out@,
            ),
            Err(cs) => !all_mapped(remapper.mapping@, rejections@) && cs == rejections@[first_unmapped(
                remapper.mapping@,
                rejections@,
            )].changeset,
        },
{
    let ghost all = rejections@;
    let ghost m = remapper.mapping@;
    let mut rest = rejections;
    let mut out: Vec<RemappedRejection> = Vec::new();
    while rest.len() > 0
        invariant
            out@.len() + rest@.len() == all.len(),
            rest@ == all.subrange(out@.len() as int, all.len() as int),
            m == remapper.mapping@,
            all == rejections@,
            remapped(m, all.subrange(0, out@.len() as int), out@),
        decreases rest@.len(),
    {
        let ghost k = out@.len() as int;
        let rejection = rest.remove(0);
        assert(rejection == all[k]);
        match remapper.lookup(rejection.changeset) {
            Some(id) => {
                out.push(
                    RemappedRejection {
                        hook_name: rejection.hook_name,
                        protocol_id: id,
                        reason: rejection.reason,
                    },
                );
                assert(rest@ =~= all.subrange(out@.len() as int, all.len() as int));
            },
            None => {
                assert(forall|j: int|
                    0 <= j < k ==> #[trigger] protocol_id_of(m, all[j].changeset) is Some) by {
                    assert forall|j: int| 0 <= j < k implies #[trigger] protocol_id_of(
                        m,
                        all[j].changeset,
                    ) is Some by {
                        assert(all.subrange(0, k)[j] == all[j]);
                        assert(protocol_id_of(m, all[j].changeset) == Some(out@[j].protocol_id));
                    }
                }
                assert(is_first_unmapped(m, all, k));
                assert(!all_mapped(m, all)) by {
                    if all_mapped(m, all) {
                        assert(protocol_id_of(m, all[k].changeset) is Some);
                    }
                }
                let ghost w = first_unmapped(m, all);
                assert(w == k) by {
                    assert(is_first_unmapped(m, all, w));
                    if w < k {
                        assert(protocol_id_of(m, all[w].changeset) is Some);
                    } else if w > k {
                        assert(protocol_id_of(m, all[k].changeset) is Some);
                    }
                }
                assert(rejection.changeset == all[first_unmapped(m, all)].changeset);
                return Err(rejection.changeset);
            },
        }
    }
    assert(all.subrange(0, out@.len() as int) =~= all);
    assert forall|i: int| 0 <= i < all.len() implies #[trigger] protocol_id_of(
        m,
        all[i].changeset,
    ) is Some by {
        assert(protocol_id_of(m, all[i].changeset) == Some(out@[i].protocol_id));
    }
    Ok(out)
}

} // verus!
