//! The data model: volumes, boot candidates, candidate identity, and the
//! reconciliation of a current default against an enumerated candidate list.

use vstd::prelude::*;

verus! {

/// One bootable operating-system volume inside a volume group: a
/// human-readable label and a flag telling the system volume apart from its
/// paired data volume.
pub struct Volume {
    pub name: String,
    pub is_system: bool,
}

/// One unit a user can select as the boot target: a volume group identifier,
/// the volumes the group holds, and the identifier of the partition holding
/// them. Identifiers are 128-bit UUID values carried as plain bits.
///
/// Identity is the `(vg_uuid, part_uuid)` pair alone; names and volume lists
/// describe a candidate, they never identify it.
pub struct BootCandidate {
    pub vg_uuid: u128,
    pub volumes: Vec<Volume>,
    pub part_uuid: u128,
}

/// Candidate identity: two candidates stand for the same boot target exactly
/// when both the volume-group identifier and the partition identifier agree.
pub open spec fn same_candidate(a: BootCandidate, b: BootCandidate) -> bool {
    a.vg_uuid == b.vg_uuid && a.part_uuid == b.part_uuid
}

impl BootCandidate {
    /// Decides candidate identity; names and volume lists play no part.
    pub fn is_same(&self, other: &BootCandidate) -> (r: bool)
        ensures
            r == same_candidate(*self, *other),
    {
        self.vg_uuid == other.vg_uuid && self.part_uuid == other.part_uuid
    }
}

/// Candidate identity ignores the volume list: swapping a candidate's volumes
/// for any others changes no identity verdict.
pub proof fn lemma_identity_ignores_volumes(a: BootCandidate, b: BootCandidate, vs: Vec<Volume>)
    ensures
        same_candidate(
            BootCandidate { vg_uuid: a.vg_uuid, volumes: vs, part_uuid: a.part_uuid },
            b,
        ) == same_candidate(a, b),
{
}

/// What the reconciler reports of a candidate list and a current default:
/// either the first list entry standing for the same boot target as the
/// default, or that no entry does.
pub open spec fn reconciled(
    cands: Seq<BootCandidate>,
    current: BootCandidate,
    r: Option<usize>,
) -> bool {
    match r {
        Some(i) => i < cands.len() && same_candidate(cands[i as int], current) && (forall|j: int|
            0 <= j < i ==> !same_candidate(cands[j], current)),
        None => forall|j: int| 0 <= j < cands.len() ==> !same_candidate(cands[j], current),
    }
}

/// Finds the enumerated candidate that stands for the current default, by
/// joint identity on both identifiers. Reports no selection when nothing
/// matches; that is a normal outcome, not a failure.
pub fn reconcile(cands: &Vec<BootCandidate>, current: &BootCandidate) -> (r: Option<usize>)
    ensures
        reconciled(cands@, *current, r),
{
    let mut i: usize = 0;
    while i < cands.len()
        invariant
            i <= cands@.len(),
            forall|j: int| 0 <= j < i ==> !same_candidate(cands@[j], *current),
        decreases cands@.len() - i,
    {
        if cands[i].is_same(current) {
            return Some(i);
        }
        i += 1;
    }
    None
}

/// When no list entry matches the current default on both identifiers, the
/// reconciler reports no selection -- never an error, never a guess.
pub proof fn lemma_reconcile_no_match(
    cands: Seq<BootCandidate>,
    current: BootCandidate,
    r: Option<usize>,
)
    requires
        reconciled(cands, current, r),
        forall|j: int| 0 <= j < cands.len() ==> !same_candidate(cands[j], current),
    ensures
        r is None,
{
}

/// When exactly one list entry matches the current default on both
/// identifiers, the reconciler selects that entry, whatever its names say.
pub proof fn lemma_reconcile_unique(
    cands: Seq<BootCandidate>,
    current: BootCandidate,
    r: Option<usize>,
    i: int,
)
    requires
        reconciled(cands, current, r),
        0 <= i < cands.len(),
        same_candidate(cands[i], current),
        forall|j: int| 0 <= j < cands.len() && j != i ==> !same_candidate(cands[j], current),
    ensures
        r == Some(i as usize),
{
    match r {
        Some(k) => {
            if k < i {
                assert(!same_candidate(cands[k as int], current));
            }
            if k > i {
                assert(!same_candidate(cands[i], current));
            }
        },
        None => {
            assert(!same_candidate(cands[i], current));
        },
    }
}

} // verus!
