use vstd::prelude::*;
use crate::cup::{CUPWithOriginalProtobuf, CupModel, opt_view};
use crate::reconcile::{
    OrchestratorError, Reconciled, get_latest_cup, height_of, latest_of, persist_needed,
};

verus! {

/// The node's single persisted slot: the most recently accepted package,
/// kept with its original bytes.
pub struct CupStore {
    slot: Option<CUPWithOriginalProtobuf>,
}

/// What the slot holds after one reconciliation round on the given
/// registry and peer candidates: the selected package where it is to be
/// persisted, the previous content otherwise.
pub open spec fn after_round(
    stored: Option<CupModel>,
    registry: Option<CupModel>,
    peer: Option<CupModel>,
) -> Option<CupModel> {
    match latest_of(stored, registry, peer) {
        None => stored,
        Some(l) => if persist_needed(l, height_of(stored)) {
            Some(l)
        } else {
            stored
        },
    }
}

/// The slot holds a package at least `h` high.
pub open spec fn reaches(c: Option<CupModel>, h: u64) -> bool {
    match c {
        Some(p) => p.height >= h,
        None => false,
    }
}

impl CupStore {
    pub closed spec fn stored(&self) -> Option<CupModel> {
        opt_view(self.slot)
    }

    /// An empty store, as on a node's first boot.
    pub fn new() -> (r: CupStore)
        ensures
            r.stored() is None,
    {
        CupStore { slot: None }
    }

    /// Writes `cup` into the slot, replacing what was there.
    pub fn persist_cup(&mut self, cup: &CUPWithOriginalProtobuf)
        ensures
            final(self).stored() == Some(cup@),
    {
        self.slot = Some(cup.duplicate());
    }

    /// The persisted package, if there is one.
    pub fn get_local_cup(&self) -> (r: Option<CUPWithOriginalProtobuf>)
        ensures
            opt_view(r) == self.stored(),
    {
        match &self.slot {
            Some(c) => Some(c.duplicate()),
            None => None,
        }
    }

    /// One reconciliation round against the stored package: selects the
    /// latest candidate, persists it where that is needed, and returns it.
    pub fn reconcile(
        &mut self,
        registry_cup: Option<CUPWithOriginalProtobuf>,
        peer_cup: Option<CUPWithOriginalProtobuf>,
        registry_version: u64,
    ) -> (r: Result<Reconciled, OrchestratorError>)
        ensures
            old(self).stored() is None && registry_cup is None && peer_cup is None <==> r is Err,
            r is Err ==> r == Err::<Reconciled, _>(OrchestratorError::MakeRegistryCupError(
                registry_version,
            )),
            r is Ok ==> Some(r->Ok_0.cup@) == latest_of(
                old(self).stored(),
                opt_view(registry_cup),
                opt_view(peer_cup),
            ),
            r is Ok ==> r->Ok_0.persist == persist_needed(
                r->Ok_0.cup@,
                height_of(old(self).stored()),
            ),
            final(self).stored() == after_round(
                old(self).stored(),
                opt_view(registry_cup),
                opt_view(peer_cup),
            ),
    {
        let local = self.get_local_cup();
        let r = get_latest_cup(local, registry_cup, peer_cup, registry_version);
        match &r {
            Ok(d) => {
                if d.persist {
                    self.persist_cup(&d.cup);
                }
            },
            Err(_) => {},
        }
        r
    }
}

/// One round never lowers the stored height, and leaves the store at least
/// as high as every candidate it was offered.
pub proof fn lemma_round_keeps_highest(
    stored: Option<CupModel>,
    registry: Option<CupModel>,
    peer: Option<CupModel>,
)
    ensures
        stored matches Some(s) ==> reaches(after_round(stored, registry, peer), s.height),
        registry matches Some(c) ==> reaches(after_round(stored, registry, peer), c.height),
        peer matches Some(c) ==> reaches(after_round(stored, registry, peer), c.height),
{
}

/// Once a store at least `h` high goes through a round, it stays at least
/// `h` high.
pub proof fn lemma_reaches_kept(
    stored: Option<CupModel>,
    registry: Option<CupModel>,
    peer: Option<CupModel>,
    h: u64,
)
    requires
        reaches(stored, h),
    ensures
        reaches(after_round(stored, registry, peer), h),
{
    lemma_round_keeps_highest(stored, registry, peer);
}

/// Whatever the order in which two packages are offered over two rounds,
/// from the registry or from a peer, the store ends at least as high as
/// the higher of them, and never falls back below a package it accepted.
pub proof fn lemma_never_regresses(
    stored: Option<CupModel>,
    registry1: Option<CupModel>,
    peer1: Option<CupModel>,
    registry2: Option<CupModel>,
    peer2: Option<CupModel>,
    b: CupModel,
)
    requires
        registry1 == Some(b) || peer1 == Some(b) || registry2 == Some(b) || peer2 == Some(b),
    ensures
        reaches(after_round(after_round(stored, registry1, peer1), registry2, peer2), b.height),
{
    let mid = after_round(stored, registry1, peer1);
    lemma_round_keeps_highest(stored, registry1, peer1);
    lemma_round_keeps_highest(mid, registry2, peer2);
    if registry1 == Some(b) || peer1 == Some(b) {
        lemma_reaches_kept(mid, registry2, peer2, b.height);
    }
}

/// When the selected package is unsigned and exactly as high as the local
/// one, every round rewrites the store, even with identical content.
pub proof fn lemma_unsigned_tie_rewritten(
    local: CupModel,
    registry: Option<CupModel>,
    peer: Option<CupModel>,
)
    requires
        latest_of(Some(local), registry, peer) matches Some(l) && l.height == local.height
            && l.is_unsigned(),
    ensures
        persist_needed(latest_of(Some(local), registry, peer)->Some_0, Some(local.height)),
{
}

} // verus!
