use vstd::prelude::*;
use crate::cup::{CUPWithOriginalProtobuf, CatchUpPackage, CupModel, opt_view};

verus! {

/// The one fatal outcome of reconciliation: no candidate package at all.
#[derive(Debug, PartialEq, Eq, Structural)]
pub enum OrchestratorError {
    /// Neither a local, a registry nor a peer package was available at the
    /// given registry version.
    MakeRegistryCupError(u64),
}

/// The higher of two optional candidates; on equal heights the later one
/// (`b`) is kept, so that a fixed candidate order breaks ties.
pub open spec fn higher_of(a: Option<CupModel>, b: Option<CupModel>) -> Option<CupModel> {
    match (a, b) {
        (None, _) => b,
        (Some(_), None) => a,
        (Some(x), Some(y)) => if y.height >= x.height {
            b
        } else {
            a
        },
    }
}

/// The selected package among the local, registry and peer candidates, in
/// that order: the highest, the last one listed among equally high ones.
pub open spec fn latest_of(
    local: Option<CupModel>,
    registry: Option<CupModel>,
    peer: Option<CupModel>,
) -> Option<CupModel> {
    higher_of(higher_of(local, registry), peer)
}

/// Whether a selected package must be written to the store: there is no
/// local package, or the selected one is higher, or as high and unsigned.
pub open spec fn persist_needed(selected: CupModel, local_height: Option<u64>) -> bool {
    match local_height {
        None => true,
        Some(h) => selected.height > h || (selected.height == h && selected.is_unsigned()),
    }
}

pub open spec fn height_of(c: Option<CupModel>) -> Option<u64> {
    match c {
        Some(p) => Some(p.height),
        None => None,
    }
}

fn higher(a: Option<CUPWithOriginalProtobuf>, b: Option<CUPWithOriginalProtobuf>) -> (r: Option<
    CUPWithOriginalProtobuf,
>)
    ensures
        opt_view(r) == higher_of(opt_view(a), opt_view(b)),
{
    match (a, b) {
        (None, b) => b,
        (Some(x), None) => Some(x),
        (Some(x), Some(y)) => if y.cup.height >= x.cup.height {
            Some(y)
        } else {
            Some(x)
        },
    }
}

pub fn should_persist(selected: &CatchUpPackage, local_height: Option<u64>) -> (r: bool)
    ensures
        r == match local_height {
            None => true,
            Some(h) => selected.height > h || (selected.height == h && selected.signature@.len()
                == 0),
        },
{
    let unsigned = selected.is_unsigned();
    match local_height {
        None => true,
        Some(h) => selected.height > h || (selected.height == h && unsigned),
    }
}

/// What reconciliation decided: the accepted package, and whether it is to
/// be written to the store.
pub struct Reconciled {
    pub cup: CUPWithOriginalProtobuf,
    pub persist: bool,
}

/// Selects the latest package among the local, registry and peer
/// candidates, and decides whether it is to be persisted.
pub fn get_latest_cup(
    local_cup: Option<CUPWithOriginalProtobuf>,
    registry_cup: Option<CUPWithOriginalProtobuf>,
    peer_cup: Option<CUPWithOriginalProtobuf>,
    registry_version: u64,
) -> (r: Result<Reconciled, OrchestratorError>)
    ensures
        local_cup is None && registry_cup is None && peer_cup is None <==> r is Err,
        r is Err ==> r == Err::<Reconciled, _>(OrchestratorError::MakeRegistryCupError(
            registry_version,
        )),
        r is Ok ==> Some(r->Ok_0.cup@) == latest_of(
            opt_view(local_cup),
            opt_view(registry_cup),
            opt_view(peer_cup),
        ),
        r is Ok ==> r->Ok_0.persist == persist_needed(r->Ok_0.cup@, height_of(opt_view(local_cup))),
{
    let local_height = match &local_cup {
        Some(c) => Some(c.height()),
        None => None,
    };
    let latest = higher(higher(local_cup, registry_cup), peer_cup);
    match latest {
        None => Err(OrchestratorError::MakeRegistryCupError(registry_version)),
        Some(cup) => {
            let persist = should_persist(&cup.cup, local_height);
            Ok(Reconciled { cup, persist })
        },
    }
}

} // verus!
