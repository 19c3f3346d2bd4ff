use cup_provider::cup::{is_newer, CUPWithOriginalProtobuf, CatchUpPackage, CatchUpPackageParam};
use cup_provider::reconcile::{get_latest_cup, should_persist, OrchestratorError};
use cup_provider::store::CupStore;

fn cup(height: u64, signed: bool, tag: u8) -> CUPWithOriginalProtobuf {
    let signature = if signed { vec![7, 7, 7] } else { vec![] };
    CUPWithOriginalProtobuf {
        cup: CatchUpPackage {
            height,
            registry_version: 1,
            content: vec![tag],
            signature: signature.clone(),
        },
        protobuf: vec![tag, height as u8, signature.len() as u8],
    }
}

fn param(height: u64, registry_version: u64) -> Option<CatchUpPackageParam> {
    Some(CatchUpPackageParam { height, registry_version })
}

#[test]
fn absent_comparator_is_lowest() {
    assert!(is_newer(param(0, 0), None));
    assert!(!is_newer(None, None));
    assert!(!is_newer(None, param(0, 0)));
}

#[test]
fn comparator_orders_by_height_then_version() {
    assert!(is_newer(param(5, 1), param(4, 9)));
    assert!(is_newer(param(5, 2), param(5, 1)));
    assert!(!is_newer(param(5, 1), param(5, 1)));
    assert!(!is_newer(param(4, 9), param(5, 1)));
}

#[test]
fn no_candidate_is_fatal() {
    let r = get_latest_cup(None, None, None, 42);
    assert!(matches!(r, Err(OrchestratorError::MakeRegistryCupError(42))));
}

#[test]
fn signed_peer_above_local_is_taken_and_persisted() {
    let mut store = CupStore::new();
    store.persist_cup(&cup(10, true, 1));
    let r = store.reconcile(None, Some(cup(12, true, 2)), 3).unwrap();
    assert_eq!(r.cup.cup.height, 12);
    assert!(r.persist);
    let loaded = store.get_local_cup().unwrap();
    assert_eq!(loaded.cup.height, 12);
    assert_eq!(loaded.protobuf, cup(12, true, 2).protobuf);
}

#[test]
fn unsigned_registry_cup_bootstraps_and_is_persisted() {
    let mut store = CupStore::new();
    let r = store.reconcile(Some(cup(0, false, 5)), None, 1).unwrap();
    assert_eq!(r.cup.cup.height, 0);
    assert!(r.cup.cup.is_unsigned());
    assert!(r.persist);
    assert_eq!(store.get_local_cup().unwrap().cup.height, 0);
}

#[test]
fn unreachable_peer_keeps_local_without_rewrite() {
    let mut store = CupStore::new();
    store.persist_cup(&cup(10, true, 1));
    let r = store.reconcile(None, None, 1).unwrap();
    assert_eq!(r.cup.protobuf, cup(10, true, 1).protobuf);
    assert!(!r.persist);
    assert_eq!(store.get_local_cup().unwrap().protobuf, cup(10, true, 1).protobuf);
}

#[test]
fn unsigned_tie_is_rewritten_every_time() {
    let mut store = CupStore::new();
    store.persist_cup(&cup(4, false, 9));
    for _ in 0..3 {
        let r = store.reconcile(Some(cup(4, false, 9)), None, 1).unwrap();
        assert!(r.persist);
        assert_eq!(store.get_local_cup().unwrap().protobuf, cup(4, false, 9).protobuf);
    }
}

#[test]
fn signed_tie_is_not_rewritten() {
    let local = cup(4, true, 1);
    assert!(!should_persist(&cup(4, true, 2).cup, Some(4)));
    let r = get_latest_cup(Some(local), None, Some(cup(4, true, 2)), 1).unwrap();
    // equal heights: the later candidate in the list is kept
    assert_eq!(r.cup.cup.content, vec![2]);
    assert!(!r.persist);
}

#[test]
fn store_height_never_regresses() {
    let mut store = CupStore::new();
    store.reconcile(None, Some(cup(20, true, 1)), 1).unwrap();
    store.reconcile(Some(cup(0, false, 2)), Some(cup(15, true, 3)), 1).unwrap();
    assert_eq!(store.get_local_cup().unwrap().cup.height, 20);

    let mut other = CupStore::new();
    other.reconcile(None, Some(cup(15, true, 3)), 1).unwrap();
    other.reconcile(None, Some(cup(20, true, 1)), 1).unwrap();
    assert_eq!(other.get_local_cup().unwrap().cup.height, 20);
}

#[test]
fn persist_then_load_round_trips_bytes() {
    let mut store = CupStore::new();
    assert!(store.get_local_cup().is_none());
    let c = cup(33, true, 4);
    store.persist_cup(&c);
    let loaded = store.get_local_cup().unwrap();
    assert_eq!(loaded.protobuf, c.protobuf);
    assert_eq!(loaded.cup.content, c.cup.content);
    assert_eq!(loaded.cup.signature, c.cup.signature);
    assert_eq!(loaded.cup.height, 33);
}
