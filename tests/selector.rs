use cup_provider::cup::{CUPWithOriginalProtobuf, CatchUpPackage, CatchUpPackageParam};
use cup_provider::endpoint::peer_url;
use cup_provider::selector::{vet_peer_cup, Endpoint, NodeRecord, PeerSearch, PeerStep};

fn node(ip: &str, port: u32) -> NodeRecord {
    NodeRecord { http: Some(Endpoint { ip_addr: ip.to_string(), port }) }
}

fn cup(height: u64) -> CUPWithOriginalProtobuf {
    CUPWithOriginalProtobuf {
        cup: CatchUpPackage { height, registry_version: 2, content: vec![1], signature: vec![9] },
        protobuf: vec![height as u8],
    }
}

fn queried_ip(step: PeerStep) -> String {
    match step {
        PeerStep::Query(n) => n.http.unwrap().ip_addr,
        _ => panic!("expected a query"),
    }
}

#[test]
fn empty_roster_without_local_finds_nothing() {
    let mut search = PeerSearch::new(vec![], 1, None);
    assert!(matches!(search.step(None), PeerStep::Exhausted));
}

#[test]
fn cold_start_queries_self_then_roster_in_reverse() {
    let nodes = vec![(1, node("::1", 1)), (2, node("::2", 2)), (3, node("::3", 3))];
    let mut search = PeerSearch::new(nodes, 2, None);
    assert_eq!(queried_ip(search.step(None)), "::2");
    assert_eq!(queried_ip(search.step(None)), "::3");
    assert_eq!(queried_ip(search.step(None)), "::2");
    assert_eq!(queried_ip(search.step(None)), "::1");
    assert!(matches!(search.step(None), PeerStep::Exhausted));
}

#[test]
fn with_local_only_one_sampled_peer_is_queried() {
    let nodes = vec![(1, node("::1", 1)), (2, node("::2", 2))];
    let floor = Some(CatchUpPackageParam { height: 10, registry_version: 2 });
    let mut search = PeerSearch::new(nodes, 7, floor);
    assert_eq!(queried_ip(search.step(None)), "::2");
    assert!(matches!(search.step(None), PeerStep::Exhausted));
}

#[test]
fn with_local_and_empty_roster_nothing_is_queried() {
    let floor = Some(CatchUpPackageParam { height: 10, registry_version: 2 });
    let mut search = PeerSearch::new(vec![], 7, floor);
    assert!(matches!(search.step(None), PeerStep::Exhausted));
}

#[test]
fn newer_verified_package_ends_the_search() {
    let nodes = vec![(1, node("::1", 1)), (2, node("::2", 2))];
    let floor = Some(CatchUpPackageParam { height: 10, registry_version: 2 });
    let mut search = PeerSearch::new(nodes, 1, floor);
    assert_eq!(queried_ip(search.step(None)), "::1");
    // not newer than the floor: go on
    assert_eq!(queried_ip(search.step(vet_peer_cup(Some(cup(10)), true))), "::2");
    match search.step(vet_peer_cup(Some(cup(12)), true)) {
        PeerStep::Found(c) => assert_eq!(c.cup.height, 12),
        _ => panic!("expected the package at height 12"),
    }
}

#[test]
fn unverified_package_is_never_selected() {
    assert!(vet_peer_cup(Some(cup(1000)), false).is_none());
    assert!(vet_peer_cup(Some(cup(5)), true).is_some());
    let nodes = vec![(1, node("::1", 1))];
    let mut search = PeerSearch::new(nodes, 9, None);
    assert_eq!(queried_ip(search.step(None)), "::1");
    assert!(matches!(search.step(vet_peer_cup(Some(cup(1000)), false)), PeerStep::Exhausted));
}

#[test]
fn peer_url_brackets_the_address() {
    let url = peer_url(&node("2001:db8::1", 8080)).unwrap();
    assert_eq!(url.as_str(), "http://[2001:db8::1]:8080/");
}

#[test]
fn peer_url_missing_endpoint() {
    assert!(peer_url(&NodeRecord { http: None }).is_none());
}

#[test]
fn peer_url_malformed_address() {
    assert!(peer_url(&node("not an address", 8080)).is_none());
    assert!(peer_url(&node("::1", 70000)).is_none());
}

#[test]
fn sampled_search_queries_every_peer_once() {
    let nodes = vec![(1, node("::1", 1)), (2, node("::2", 2)), (3, node("::3", 3))];
    let mut search = PeerSearch::sample(nodes, 9, None);
    let mut seen = vec![];
    for _ in 0..3 {
        seen.push(queried_ip(search.step(None)));
    }
    assert!(matches!(search.step(None), PeerStep::Exhausted));
    seen.sort();
    assert_eq!(seen, vec!["::1", "::2", "::3"]);
}
