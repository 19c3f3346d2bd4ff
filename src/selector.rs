use vstd::prelude::*;
use rand::seq::SliceRandom;
use crate::cup::{CUPWithOriginalProtobuf, CatchUpPackageParam, CupModel, is_newer, opt_param,
    opt_view, param_lt, param_of};

verus! {

/// A peer's advertised HTTP endpoint.
pub struct Endpoint {
    pub ip_addr: String,
    pub port: u32,
}

/// A peer as the registry describes it; its endpoint may be missing.
pub struct NodeRecord {
    pub http: Option<Endpoint>,
}

impl View for NodeRecord {
    type V = Option<(Seq<char>, u32)>;

    open spec fn view(&self) -> Option<(Seq<char>, u32)> {
        match self.http {
            Some(e) => Some((e.ip_addr@, e.port)),
            None => None,
        }
    }
}

impl NodeRecord {
    /// A copy with the same endpoint.
    pub fn duplicate(&self) -> (r: NodeRecord)
        ensures
            r@ == self@,
    {
        match &self.http {
            Some(e) => NodeRecord { http: Some(Endpoint { ip_addr: e.ip_addr.clone(), port: e.port }) },
            None => NodeRecord { http: None },
        }
    }
}

pub open spec fn records(nodes: Seq<(u64, NodeRecord)>) -> Seq<Option<(Seq<char>, u32)>> {
    nodes.map_values(|n: (u64, NodeRecord)| n.1@)
}

/// The record of the first roster entry with node id `id`, if any.
pub open spec fn own_record(nodes: Seq<(u64, NodeRecord)>, id: u64) -> Option<
    Option<(Seq<char>, u32)>,
>
    decreases nodes.len(),
{
    if nodes.len() == 0 {
        None
    } else if nodes[0].0 == id {
        Some(nodes[0].1@)
    } else {
        own_record(nodes.drop_first(), id)
    }
}

/// The peers sampled from a (shuffled) roster, latest first: the last entry
/// alone when a local package exists, the whole roster otherwise.
pub open spec fn sampled(nodes: Seq<(u64, NodeRecord)>, has_local: bool) -> Seq<
    Option<(Seq<char>, u32)>,
> {
    if has_local {
        if nodes.len() == 0 {
            Seq::empty()
        } else {
            seq![nodes.last().1@]
        }
    } else {
        records(nodes).reverse()
    }
}

/// The order in which peers are queried: the node itself first where it is
/// a member of the roster, then the sampled peers, the last one first.
pub open spec fn query_order(nodes: Seq<(u64, NodeRecord)>, self_id: u64, has_local: bool) -> Seq<
    Option<(Seq<char>, u32)>,
> {
    match own_record(nodes, self_id) {
        Some(r) => seq![r] + sampled(nodes, has_local),
        None => sampled(nodes, has_local),
    }
}

fn find_own_record(nodes: &Vec<(u64, NodeRecord)>, self_id: u64) -> (r: Option<NodeRecord>)
    ensures
        own_record(nodes@, self_id) == match r {
            Some(n) => Some(n@),
            None => None::<Option<(Seq<char>, u32)>>,
        },
{
    let mut i: usize = 0;
    assert(nodes@.subrange(0, nodes@.len() as int) =~= nodes@);
    while i < nodes.len()
        invariant
            i <= nodes@.len(),
            own_record(nodes@, self_id) == own_record(nodes@.subrange(i as int, nodes@.len() as int), self_id),
        decreases nodes@.len() - i,
    {
        let ghost rest = nodes@.subrange(i as int, nodes@.len() as int);
        assert(rest.drop_first() =~= nodes@.subrange(i + 1, nodes@.len() as int));
        if nodes[i].0 == self_id {
            return Some(nodes[i].1.duplicate());
        }
        i = i + 1;
    }
    assert(nodes@.subrange(i as int, nodes@.len() as int).len() == 0);
    None
}

} // verus!

verus! {

/// The decisions of one peer search: which peer to query next, and when to
/// stop. The caller performs each query and hands the vetted outcome back.
pub struct PeerSearch {
    order: Vec<NodeRecord>,
    next: usize,
    floor: Option<CatchUpPackageParam>,
}

/// The next move of a peer search.
pub enum PeerStep {
    /// Query this peer and hand its vetted package back.
    Query(NodeRecord),
    /// A verified package fresher than the floor was found.
    Found(CUPWithOriginalProtobuf),
    /// Every candidate was tried without improvement.
    Exhausted,
}

impl PeerSearch {
    pub closed spec fn order_spec(&self) -> Seq<Option<(Seq<char>, u32)>> {
        self.order@.map_values(|n: NodeRecord| n@)
    }

    pub closed spec fn next_spec(&self) -> nat {
        self.next as nat
    }

    pub closed spec fn floor_spec(&self) -> Option<CatchUpPackageParam> {
        self.floor
    }

    pub open spec fn wf(&self) -> bool {
        self.next_spec() <= self.order_spec().len()
    }

    /// Starts a search over a shuffled roster, with the comparator of the
    /// local package (if any) as the floor.
    pub fn new(nodes: Vec<(u64, NodeRecord)>, self_id: u64, floor: Option<CatchUpPackageParam>) -> (r:
        PeerSearch)
        ensures
            r.wf(),
            r.order_spec() == query_order(nodes@, self_id, floor is Some),
            r.next_spec() == 0,
            r.floor_spec() == floor,
    {
        let ghost nodes0 = nodes@;
        let own = find_own_record(&nodes, self_id);
        let mut order: Vec<NodeRecord> = Vec::new();
        let ghost head: Seq<Option<(Seq<char>, u32)>> = Seq::empty();
        match own {
            Some(n) => {
                proof {
                    head = seq![n@];
                }
                order.push(n);
            },
            None => {},
        }
        assert(order@.map_values(|n: NodeRecord| n@) =~= head);
        let mut nodes = nodes;
        if floor.is_some() {
            match nodes.pop() {
                Some(last) => {
                    order.push(last.1);
                },
                None => {},
            }
            assert(order@.map_values(|n: NodeRecord| n@) =~= head + sampled(nodes0, true));
        } else {
            while nodes.len() > 0
                invariant
                    nodes@.len() <= nodes0.len(),
                    nodes@ == nodes0.subrange(0, nodes@.len() as int),
                    order@.map_values(|n: NodeRecord| n@) == head + records(nodes0).reverse().subrange(
                        0,
                        nodes0.len() - nodes@.len(),
                    ),
                decreases nodes@.len(),
            {
                let ghost before = order@.map_values(|n: NodeRecord| n@);
                let last = nodes.pop().unwrap();
                proof {
                    let k = nodes@.len() as int;
                    assert(nodes0[k] == last);
                    assert(records(nodes0).reverse()[nodes0.len() - k - 1] == last.1@);
                }
                order.push(last.1);
                assert(order@.map_values(|n: NodeRecord| n@) =~= before.push(last.1@));
                proof {
                    let m = nodes0.len() - nodes@.len() - 1;
                    let rv = records(nodes0).reverse();
                    assert(rv.subrange(0, m + 1) =~= rv.subrange(0, m).push(rv[m]));
                }
                assert(order@.map_values(|n: NodeRecord| n@) =~= head + records(nodes0).reverse().subrange(
                    0,
                    nodes0.len() - nodes@.len(),
                ));
            }
            assert(records(nodes0).reverse().subrange(0, nodes0.len() as int) =~= records(nodes0).reverse());
        }
        let r = PeerSearch { order, next: 0, floor };
        assert(r.order_spec() =~= query_order(nodes0, self_id, floor is Some));
        r
    }

    /// Takes the vetted outcome of the previous query (nothing before the
    /// first one) and decides: stop with it where it is fresher than the
    /// floor, else query the next candidate, else give up.
    pub fn step(&mut self, vetted: Option<CUPWithOriginalProtobuf>) -> (r: PeerStep)
        requires
            old(self).wf(),
        ensures
            final(self).wf(),
            final(self).order_spec() == old(self).order_spec(),
            final(self).floor_spec() == old(self).floor_spec(),
            param_lt(old(self).floor_spec(), opt_param(opt_view(vetted))) ==> (r matches PeerStep::Found(c) && Some(c@) == opt_view(vetted) && final(self).next_spec() == old(self).next_spec()),
            !param_lt(old(self).floor_spec(), opt_param(opt_view(vetted))) && old(self).next_spec() < old(self).order_spec().len() ==> (r matches PeerStep::Query(n) && n@ == old(self).order_spec()[old(self).next_spec() as int] && final(self).next_spec() == old(self).next_spec() + 1),
            !param_lt(old(self).floor_spec(), opt_param(opt_view(vetted))) && old(self).next_spec() >= old(self).order_spec().len() ==> (r is Exhausted && final(self).next_spec() == old(self).next_spec()),
    {
        if is_newer(param_of(&vetted), self.floor) {
            match vetted {
                Some(c) => PeerStep::Found(c),
                None => PeerStep::Exhausted,
            }
        } else if self.next < self.order.len() {
            let n = self.order[self.next].duplicate();
            self.next = self.next + 1;
            PeerStep::Query(n)
        } else {
            PeerStep::Exhausted
        }
    }
}

/// Relies on rand's `SliceRandom::shuffle` with the thread-local generator:
/// the same entries, in an order drawn at random.
#[verifier::external_body]
fn shuffle_nodes(nodes: &mut Vec<(u64, NodeRecord)>)
    ensures
        final(nodes)@.to_multiset() == old(nodes)@.to_multiset(),
{
    nodes.shuffle(&mut rand::thread_rng());
}

impl PeerSearch {
    /// Starts a search over the roster in a random order, so that repeated
    /// searches spread their queries over the subnet.
    pub fn sample(nodes: Vec<(u64, NodeRecord)>, self_id: u64, floor: Option<CatchUpPackageParam>) -> (r:
        PeerSearch)
        ensures
            r.wf(),
            exists|shuffled: Seq<(u64, NodeRecord)>|
                #[trigger] shuffled.to_multiset() == nodes@.to_multiset() && r.order_spec() == query_order(
                    shuffled,
                    self_id,
                    floor is Some,
                ),
            r.next_spec() == 0,
            r.floor_spec() == floor,
    {
        let mut nodes = nodes;
        shuffle_nodes(&mut nodes);
        let ghost shuffled = nodes@;
        let r = PeerSearch::new(nodes, self_id, floor);
        assert(r.order_spec() == query_order(shuffled, self_id, floor is Some));
        r
    }
}

/// A peer's response, kept only where its signature verified; an
/// unverified package contributes nothing, whatever height it claims.
pub fn vet_peer_cup(parsed: Option<CUPWithOriginalProtobuf>, signature_verified: bool) -> (r: Option<
    CUPWithOriginalProtobuf,
>)
    ensures
        opt_view(r) == vetted(opt_view(parsed), signature_verified),
{
    if signature_verified {
        parsed
    } else {
        None
    }
}

pub open spec fn vetted(parsed: Option<CupModel>, signature_verified: bool) -> Option<CupModel> {
    if signature_verified {
        parsed
    } else {
        None
    }
}

/// A package whose signature failed to verify never ends a search, whatever
/// the floor and whatever height it claims.
pub proof fn lemma_unverified_never_selected(
    floor: Option<CatchUpPackageParam>,
    parsed: Option<CupModel>,
)
    ensures
        !param_lt(floor, opt_param(vetted(parsed, false))),
{
}

/// With an empty roster and no local package, a search has no candidate,
/// and its first step ends it with nothing found.
pub proof fn lemma_empty_roster_selects_nothing(nodes: Seq<(u64, NodeRecord)>, self_id: u64)
    requires
        nodes.len() == 0,
    ensures
        query_order(nodes, self_id, false).len() == 0,
        !param_lt(None, opt_param(None)),
{
    assert(records(nodes).reverse().len() == 0);
}

} // verus!