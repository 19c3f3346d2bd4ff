use vstd::prelude::*;

verus! {

/// The freshness comparator of a catch-up package: its height and the
/// registry version its content was built against.
#[derive(Clone, Copy, Debug, PartialEq, Eq, Structural)]
pub struct CatchUpPackageParam {
    pub height: u64,
    pub registry_version: u64,
}

/// Strict order on optional comparators: absence lies below every concrete
/// value, concrete values compare by height, then by registry version.
pub open spec fn param_lt(a: Option<CatchUpPackageParam>, b: Option<CatchUpPackageParam>) -> bool {
    match (a, b) {
        (_, None) => false,
        (None, Some(_)) => true,
        (Some(x), Some(y)) => x.height < y.height || (x.height == y.height && x.registry_version
            < y.registry_version),
    }
}

/// Whether `candidate` is strictly fresher than `floor`.
pub fn is_newer(candidate: Option<CatchUpPackageParam>, floor: Option<CatchUpPackageParam>) -> (r:
    bool)
    ensures
        r == param_lt(floor, candidate),
{
    match (floor, candidate) {
        (_, None) => false,
        (None, Some(_)) => true,
        (Some(x), Some(y)) => x.height < y.height || (x.height == y.height && x.registry_version
            < y.registry_version),
    }
}

/// A parsed catch-up package.
pub struct CatchUpPackage {
    pub height: u64,
    pub registry_version: u64,
    /// Opaque reference to the block and state the node resumes from.
    pub content: Vec<u8>,
    /// The combined threshold signature; empty when the package is unsigned.
    pub signature: Vec<u8>,
}

/// A catch-up package kept together with the exact bytes it was read from.
/// Signatures are checked over these bytes, and these bytes are what is
/// persisted.
pub struct CUPWithOriginalProtobuf {
    pub cup: CatchUpPackage,
    pub protobuf: Vec<u8>,
}

impl CatchUpPackage {
    pub open spec fn is_unsigned_spec(&self) -> bool {
        self.signature@.len() == 0
    }

    pub fn is_unsigned(&self) -> (r: bool)
        ensures
            r == self.is_unsigned_spec(),
    {
        self.signature.len() == 0
    }
}

impl CUPWithOriginalProtobuf {
    pub open spec fn height_spec(&self) -> u64 {
        self.cup.height
    }

    pub open spec fn param_spec(&self) -> CatchUpPackageParam {
        CatchUpPackageParam { height: self.cup.height, registry_version: self.cup.registry_version }
    }

    pub fn height(&self) -> (r: u64)
        ensures
            r == self.height_spec(),
    {
        self.cup.height
    }

    pub fn param(&self) -> (r: CatchUpPackageParam)
        ensures
            r == self.param_spec(),
    {
        CatchUpPackageParam { height: self.cup.height, registry_version: self.cup.registry_version }
    }
}

/// The mathematical value of a package with its original bytes.
pub ghost struct CupModel {
    pub height: u64,
    pub registry_version: u64,
    pub content: Seq<u8>,
    pub signature: Seq<u8>,
    pub protobuf: Seq<u8>,
}

impl CupModel {
    pub open spec fn param(self) -> CatchUpPackageParam {
        CatchUpPackageParam { height: self.height, registry_version: self.registry_version }
    }

    pub open spec fn is_unsigned(self) -> bool {
        self.signature.len() == 0
    }
}

impl View for CUPWithOriginalProtobuf {
    type V = CupModel;

    open spec fn view(&self) -> CupModel {
        CupModel {
            height: self.cup.height,
            registry_version: self.cup.registry_version,
            content: self.cup.content@,
            signature: self.cup.signature@,
            protobuf: self.protobuf@,
        }
    }
}

pub open spec fn opt_view(c: Option<CUPWithOriginalProtobuf>) -> Option<CupModel> {
    match c {
        Some(p) => Some(p@),
        None => None,
    }
}

/// The comparator of an optional package; absent when there is no package.
pub open spec fn opt_param(c: Option<CupModel>) -> Option<CatchUpPackageParam> {
    match c {
        Some(p) => Some(p.param()),
        None => None,
    }
}

pub fn param_of(c: &Option<CUPWithOriginalProtobuf>) -> (r: Option<CatchUpPackageParam>)
    ensures
        r == opt_param(opt_view(*c)),
{
    match c {
        Some(p) => Some(p.param()),
        None => None,
    }
}

} // verus!

verus! {

fn copy_bytes(v: &Vec<u8>) -> (r: Vec<u8>)
    ensures
        r@ == v@,
{
    let mut r: Vec<u8> = Vec::new();
    let mut i: usize = 0;
    while i < v.len()
        invariant
            i <= v@.len(),
            r@ == v@.subrange(0, i as int),
        decreases v@.len() - i,
    {
        r.push(v[i]);
        i = i + 1;
    }
    assert(r@ =~= v@);
    r
}

impl CatchUpPackage {
    /// A field-for-field copy.
    pub fn duplicate(&self) -> (r: CatchUpPackage)
        ensures
            r.height == self.height,
            r.registry_version == self.registry_version,
            r.content@ == self.content@,
            r.signature@ == self.signature@,
    {
        CatchUpPackage {
            height: self.height,
            registry_version: self.registry_version,
            content: copy_bytes(&self.content),
            signature: copy_bytes(&self.signature),
        }
    }
}

impl CUPWithOriginalProtobuf {
    /// A copy with the same package and the same original bytes.
    pub fn duplicate(&self) -> (r: CUPWithOriginalProtobuf)
        ensures
            r@ == self@,
    {
        CUPWithOriginalProtobuf { cup: self.cup.duplicate(), protobuf: copy_bytes(&self.protobuf) }
    }
}

} // verus!
