use vstd::prelude::*;
use vstd::std_specs::cmp::PartialEqSpec;

verus! {

/// A Mercurial node id.
#[derive(Clone, Copy, Debug)]
pub struct HgId {
    pub bytes: [u8; 20],
}

/// The parents of a file revision.
#[derive(Clone, Copy, Debug)]
pub enum Parents {
    NoParents,
    One(HgId),
    Two(HgId, HgId),
}

/// Size and flags of a stored revision.
#[derive(Clone, Copy, Debug, PartialEq, Eq, Structural)]
pub struct RevisionstoreMetadata {
    pub size: Option<u64>,
    pub flags: Option<u64>,
}

/// Why a path did not validate.
#[derive(Clone, Copy, Debug, PartialEq, Eq, Structural)]
pub enum RepoPathParseError {
    EmptyComponent,
    InvalidComponent,
}

/// Why a wire value has no API counterpart.
#[derive(Debug)]
pub enum WireToApiConversionError {
    UnrecognizedEnumVariant(&'static str),
    CannotPopulateRequiredField(&'static str),
    PathValidationError(RepoPathParseError),
}

/// Conversion from a wire value to its API value.
pub trait ToApi: Sized {
    type Api;

    type Error;

    /// The API value of `self`, or why there is none.
    spec fn spec_to_api(self) -> Result<Self::Api, Self::Error>;

    fn to_api(self) -> (r: Result<Self::Api, Self::Error>)
        ensures
            r == self.spec_to_api(),
    ;
}

/// Wire form of a node id.
#[derive(Clone, Copy, Debug)]
pub struct WireHgId(pub [u8; 20]);

impl WireHgId {
    /// Length of a node id in bytes.
    pub fn len() -> (r: usize)
        ensures
            r == 20,
    {
        20
    }
}

/// Wire form of a repository path.
#[derive(Debug)]
pub struct WireRepoPathBuf(pub String);

/// Wire form of a (path, node) key.
#[derive(Debug)]
pub struct WireKey {
    pub path: WireRepoPathBuf,
    pub hgid: WireHgId,
}

/// Wire form of the parents of a revision; `Unknown` stands for any variant
/// this side does not know.
#[derive(Clone, Copy, Debug)]
pub enum WireParents {
    NoParents,
    One(WireHgId),
    Two(WireHgId, WireHgId),
    Unknown,
}

/// Wire form of revision metadata.
#[derive(Clone, Copy, Debug, PartialEq, Eq, Structural)]
pub struct WireRevisionstoreMetadata {
    pub size: Option<u64>,
    pub flags: Option<u64>,
}

impl ToApi for WireHgId {
    type Api = HgId;

    type Error = WireToApiConversionError;

    open spec fn spec_to_api(self) -> Result<HgId, WireToApiConversionError> {
        Ok(HgId { bytes: self.0 })
    }

    fn to_api(self) -> (r: Result<HgId, WireToApiConversionError>) {
        Ok(HgId { bytes: self.0 })
    }
}

impl ToApi for WireParents {
    type Api = Parents;

    type Error = WireToApiConversionError;

    open spec fn spec_to_api(self) -> Result<Parents, WireToApiConversionError> {
        match self {
            WireParents::Unknown => Err(
                WireToApiConversionError::UnrecognizedEnumVariant("WireParents"),
            ),
            WireParents::NoParents => Ok(Parents::NoParents),
            WireParents::One(id) => Ok(Parents::One(HgId { bytes: id.0 })),
            WireParents::Two(a, b) => Ok(Parents::Two(HgId { bytes: a.0 }, HgId { bytes: b.0 })),
        }
    }

    fn to_api(self) -> (r: Result<Parents, WireToApiConversionError>) {
        match self {
            WireParents::Unknown => Err(
                WireToApiConversionError::UnrecognizedEnumVariant("WireParents"),
            ),
            WireParents::NoParents => Ok(Parents::NoParents),
            WireParents::One(id) => Ok(Parents::One(HgId { bytes: id.0 })),
            WireParents::Two(a, b) => Ok(Parents::Two(HgId { bytes: a.0 }, HgId { bytes: b.0 })),
        }
    }
}

impl ToApi for WireRevisionstoreMetadata {
    type Api = RevisionstoreMetadata;

    type Error = WireToApiConversionError;

    open spec fn spec_to_api(self) -> Result<RevisionstoreMetadata, WireToApiConversionError> {
        Ok(RevisionstoreMetadata { size: self.size, flags: self.flags })
    }

    fn to_api(self) -> (r: Result<RevisionstoreMetadata, WireToApiConversionError>) {
        Ok(RevisionstoreMetadata { size: self.size, flags: self.flags })
    }
}

impl HgId {
    /// The wire form of this id.
    pub fn to_wire(self) -> (r: WireHgId)
        ensures
            r.0 == self.bytes,
    {
        WireHgId(self.bytes)
    }
}

/// The wire form of parents.
pub open spec fn parents_to_wire(p: Parents) -> WireParents {
    match p {
        Parents::NoParents => WireParents::NoParents,
        Parents::One(id) => WireParents::One(WireHgId(id.bytes)),
        Parents::Two(a, b) => WireParents::Two(WireHgId(a.bytes), WireHgId(b.bytes)),
    }
}

impl Parents {
    /// The wire form of these parents.
    pub fn to_wire(self) -> (r: WireParents)
        ensures
            r == parents_to_wire(self),
    {
        match self {
            Parents::NoParents => WireParents::NoParents,
            Parents::One(id) => WireParents::One(id.to_wire()),
            Parents::Two(a, b) => WireParents::Two(a.to_wire(), b.to_wire()),
        }
    }
}

impl RevisionstoreMetadata {
    /// The wire form of this metadata.
    pub fn to_wire(self) -> (r: WireRevisionstoreMetadata)
        ensures
            r == (WireRevisionstoreMetadata { size: self.size, flags: self.flags }),
    {
        WireRevisionstoreMetadata { size: self.size, flags: self.flags }
    }
}

/// Converting an id, parents or metadata to the wire and back gives the
/// value that was converted.
pub proof fn wire_round_trip(id: HgId, parents: Parents, meta: RevisionstoreMetadata)
    ensures
        WireHgId(id.bytes).spec_to_api() == Ok::<HgId, WireToApiConversionError>(id),
        parents_to_wire(parents).spec_to_api() == Ok::<Parents, WireToApiConversionError>(parents),
        (WireRevisionstoreMetadata { size: meta.size, flags: meta.flags }).spec_to_api() == Ok::<
            RevisionstoreMetadata,
            WireToApiConversionError,
        >(meta),
{
}

/// Whether `v` equals the default value of its type.
pub fn is_default<T: Default + PartialEq>(v: &T) -> (r: bool)
    ensures
        T::obeys_eq_spec() ==> exists|d: T| call_ensures(T::default, (), d) && r == v.eq_spec(&d),
{
    let d = T::default();
    *v == d
}

} // verus!
