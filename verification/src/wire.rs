//! The shapes a network identifier takes on the wire, and the conversions
//! between them and [`NetworkId`].
//!
//! Two shapes coexist while a fleet is upgraded. Older nodes know the legacy
//! shape only, so every value is written in it; newer nodes may one day write
//! the current shape, so both are read. Writing is therefore narrow and
//! reading is wide, and that asymmetry is what keeps mixed fleets talking.

use crate::network_id::NetworkId;
use vstd::prelude::*;

verus! {

/// The legacy shape: what older nodes write and read.
///
/// The relay network has no tag of its own here. It travels as a private
/// network whose name is the relay network's tag.
#[derive(Debug, PartialEq, Eq)]
pub enum LegacyNetworkId {
    Validator,
    Public,
    Private(String),
}

/// The current shape: the tags that newer nodes may write once every node
/// reads them. `NewPublic` is a transitional second tag for the public
/// network.
#[derive(Clone, Copy, Debug, PartialEq, Eq, Structural)]
pub enum CurrentNetworkId {
    Validator,
    Public,
    Vfn,
    NewPublic,
}

/// Every tag a reader must accept: the union of both shapes.
#[derive(Debug, PartialEq, Eq)]
pub enum WireNetworkId {
    Validator,
    Public,
    Private(String),
    Vfn,
    NewPublic,
}

/// A legacy tag as a mathematical value.
pub enum LegacyShape {
    Validator,
    Public,
    Private(Seq<char>),
}

/// Any accepted tag as a mathematical value.
pub enum WireShape {
    Validator,
    Public,
    Private(Seq<char>),
    Vfn,
    NewPublic,
}

/// The tag of a wire value, apart from the name a private network carries.
///
/// A compact binary encoding writes a tag as its index, a structured
/// document writes it as its name. Both tables are fixed: a tag that changed
/// its index or its name could no longer be read by the nodes already
/// running.
#[derive(Clone, Copy, Debug, PartialEq, Eq, Structural, Hash)]
pub enum WireTag {
    Validator,
    Public,
    Private,
    Vfn,
    NewPublic,
}

impl View for LegacyNetworkId {
    type V = LegacyShape;

    open spec fn view(&self) -> LegacyShape {
        match self {
            LegacyNetworkId::Validator => LegacyShape::Validator,
            LegacyNetworkId::Public => LegacyShape::Public,
            LegacyNetworkId::Private(name) => LegacyShape::Private(name@),
        }
    }
}

impl View for WireNetworkId {
    type V = WireShape;

    open spec fn view(&self) -> WireShape {
        match self {
            WireNetworkId::Validator => WireShape::Validator,
            WireNetworkId::Public => WireShape::Public,
            WireNetworkId::Private(name) => WireShape::Private(name@),
            WireNetworkId::Vfn => WireShape::Vfn,
            WireNetworkId::NewPublic => WireShape::NewPublic,
        }
    }
}

impl Clone for LegacyNetworkId {
    fn clone(&self) -> (copy: LegacyNetworkId)
        ensures
            copy@ == self@,
    {
        match self {
            LegacyNetworkId::Validator => LegacyNetworkId::Validator,
            LegacyNetworkId::Public => LegacyNetworkId::Public,
            LegacyNetworkId::Private(name) => LegacyNetworkId::Private(name.clone()),
        }
    }
}

impl Clone for WireNetworkId {
    fn clone(&self) -> (copy: WireNetworkId)
        ensures
            copy@ == self@,
    {
        match self {
            WireNetworkId::Validator => WireNetworkId::Validator,
            WireNetworkId::Public => WireNetworkId::Public,
            WireNetworkId::Private(name) => WireNetworkId::Private(name.clone()),
            WireNetworkId::Vfn => WireNetworkId::Vfn,
            WireNetworkId::NewPublic => WireNetworkId::NewPublic,
        }
    }
}

impl LegacyShape {
    /// The same tag, seen as one of the accepted tags.
    pub open spec fn widen(self) -> WireShape {
        match self {
            LegacyShape::Validator => WireShape::Validator,
            LegacyShape::Public => WireShape::Public,
            LegacyShape::Private(name) => WireShape::Private(name),
        }
    }

    /// The network an older node writes this way.
    pub open spec fn of(id: NetworkId) -> LegacyShape {
        match id {
            NetworkId::Validator => LegacyShape::Validator,
            NetworkId::Public => LegacyShape::Public,
            NetworkId::Vfn => LegacyShape::Private(NetworkId::Vfn.tag()),
        }
    }

    /// The network a legacy tag stands for. Any private network is read as
    /// the relay network, whatever its name.
    pub open spec fn network(self) -> NetworkId {
        match self {
            LegacyShape::Validator => NetworkId::Validator,
            LegacyShape::Public => NetworkId::Public,
            LegacyShape::Private(_) => NetworkId::Vfn,
        }
    }
}

impl CurrentNetworkId {
    /// The same tag, seen as one of the accepted tags.
    pub open spec fn widen(self) -> WireShape {
        match self {
            CurrentNetworkId::Validator => WireShape::Validator,
            CurrentNetworkId::Public => WireShape::Public,
            CurrentNetworkId::Vfn => WireShape::Vfn,
            CurrentNetworkId::NewPublic => WireShape::NewPublic,
        }
    }

    /// The network a current tag stands for.
    pub open spec fn network(self) -> NetworkId {
        match self {
            CurrentNetworkId::Validator => NetworkId::Validator,
            CurrentNetworkId::Public => NetworkId::Public,
            CurrentNetworkId::Vfn => NetworkId::Vfn,
            CurrentNetworkId::NewPublic => NetworkId::Public,
        }
    }

    /// Hands the tag to a reader of both shapes.
    pub fn into_wire(self) -> (wire: WireNetworkId)
        ensures
            wire@ == self.widen(),
    {
        match self {
            CurrentNetworkId::Validator => WireNetworkId::Validator,
            CurrentNetworkId::Public => WireNetworkId::Public,
            CurrentNetworkId::Vfn => WireNetworkId::Vfn,
            CurrentNetworkId::NewPublic => WireNetworkId::NewPublic,
        }
    }
}

impl LegacyNetworkId {
    /// The tag of the value, which is always one the legacy shape has.
    pub fn tag(&self) -> (tag: WireTag)
        ensures
            tag == self@.widen().tag(),
            tag.is_legacy(),
    {
        match self {
            LegacyNetworkId::Validator => WireTag::Validator,
            LegacyNetworkId::Public => WireTag::Public,
            LegacyNetworkId::Private(_) => WireTag::Private,
        }
    }

    /// Hands the tag to a reader of both shapes.
    pub fn into_wire(self) -> (wire: WireNetworkId)
        ensures
            wire@ == self@.widen(),
    {
        match self {
            LegacyNetworkId::Validator => WireNetworkId::Validator,
            LegacyNetworkId::Public => WireNetworkId::Public,
            LegacyNetworkId::Private(name) => WireNetworkId::Private(name),
        }
    }
}

impl WireShape {
    /// The network an accepted tag stands for.
    pub open spec fn network(self) -> NetworkId {
        match self {
            WireShape::Validator => NetworkId::Validator,
            WireShape::Public => NetworkId::Public,
            WireShape::Private(_) => NetworkId::Vfn,
            WireShape::Vfn => NetworkId::Vfn,
            WireShape::NewPublic => NetworkId::Public,
        }
    }
}

impl WireTag {
    /// The index of the tag in a compact binary encoding.
    pub open spec fn spec_index(self) -> u32 {
        match self {
            WireTag::Validator => 0,
            WireTag::Public => 1,
            WireTag::Private => 2,
            WireTag::Vfn => 3,
            WireTag::NewPublic => 4,
        }
    }

    /// The name of the tag in a structured document.
    pub open spec fn spec_name(self) -> Seq<char> {
        match self {
            WireTag::Validator => "validator"@,
            WireTag::Public => "public"@,
            WireTag::Private => "private"@,
            WireTag::Vfn => "vfn"@,
            WireTag::NewPublic => "new_public"@,
        }
    }

    /// Whether the legacy shape has the tag.
    pub open spec fn spec_is_legacy(self) -> bool {
        self is Validator || self is Public || self is Private
    }

    /// Whether the current shape has the tag.
    pub open spec fn spec_is_current(self) -> bool {
        !(self is Private)
    }

    /// Whether a value with this tag carries the name of a private network.
    pub open spec fn spec_carries_name(self) -> bool {
        self is Private
    }

    #[verifier::when_used_as_spec(spec_index)]
    pub fn index(self) -> (index: u32)
        ensures
            index == self.spec_index(),
    {
        match self {
            WireTag::Validator => 0,
            WireTag::Public => 1,
            WireTag::Private => 2,
            WireTag::Vfn => 3,
            WireTag::NewPublic => 4,
        }
    }

    pub fn name(self) -> (name: &'static str)
        ensures
            name@ == self.spec_name(),
    {
        match self {
            WireTag::Validator => "validator",
            WireTag::Public => "public",
            WireTag::Private => "private",
            WireTag::Vfn => "vfn",
            WireTag::NewPublic => "new_public",
        }
    }

    #[verifier::when_used_as_spec(spec_is_legacy)]
    pub fn is_legacy(self) -> (legacy: bool)
        ensures
            legacy == self.spec_is_legacy(),
    {
        match self {
            WireTag::Validator | WireTag::Public | WireTag::Private => true,
            WireTag::Vfn | WireTag::NewPublic => false,
        }
    }

    #[verifier::when_used_as_spec(spec_is_current)]
    pub fn is_current(self) -> (current: bool)
        ensures
            current == self.spec_is_current(),
    {
        match self {
            WireTag::Private => false,
            _ => true,
        }
    }

    #[verifier::when_used_as_spec(spec_carries_name)]
    pub fn carries_name(self) -> (carries: bool)
        ensures
            carries == self.spec_carries_name(),
    {
        match self {
            WireTag::Private => true,
            _ => false,
        }
    }

    /// The tag with the given index, if there is one.
    pub fn from_index(index: u32) -> (found: Option<WireTag>)
        ensures
            match found {
                Some(tag) => tag.index() == index,
                None => forall|tag: WireTag| tag.index() != index,
            },
    {
        if index == 0 {
            Some(WireTag::Validator)
        } else if index == 1 {
            Some(WireTag::Public)
        } else if index == 2 {
            Some(WireTag::Private)
        } else if index == 3 {
            Some(WireTag::Vfn)
        } else if index == 4 {
            Some(WireTag::NewPublic)
        } else {
            None
        }
    }

    /// The tag with the given name, if there is one. Names are matched as
    /// they are written, letter for letter.
    pub fn from_name(name: &str) -> (found: Option<WireTag>)
        ensures
            match found {
                Some(tag) => tag.spec_name() == name@,
                None => forall|tag: WireTag| tag.spec_name() != name@,
            },
    {
        let name: String = name.to_owned();
        if name == WireTag::Validator.name().to_owned() {
            Some(WireTag::Validator)
        } else if name == WireTag::Public.name().to_owned() {
            Some(WireTag::Public)
        } else if name == WireTag::Private.name().to_owned() {
            Some(WireTag::Private)
        } else if name == WireTag::Vfn.name().to_owned() {
            Some(WireTag::Vfn)
        } else if name == WireTag::NewPublic.name().to_owned() {
            Some(WireTag::NewPublic)
        } else {
            None
        }
    }
}

impl WireShape {
    /// The tag of the value.
    pub open spec fn tag(self) -> WireTag {
        match self {
            WireShape::Validator => WireTag::Validator,
            WireShape::Public => WireTag::Public,
            WireShape::Private(_) => WireTag::Private,
            WireShape::Vfn => WireTag::Vfn,
            WireShape::NewPublic => WireTag::NewPublic,
        }
    }

    /// The name the value carries, if its tag carries one.
    pub open spec fn name(self) -> Option<Seq<char>> {
        match self {
            WireShape::Private(name) => Some(name),
            _ => None,
        }
    }

    /// The value as the legacy shape has it, if the legacy shape has its tag.
    pub open spec fn to_legacy(self) -> Option<LegacyShape> {
        match self {
            WireShape::Validator => Some(LegacyShape::Validator),
            WireShape::Public => Some(LegacyShape::Public),
            WireShape::Private(name) => Some(LegacyShape::Private(name)),
            _ => None,
        }
    }

    /// The value as the current shape has it, if the current shape has its
    /// tag.
    pub open spec fn to_current(self) -> Option<CurrentNetworkId> {
        match self {
            WireShape::Validator => Some(CurrentNetworkId::Validator),
            WireShape::Public => Some(CurrentNetworkId::Public),
            WireShape::Vfn => Some(CurrentNetworkId::Vfn),
            WireShape::NewPublic => Some(CurrentNetworkId::NewPublic),
            WireShape::Private(_) => None,
        }
    }

    /// The value with the given tag and name. There is one exactly when a
    /// name is given for a tag that carries one and none for a tag that does
    /// not.
    pub open spec fn from_parts(tag: WireTag, name: Option<Seq<char>>) -> Option<WireShape> {
        match (tag, name) {
            (WireTag::Validator, None) => Some(WireShape::Validator),
            (WireTag::Public, None) => Some(WireShape::Public),
            (WireTag::Private, Some(name)) => Some(WireShape::Private(name)),
            (WireTag::Vfn, None) => Some(WireShape::Vfn),
            (WireTag::NewPublic, None) => Some(WireShape::NewPublic),
            _ => None,
        }
    }
}

/// The name a string option carries, as a mathematical value.
pub open spec fn name_view(name: Option<String>) -> Option<Seq<char>> {
    match name {
        Some(name) => Some(name@),
        None => None,
    }
}

impl WireNetworkId {
    /// The tag of the value.
    pub fn tag(&self) -> (tag: WireTag)
        ensures
            tag == self@.tag(),
    {
        match self {
            WireNetworkId::Validator => WireTag::Validator,
            WireNetworkId::Public => WireTag::Public,
            WireNetworkId::Private(_) => WireTag::Private,
            WireNetworkId::Vfn => WireTag::Vfn,
            WireNetworkId::NewPublic => WireTag::NewPublic,
        }
    }

    /// Reads the value as a node does that knows the legacy shape only. Such
    /// a node cannot read the tags that the current shape added.
    pub fn into_legacy(self) -> (legacy: Option<LegacyNetworkId>)
        ensures
            match legacy {
                Some(legacy) => self@.to_legacy() == Some(legacy@),
                None => self@.to_legacy() is None,
            },
            legacy is Some <==> self@.tag().is_legacy(),
    {
        match self {
            WireNetworkId::Validator => Some(LegacyNetworkId::Validator),
            WireNetworkId::Public => Some(LegacyNetworkId::Public),
            WireNetworkId::Private(name) => Some(LegacyNetworkId::Private(name)),
            WireNetworkId::Vfn => None,
            WireNetworkId::NewPublic => None,
        }
    }

    /// Reads the value as the current shape has it, if it has its tag.
    pub fn to_current(&self) -> (current: Option<CurrentNetworkId>)
        ensures
            current == self@.to_current(),
            current is Some <==> self@.tag().is_current(),
    {
        match self {
            WireNetworkId::Validator => Some(CurrentNetworkId::Validator),
            WireNetworkId::Public => Some(CurrentNetworkId::Public),
            WireNetworkId::Vfn => Some(CurrentNetworkId::Vfn),
            WireNetworkId::NewPublic => Some(CurrentNetworkId::NewPublic),
            WireNetworkId::Private(_) => None,
        }
    }

    /// Takes the value apart into its tag and the name it carries.
    pub fn into_parts(self) -> (parts: (WireTag, Option<String>))
        ensures
            parts.0 == self@.tag(),
            name_view(parts.1) == self@.name(),
            WireShape::from_parts(parts.0, name_view(parts.1)) == Some(self@),
    {
        match self {
            WireNetworkId::Validator => (WireTag::Validator, None),
            WireNetworkId::Public => (WireTag::Public, None),
            WireNetworkId::Private(name) => (WireTag::Private, Some(name)),
            WireNetworkId::Vfn => (WireTag::Vfn, None),
            WireNetworkId::NewPublic => (WireTag::NewPublic, None),
        }
    }

    /// Puts a value together from a tag and a name, as a reader does after
    /// it has read the tag. Fails where the name is missing or one too many.
    pub fn from_parts(tag: WireTag, name: Option<String>) -> (wire: Option<WireNetworkId>)
        ensures
            match wire {
                Some(wire) => WireShape::from_parts(tag, name_view(name)) == Some(wire@),
                None => WireShape::from_parts(tag, name_view(name)) is None,
            },
            wire is Some <==> (tag.carries_name() <==> name is Some),
    {
        match (tag, name) {
            (WireTag::Validator, None) => Some(WireNetworkId::Validator),
            (WireTag::Public, None) => Some(WireNetworkId::Public),
            (WireTag::Private, Some(name)) => Some(WireNetworkId::Private(name)),
            (WireTag::Vfn, None) => Some(WireNetworkId::Vfn),
            (WireTag::NewPublic, None) => Some(WireNetworkId::NewPublic),
            _ => None,
        }
    }
}

impl NetworkId {
    /// Writes the network. Only legacy tags are ever written, so that nodes
    /// which know no other shape can still read the value.
    pub fn encode(&self) -> (legacy: LegacyNetworkId)
        ensures
            legacy@ == LegacyShape::of(*self),
    {
        match self {
            NetworkId::Validator => LegacyNetworkId::Validator,
            NetworkId::Public => LegacyNetworkId::Public,
            NetworkId::Vfn => LegacyNetworkId::Private(NetworkId::Vfn.as_str().to_owned()),
        }
    }

    /// Reads a legacy tag.
    pub fn decode_legacy(legacy: &LegacyNetworkId) -> (id: NetworkId)
        ensures
            id == legacy@.network(),
    {
        match legacy {
            LegacyNetworkId::Validator => NetworkId::Validator,
            LegacyNetworkId::Public => NetworkId::Public,
            LegacyNetworkId::Private(_) => NetworkId::Vfn,
        }
    }

    /// Reads a current tag.
    pub fn decode_current(current: CurrentNetworkId) -> (id: NetworkId)
        ensures
            id == current.network(),
    {
        match current {
            CurrentNetworkId::Validator => NetworkId::Validator,
            CurrentNetworkId::Public => NetworkId::Public,
            CurrentNetworkId::Vfn => NetworkId::Vfn,
            CurrentNetworkId::NewPublic => NetworkId::Public,
        }
    }

    /// Reads any accepted tag. Never fails: every tag stands for a network.
    pub fn decode(wire: &WireNetworkId) -> (id: NetworkId)
        ensures
            id == wire@.network(),
    {
        match wire.to_current() {
            Some(current) => NetworkId::decode_current(current),
            // What the current shape lacks is a private network of the
            // legacy shape, and that is read as the relay network whatever
            // its name.
            None => NetworkId::Vfn,
        }
    }
}

/// Writing a network and reading it back gives the network written.
pub proof fn lemma_encode_decode(id: NetworkId)
    ensures
        LegacyShape::of(id).network() == id,
        LegacyShape::of(id).widen().network() == id,
{
}

/// The reader of both shapes reads a legacy tag as a reader of the legacy
/// shape does: the validator and public tags as themselves, and a private
/// network of any name as the relay network.
pub proof fn lemma_decode_reads_legacy(legacy: LegacyShape)
    ensures
        legacy.widen().network() == legacy.network(),
        legacy is Validator ==> legacy.widen().network() == NetworkId::Validator,
        legacy is Public ==> legacy.widen().network() == NetworkId::Public,
        legacy is Private ==> legacy.widen().network() == NetworkId::Vfn,
{
}

/// The reader of both shapes reads a current tag as a reader of the current
/// shape does.
pub proof fn lemma_decode_reads_current(current: CurrentNetworkId)
    ensures
        current.widen().network() == current.network(),
{
}

/// Every accepted tag belongs to at least one of the two shapes, and the
/// reader of both shapes reads it as the reader of that shape does.
pub proof fn lemma_wire_is_union(wire: WireShape)
    ensures
        wire.to_legacy() is Some || wire.to_current() is Some,
        wire.to_legacy() matches Some(legacy) ==> legacy.widen() == wire && legacy.network()
            == wire.network(),
        wire.to_current() matches Some(current) ==> current.widen() == wire && current.network()
            == wire.network(),
        (exists|legacy: LegacyShape| #[trigger] legacy.widen() == wire) || (exists|
            current: CurrentNetworkId,
        | #[trigger] current.widen() == wire),
{
    match wire {
        WireShape::Validator => {
            assert(LegacyShape::Validator.widen() == wire);
        },
        WireShape::Public => {
            assert(LegacyShape::Public.widen() == wire);
        },
        WireShape::Private(name) => {
            assert(LegacyShape::Private(name).widen() == wire);
        },
        WireShape::Vfn => {
            assert(CurrentNetworkId::Vfn.widen() == wire);
        },
        WireShape::NewPublic => {
            assert(CurrentNetworkId::NewPublic.widen() == wire);
        },
    }
}

/// The relay network is written as a private network that carries the relay
/// network's tag, and no network is written with a tag outside the legacy
/// shape.
pub proof fn lemma_vfn_written_as_private()
    ensures
        LegacyShape::of(NetworkId::Vfn) == LegacyShape::Private("vfn"@),
        forall|id: NetworkId| #[trigger]
            LegacyShape::of(id).widen().to_legacy() == Some(LegacyShape::of(id)),
        forall|id: NetworkId|
            !(#[trigger] LegacyShape::of(id).widen() is Vfn) && !(LegacyShape::of(
                id,
            ).widen() is NewPublic),
{
}

/// No two tags share an index, and none shares a name: a reader can tell
/// every tag from every other in either encoding.
pub proof fn lemma_tags_distinct(a: WireTag, b: WireTag)
    ensures
        a.index() == b.index() <==> a == b,
        a.spec_name() == b.spec_name() <==> a == b,
        0 <= a.index() < 5,
{
    reveal_strlit("validator");
    reveal_strlit("public");
    reveal_strlit("private");
    reveal_strlit("vfn");
    reveal_strlit("new_public");
    assert("validator"@.len() == 9);
    assert("public"@.len() == 6);
    assert("private"@.len() == 7);
    assert("vfn"@.len() == 3);
    assert("new_public"@.len() == 10);
}

/// Every accepted tag is a tag of the legacy shape or of the current shape,
/// and what is written always has a tag of the legacy shape.
pub proof fn lemma_tags_of_shapes(tag: WireTag, id: NetworkId)
    ensures
        tag.is_legacy() || tag.is_current(),
        LegacyShape::of(id).widen().tag().is_legacy(),
        forall|legacy: LegacyShape| #[trigger] legacy.widen().tag().is_legacy(),
        forall|current: CurrentNetworkId| #[trigger] current.widen().tag().is_current(),
{
}

} // verus!
