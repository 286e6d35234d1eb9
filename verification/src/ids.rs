//! The typed identifier mirror: one identifier per entity, tagged with a
//! tag of the same lattice the values use, so that identifier subtyping
//! exactly mirrors value subtyping.  Identifiers are opaque tokens;
//! equality is the only supported operation besides use as a lookup key.

use vstd::prelude::*;

use crate::lattice::check_subtag;
use crate::lattice::is_subtag;
use crate::lattice::TypeTag;
use crate::narrow::Typed;

verus! {

/// An entity identifier: an opaque token carrying the tag of the entity
/// type it identifies.
#[derive(Clone, Copy, Debug, PartialEq, Eq, Hash, Structural)]
pub struct TypedId {
    /// The tag of the identified entity type.
    pub tag: TypeTag,
    /// The opaque token.
    pub raw: u64,
}

impl TypedId {
    /// An identifier of a subtag may always be used where an identifier
    /// of a broader tag is expected; the token never changes.
    pub fn widen(self, target: TypeTag) -> (r: TypedId)
        requires
            is_subtag(self.tag, target),
        ensures
            r.tag == target,
            r.raw == self.raw,
    {
        TypedId { tag: target, raw: self.raw }
    }

    /// The identifier may be used as a key against a collection of the
    /// given kind: its tag is an ancestor or a descendant of the kind's
    /// tag.  A purely static capability restriction, never a semantic
    /// filter — whether a lookup finds anything depends on the token
    /// alone.
    pub open spec fn compatible_with(self, kind: TypeTag) -> bool {
        is_subtag(self.tag, kind) || is_subtag(kind, self.tag)
    }

    /// Decides [`TypedId::compatible_with`].
    pub fn check_compatible_with(&self, kind: TypeTag) -> (b: bool)
        ensures
            b == self.compatible_with(kind),
    {
        check_subtag(self.tag, kind) || check_subtag(kind, self.tag)
    }
}

impl Typed {
    /// The identifier of a typed view: the record's token under the
    /// view's own tag, mirroring the view in the identifier lattice.
    pub fn id(&self) -> (r: TypedId)
        ensures
            r.tag == self.tag,
            r.raw == self.rec.id,
    {
        TypedId { tag: self.tag, raw: self.rec.id }
    }
}

} // verus!
