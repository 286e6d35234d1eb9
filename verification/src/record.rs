//! The raw structural value describing one entity, as received from the
//! host environment, together with the primitive structural probes that
//! the classification lattice is built from.

use vstd::prelude::*;

verus! {

/// A player identifier.  Opaque: equality is the only supported operation.
pub type PlayerId = u64;

/// The possible values of a spirit or base's shape property.
#[derive(Clone, Copy, Debug, PartialEq, Eq, Structural)]
pub enum Shape {
    Circles,
    Squares,
    Triangles,
}

/// The possible structure-kind discriminants.  The discriminant is
/// authoritative for telling bases, outposts and stars apart.
#[derive(Clone, Copy, Debug, PartialEq, Eq, Structural)]
pub enum StructureType {
    Base,
    Outpost,
    Star,
}

/// One entity of the board, flattened to plain values.
///
/// The host hands entities over as loosely typed records; ingestion reads
/// each property once and stores it here.  A property that only some kinds
/// of entity carry is an `Option`, and its presence or absence is itself a
/// structural probe: `hp` marks a destructible, `structure_type` marks a
/// structure, `spirit_cost` marks a base.
#[derive(Clone, Copy, Debug, PartialEq, Eq)]
pub struct EntityRecord {
    /// The entity's identifier, an opaque token.
    pub id: u64,
    /// First board coordinate.
    pub x: i64,
    /// Second board coordinate.
    pub y: i64,
    /// The entity's size.
    pub size: u32,
    /// Stored energy.
    pub energy: i32,
    /// Energy capacity.
    pub energy_capacity: i32,
    /// The identifier of the entity that last energized this one, if any.
    pub last_energized_by: Option<u64>,
    /// Hit points; present exactly on destructible entities.
    pub hp: Option<u32>,
    /// The owning player; present on destructible entities.
    pub player: Option<PlayerId>,
    /// The entity's shape; present on destructible entities.
    pub shape: Option<Shape>,
    /// The structure-kind discriminant; present exactly on structures.
    pub structure_type: Option<StructureType>,
    /// The current cost of a new spirit; present exactly on bases.
    pub spirit_cost: Option<i32>,
    /// The controlling player, for an outpost.
    pub control: Option<PlayerId>,
    /// For a star: in how many turns it becomes active.
    pub active_in: Option<u32>,
    /// For a star: at which turn it becomes active.
    pub active_at: Option<u32>,
}

impl EntityRecord {
    /// The entity carries hit points, i.e. can be destroyed.
    pub open spec fn is_destructible(self) -> bool {
        self.hp is Some
    }

    /// The entity is living: it either carries no hit points at all, or
    /// carries more than zero.
    pub open spec fn is_living(self) -> bool {
        match self.hp {
            Some(h) => h > 0,
            None => true,
        }
    }

    /// The entity is dead: it carries hit points and they are zero.
    /// A terminal but still observable state.
    pub open spec fn is_dead(self) -> bool {
        self.hp == Some(0u32)
    }

    /// The entity carries a structure-kind discriminant.
    pub open spec fn is_structure(self) -> bool {
        self.structure_type is Some
    }

    /// The entity is mobile: it carries no structure-kind discriminant.
    /// A destructible mobile entity is a spirit.
    pub open spec fn is_mobile(self) -> bool {
        self.structure_type is None
    }

    /// The structure-kind discriminant names a base.
    pub open spec fn is_base_kind(self) -> bool {
        self.structure_type == Some(StructureType::Base)
    }

    /// The structure-kind discriminant names an outpost.
    pub open spec fn is_outpost_kind(self) -> bool {
        self.structure_type == Some(StructureType::Outpost)
    }

    /// The structure-kind discriminant names a star.
    pub open spec fn is_star_kind(self) -> bool {
        self.structure_type == Some(StructureType::Star)
    }

    /// The entity belongs to the player `me`.
    pub open spec fn is_friendly(self, me: PlayerId) -> bool {
        self.player == Some(me)
    }

    /// The entity has the given shape.
    pub open spec fn has_shape(self, s: Shape) -> bool {
        self.shape == Some(s)
    }

    /// The structural probe the source hierarchy falls back to where no
    /// typed discriminant is available: presence of a cost-like field
    /// distinguishes a base from a generic destructible.
    pub open spec fn has_cost_field(self) -> bool {
        self.spirit_cost is Some
    }

    /// What the host guarantees of every record it hands out.  The typed
    /// discriminant is authoritative; the fallback probes must agree with
    /// it, structures are living, destructible structures are bases, and
    /// bases are destructible.  A record that breaks this is a host
    /// contract break, surfaced by [`EntityRecord::check_consistent`].
    pub open spec fn host_consistent(self) -> bool {
        &&& self.has_cost_field() <==> self.is_base_kind()
        &&& self.is_structure() ==> self.is_living()
        &&& self.is_destructible() && self.is_structure() ==> self.is_base_kind()
        &&& self.is_base_kind() ==> self.is_destructible()
        &&& self.is_destructible() ==> self.player is Some && self.shape is Some
    }

    /// Decides [`EntityRecord::host_consistent`].  A `false` result is the
    /// detectable inconsistency that callers should surface loudly rather
    /// than swallow.
    pub fn check_consistent(&self) -> (b: bool)
        ensures
            b == self.host_consistent(),
    {
        let cost_agrees: bool = match (self.spirit_cost, self.structure_type) {
            (Some(_), Some(StructureType::Base)) => true,
            (None, Some(StructureType::Base)) => false,
            (Some(_), _) => false,
            (None, _) => true,
        };
        let living: bool = match self.hp {
            Some(h) => h > 0,
            None => true,
        };
        let structure_living: bool = match self.structure_type {
            Some(_) => living,
            None => true,
        };
        let destructible_structure_is_base: bool = match (self.hp, self.structure_type) {
            (Some(_), Some(StructureType::Base)) => true,
            (Some(_), Some(_)) => false,
            _ => true,
        };
        let base_destructible: bool = match self.structure_type {
            Some(StructureType::Base) => matches!(self.hp, Some(_)),
            _ => true,
        };
        let destructible_owned: bool = match self.hp {
            Some(_) => matches!(self.player, Some(_)) && matches!(self.shape, Some(_)),
            None => true,
        };
        cost_agrees && structure_living && destructible_structure_is_base && base_destructible
            && destructible_owned
    }

    /// The identifier of the entity that last energized this one, if any.
    pub fn last_energized(&self) -> (r: Option<u64>)
        ensures
            r == self.last_energized_by,
    {
        self.last_energized_by
    }
}

} // verus!
