//! The predicate lattice: every named subtype of entity is a tag, each tag
//! denotes a capability set (a conjunction of primitive structural
//! probes), and a record may be classified as a tag exactly when it meets
//! the tag's capability set.
//!
//! Composite predicates are derived from the primitive probes of
//! [`crate::record::EntityRecord`] by conjunction, never duplicated, so
//! the lattice stays consistent under extension.

use vstd::prelude::*;

use crate::record::EntityRecord;
use crate::record::PlayerId;
use crate::record::Shape;
use crate::record::StructureType;

verus! {

/// One named subtype of entity.  Value types and identifier types share
/// this lattice: identifier subtyping exactly mirrors value subtyping.
#[derive(Clone, Copy, Debug, PartialEq, Eq, Hash, Structural)]
pub enum TypeTag {
    /// Any object potentially on the game board.
    Entity,
    /// An entity that is not dead.
    LivingEntity,
    /// An entity with hit points, which can be destroyed.
    Destructible,
    /// A destructible that has not been destroyed.
    LivingDestructible,
    /// An entity with a structure-kind discriminant.
    Structure,
    /// A player base.
    Base,
    /// An outpost.
    Outpost,
    /// A star.
    Star,
    /// A mobile destructible controlled by a player.
    Spirit,
    /// A spirit that belongs to this player.
    FriendlySpirit,
    /// A spirit that does not belong to this player.
    EnemySpirit,
    /// A spirit with positive hit points.
    LivingSpirit,
    /// A spirit with zero hit points.
    DeadSpirit,
    /// A living friendly spirit: the only spirits actions may be invoked
    /// on, hence also called operable.
    LivingFriendlySpirit,
    /// A friendly spirit with zero hit points.
    DeadFriendlySpirit,
    /// An enemy spirit with positive hit points.
    LivingEnemySpirit,
    /// An enemy spirit with zero hit points.
    DeadEnemySpirit,
    /// An operable spirit whose shape grants merge and divide.
    OperableCircleSpirit,
    /// An operable spirit whose shape grants jump.
    OperableSquareSpirit,
    /// An operable spirit whose shape grants explode.
    OperableTriangleSpirit,
}

/// The capability set a tag demands of a record: one flag per primitive
/// structural probe, plus an optional required shape.  A record belongs
/// to a tag exactly when it passes every flagged probe.
#[derive(Clone, Copy, Debug, PartialEq, Eq)]
pub struct Caps {
    /// The record must carry hit points.
    pub destructible: bool,
    /// The record must be living.
    pub living: bool,
    /// The record must be dead.
    pub dead: bool,
    /// The record must carry no structure-kind discriminant.
    pub mobile: bool,
    /// The record must carry a structure-kind discriminant.
    pub structure: bool,
    /// The discriminant must name a base.
    pub base: bool,
    /// The discriminant must name an outpost.
    pub outpost: bool,
    /// The discriminant must name a star.
    pub star: bool,
    /// The record must belong to this player.
    pub friendly: bool,
    /// The record must not belong to this player.
    pub enemy: bool,
    /// The record must have this shape, if demanded.
    pub shape: Option<Shape>,
}

/// The capability set with nothing demanded, met by every record.
pub open spec fn caps_none() -> Caps {
    Caps {
        destructible: false,
        living: false,
        dead: false,
        mobile: false,
        structure: false,
        base: false,
        outpost: false,
        star: false,
        friendly: false,
        enemy: false,
        shape: None,
    }
}

/// The capability set of each tag.  Composites are spelled as the union
/// of the flags of the primitives they refine.
pub open spec fn caps_of(t: TypeTag) -> Caps {
    match t {
        TypeTag::Entity => caps_none(),
        TypeTag::LivingEntity => Caps { living: true, ..caps_none() },
        TypeTag::Destructible => Caps { destructible: true, ..caps_none() },
        TypeTag::LivingDestructible => Caps {
            destructible: true,
            living: true,
            ..caps_none()
        },
        TypeTag::Structure => Caps { living: true, structure: true, ..caps_none() },
        TypeTag::Base => Caps {
            destructible: true,
            living: true,
            structure: true,
            base: true,
            ..caps_none()
        },
        TypeTag::Outpost => Caps { living: true, structure: true, outpost: true, ..caps_none() },
        TypeTag::Star => Caps { living: true, structure: true, star: true, ..caps_none() },
        TypeTag::Spirit => Caps { destructible: true, mobile: true, ..caps_none() },
        TypeTag::FriendlySpirit => Caps {
            destructible: true,
            mobile: true,
            friendly: true,
            ..caps_none()
        },
        TypeTag::EnemySpirit => Caps {
            destructible: true,
            mobile: true,
            enemy: true,
            ..caps_none()
        },
        TypeTag::LivingSpirit => Caps {
            destructible: true,
            mobile: true,
            living: true,
            ..caps_none()
        },
        TypeTag::DeadSpirit => Caps { destructible: true, mobile: true, dead: true, ..caps_none() },
        TypeTag::LivingFriendlySpirit => Caps {
            destructible: true,
            mobile: true,
            living: true,
            friendly: true,
            ..caps_none()
        },
        TypeTag::DeadFriendlySpirit => Caps {
            destructible: true,
            mobile: true,
            dead: true,
            friendly: true,
            ..caps_none()
        },
        TypeTag::LivingEnemySpirit => Caps {
            destructible: true,
            mobile: true,
            living: true,
            enemy: true,
            ..caps_none()
        },
        TypeTag::DeadEnemySpirit => Caps {
            destructible: true,
            mobile: true,
            dead: true,
            enemy: true,
            ..caps_none()
        },
        TypeTag::OperableCircleSpirit => Caps {
            destructible: true,
            mobile: true,
            living: true,
            friendly: true,
            shape: Some(Shape::Circles),
            ..caps_none()
        },
        TypeTag::OperableSquareSpirit => Caps {
            destructible: true,
            mobile: true,
            living: true,
            friendly: true,
            shape: Some(Shape::Squares),
            ..caps_none()
        },
        TypeTag::OperableTriangleSpirit => Caps {
            destructible: true,
            mobile: true,
            living: true,
            friendly: true,
            shape: Some(Shape::Triangles),
            ..caps_none()
        },
    }
}

/// A record meets a capability set when it passes every flagged probe,
/// judged with `me` as this player.
pub open spec fn meets(c: Caps, r: EntityRecord, me: PlayerId) -> bool {
    &&& c.destructible ==> r.is_destructible()
    &&& c.living ==> r.is_living()
    &&& c.dead ==> r.is_dead()
    &&& c.mobile ==> r.is_mobile()
    &&& c.structure ==> r.is_structure()
    &&& c.base ==> r.is_base_kind()
    &&& c.outpost ==> r.is_outpost_kind()
    &&& c.star ==> r.is_star_kind()
    &&& c.friendly ==> r.is_friendly(me)
    &&& c.enemy ==> !r.is_friendly(me)
    &&& c.shape matches Some(s) ==> r.has_shape(s)
}

/// The record may be classified as the tag: the pure structural test that
/// every narrowing decision reduces to.
pub open spec fn admits(t: TypeTag, r: EntityRecord, me: PlayerId) -> bool {
    meets(caps_of(t), r, me)
}

/// Capability set `a` includes capability set `b`: everything `b` demands,
/// `a` demands too.
pub open spec fn caps_include(a: Caps, b: Caps) -> bool {
    &&& b.destructible ==> a.destructible
    &&& b.living ==> a.living
    &&& b.dead ==> a.dead
    &&& b.mobile ==> a.mobile
    &&& b.structure ==> a.structure
    &&& b.base ==> a.base
    &&& b.outpost ==> a.outpost
    &&& b.star ==> a.star
    &&& b.friendly ==> a.friendly
    &&& b.enemy ==> a.enemy
    &&& b.shape matches Some(s) ==> a.shape == Some(s)
}

/// Tag `a` refines tag `b`: a value of `a` may always be viewed as `b`,
/// and an identifier of `a` is an identifier of `b`.
pub open spec fn is_subtag(a: TypeTag, b: TypeTag) -> bool {
    caps_include(caps_of(a), caps_of(b))
}

/// Refinement is sound: a record meeting the larger capability set meets
/// the smaller one.
pub proof fn lemma_caps_monotone(a: Caps, b: Caps, r: EntityRecord, me: PlayerId)
    requires
        caps_include(a, b),
        meets(a, r, me),
    ensures
        meets(b, r, me),
{
}

/// Subtags admit fewer records: classification as a subtag implies
/// classification as every tag it refines.
pub proof fn lemma_subtag_sound(a: TypeTag, b: TypeTag, r: EntityRecord, me: PlayerId)
    requires
        is_subtag(a, b),
        admits(a, r, me),
    ensures
        admits(b, r, me),
{
    lemma_caps_monotone(caps_of(a), caps_of(b), r, me);
}

/// Decides whether a record passes every probe a capability set flags.
fn meets_caps(c: &Caps, r: &EntityRecord, me: PlayerId) -> (b: bool)
    ensures
        b == meets(*c, *r, me),
{
    let destructible_ok: bool = !c.destructible || matches!(r.hp, Some(_));
    let living_ok: bool = !c.living || match r.hp {
        Some(h) => h > 0,
        None => true,
    };
    let dead_ok: bool = !c.dead || r.hp == Some(0u32);
    let mobile_ok: bool = !c.mobile || matches!(r.structure_type, None);
    let structure_ok: bool = !c.structure || matches!(r.structure_type, Some(_));
    let base_ok: bool = !c.base || matches!(r.structure_type, Some(StructureType::Base));
    let outpost_ok: bool = !c.outpost
        || matches!(r.structure_type, Some(StructureType::Outpost));
    let star_ok: bool = !c.star || matches!(r.structure_type, Some(StructureType::Star));
    let friendly: bool = match r.player {
        Some(p) => p == me,
        None => false,
    };
    let friendly_ok: bool = !c.friendly || friendly;
    let enemy_ok: bool = !c.enemy || !friendly;
    let shape_ok: bool = match c.shape {
        None => true,
        Some(s) => match r.shape {
            Some(rs) => rs == s,
            None => false,
        },
    };
    destructible_ok && living_ok && dead_ok && mobile_ok && structure_ok && base_ok && outpost_ok
        && star_ok && friendly_ok && enemy_ok && shape_ok
}

/// The capability set of each tag, as a value.
pub fn caps_of_tag(t: TypeTag) -> (c: Caps)
    ensures
        c == caps_of(t),
{
    let none = Caps {
        destructible: false,
        living: false,
        dead: false,
        mobile: false,
        structure: false,
        base: false,
        outpost: false,
        star: false,
        friendly: false,
        enemy: false,
        shape: None,
    };
    match t {
        TypeTag::Entity => none,
        TypeTag::LivingEntity => Caps { living: true, ..none },
        TypeTag::Destructible => Caps { destructible: true, ..none },
        TypeTag::LivingDestructible => Caps { destructible: true, living: true, ..none },
        TypeTag::Structure => Caps { living: true, structure: true, ..none },
        TypeTag::Base => Caps {
            destructible: true,
            living: true,
            structure: true,
            base: true,
            ..none
        },
        TypeTag::Outpost => Caps { living: true, structure: true, outpost: true, ..none },
        TypeTag::Star => Caps { living: true, structure: true, star: true, ..none },
        TypeTag::Spirit => Caps { destructible: true, mobile: true, ..none },
        TypeTag::FriendlySpirit => Caps {
            destructible: true,
            mobile: true,
            friendly: true,
            ..none
        },
        TypeTag::EnemySpirit => Caps { destructible: true, mobile: true, enemy: true, ..none },
        TypeTag::LivingSpirit => Caps { destructible: true, mobile: true, living: true, ..none },
        TypeTag::DeadSpirit => Caps { destructible: true, mobile: true, dead: true, ..none },
        TypeTag::LivingFriendlySpirit => Caps {
            destructible: true,
            mobile: true,
            living: true,
            friendly: true,
            ..none
        },
        TypeTag::DeadFriendlySpirit => Caps {
            destructible: true,
            mobile: true,
            dead: true,
            friendly: true,
            ..none
        },
        TypeTag::LivingEnemySpirit => Caps {
            destructible: true,
            mobile: true,
            living: true,
            enemy: true,
            ..none
        },
        TypeTag::DeadEnemySpirit => Caps {
            destructible: true,
            mobile: true,
            dead: true,
            enemy: true,
            ..none
        },
        TypeTag::OperableCircleSpirit => Caps {
            destructible: true,
            mobile: true,
            living: true,
            friendly: true,
            shape: Some(Shape::Circles),
            ..none
        },
        TypeTag::OperableSquareSpirit => Caps {
            destructible: true,
            mobile: true,
            living: true,
            friendly: true,
            shape: Some(Shape::Squares),
            ..none
        },
        TypeTag::OperableTriangleSpirit => Caps {
            destructible: true,
            mobile: true,
            living: true,
            friendly: true,
            shape: Some(Shape::Triangles),
            ..none
        },
    }
}

/// Decides, for a record already fetched from the host, whether it may
/// additionally be viewed as the given tag.  A pure structural test:
/// property presence, a discriminant equality check, or a numeric
/// comparison; never a host call.
pub fn can_classify_as(t: TypeTag, r: &EntityRecord, me: PlayerId) -> (b: bool)
    ensures
        b == admits(t, *r, me),
{
    let c = caps_of_tag(t);
    meets_caps(&c, r, me)
}

/// Exhaustive partition: of a spirit, exactly one of friendly and enemy
/// holds, and exactly one of living and dead holds.
pub proof fn lemma_spirit_partition(r: EntityRecord, me: PlayerId)
    requires
        admits(TypeTag::Spirit, r, me),
    ensures
        admits(TypeTag::FriendlySpirit, r, me) <==> !admits(TypeTag::EnemySpirit, r, me),
        admits(TypeTag::LivingSpirit, r, me) <==> !admits(TypeTag::DeadSpirit, r, me),
{
}

/// Composite predicates are the conjunction of the primitives they
/// refine, never separate logic: a record is a living friendly spirit
/// exactly when it is a living spirit and a friendly spirit.
pub proof fn lemma_composite_predicate(r: EntityRecord, me: PlayerId)
    ensures
        admits(TypeTag::LivingFriendlySpirit, r, me) <==> admits(TypeTag::LivingSpirit, r, me)
            && admits(TypeTag::FriendlySpirit, r, me),
{
}

/// Disjoint siblings under destructible: of a host-consistent
/// destructible, exactly one of spirit and base holds.
pub proof fn lemma_destructible_partition(r: EntityRecord, me: PlayerId)
    requires
        r.host_consistent(),
        admits(TypeTag::Destructible, r, me),
    ensures
        admits(TypeTag::Spirit, r, me) <==> !admits(TypeTag::Base, r, me),
{
}

/// The structure-kind discriminant is authoritative and total: of a
/// host-consistent structure, exactly one of base, outpost and star
/// holds.
pub proof fn lemma_structure_partition(r: EntityRecord, me: PlayerId)
    requires
        r.host_consistent(),
        admits(TypeTag::Structure, r, me),
    ensures
        admits(TypeTag::Base, r, me) || admits(TypeTag::Outpost, r, me) || admits(
            TypeTag::Star,
            r,
            me,
        ),
        admits(TypeTag::Base, r, me) ==> !admits(TypeTag::Outpost, r, me) && !admits(
            TypeTag::Star,
            r,
            me,
        ),
        admits(TypeTag::Outpost, r, me) ==> !admits(TypeTag::Star, r, me),
{
    match r.structure_type {
        Some(StructureType::Base) => {
            assert(r.is_destructible());
            assert(admits(TypeTag::Base, r, me));
        },
        Some(StructureType::Outpost) => {
            assert(admits(TypeTag::Outpost, r, me));
        },
        Some(StructureType::Star) => {
            assert(admits(TypeTag::Star, r, me));
        },
        None => {
            assert(false);
        },
    }
}

/// The shape axis is a total partition of the operable spirits: a
/// host-consistent living friendly spirit is operable under exactly one
/// shape, which fixes the action capability it may use.
pub proof fn lemma_shape_partition(r: EntityRecord, me: PlayerId)
    requires
        r.host_consistent(),
        admits(TypeTag::LivingFriendlySpirit, r, me),
    ensures
        admits(TypeTag::OperableCircleSpirit, r, me) || admits(
            TypeTag::OperableSquareSpirit,
            r,
            me,
        ) || admits(TypeTag::OperableTriangleSpirit, r, me),
        admits(TypeTag::OperableCircleSpirit, r, me) ==> !admits(
            TypeTag::OperableSquareSpirit,
            r,
            me,
        ) && !admits(TypeTag::OperableTriangleSpirit, r, me),
        admits(TypeTag::OperableSquareSpirit, r, me) ==> !admits(
            TypeTag::OperableTriangleSpirit,
            r,
            me,
        ),
{
    match r.shape {
        Some(Shape::Circles) => {
            assert(admits(TypeTag::OperableCircleSpirit, r, me));
        },
        Some(Shape::Squares) => {
            assert(admits(TypeTag::OperableSquareSpirit, r, me));
        },
        Some(Shape::Triangles) => {
            assert(admits(TypeTag::OperableTriangleSpirit, r, me));
        },
        None => {
            assert(false);
        },
    }
}

/// The authoritative discriminant and the fallback cost probe agree on
/// every host-consistent record: where a typed discriminant is
/// unavailable, presence of the cost field decides base against spirit
/// without ambiguity.
pub proof fn lemma_cost_probe_agrees(r: EntityRecord, me: PlayerId)
    requires
        r.host_consistent(),
        admits(TypeTag::Destructible, r, me),
    ensures
        admits(TypeTag::Base, r, me) <==> r.has_cost_field(),
        admits(TypeTag::Spirit, r, me) <==> !r.has_cost_field(),
{
}

/// Classifies a record once, at snapshot ingestion, into the most
/// specific tag of the lattice that admits it.  Every other tag that
/// admits the record is a broader one, so later decisions can be read
/// off this single tag instead of re-probing the record at each call
/// site.
pub fn classify(r: &EntityRecord, me: PlayerId) -> (t: TypeTag)
    requires
        r.host_consistent(),
    ensures
        admits(t, *r, me),
        forall|u: TypeTag| admits(u, *r, me) ==> is_subtag(t, u),
{
    match r.structure_type {
        Some(StructureType::Base) => TypeTag::Base,
        Some(StructureType::Outpost) => TypeTag::Outpost,
        Some(StructureType::Star) => TypeTag::Star,
        None => match r.hp {
            None => TypeTag::LivingEntity,
            Some(h) => {
                let friendly: bool = match r.player {
                    Some(p) => p == me,
                    None => false,
                };
                if h > 0 && friendly {
                    match r.shape {
                        Some(Shape::Circles) => TypeTag::OperableCircleSpirit,
                        Some(Shape::Squares) => TypeTag::OperableSquareSpirit,
                        Some(Shape::Triangles) => TypeTag::OperableTriangleSpirit,
                        None => TypeTag::LivingFriendlySpirit,
                    }
                } else if h > 0 {
                    TypeTag::LivingEnemySpirit
                } else if friendly {
                    TypeTag::DeadFriendlySpirit
                } else {
                    TypeTag::DeadEnemySpirit
                }
            },
        },
    }
}

/// Decides whether one tag refines another.
pub fn check_subtag(a: TypeTag, b: TypeTag) -> (r: bool)
    ensures
        r == is_subtag(a, b),
{
    let ca = caps_of_tag(a);
    let cb = caps_of_tag(b);
    let shape_ok: bool = match cb.shape {
        None => true,
        Some(s) => match ca.shape {
            Some(sa) => sa == s,
            None => false,
        },
    };
    (!cb.destructible || ca.destructible) && (!cb.living || ca.living) && (!cb.dead || ca.dead)
        && (!cb.mobile || ca.mobile) && (!cb.structure || ca.structure) && (!cb.base || ca.base)
        && (!cb.outpost || ca.outpost) && (!cb.star || ca.star) && (!cb.friendly || ca.friendly)
        && (!cb.enemy || ca.enemy) && shape_ok
}

} // verus!
