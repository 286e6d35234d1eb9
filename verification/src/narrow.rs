//! The narrowing engine: fallible conversion of a tagged record into a
//! more specific tag, never losing the original value.  A successful
//! attempt returns the same record under the target tag; a failed attempt
//! returns the same record under a declared rejection tag, so the caller
//! always receives the original data back.

use vstd::prelude::*;

use crate::lattice::admits;
use crate::lattice::can_classify_as;
use crate::lattice::is_subtag;
use crate::lattice::lemma_subtag_sound;
use crate::lattice::TypeTag;
use crate::record::EntityRecord;
use crate::record::PlayerId;

verus! {

/// One record viewed under one tag of the lattice.  The view is advisory:
/// [`Typed::wf`] says when the tag truly fits the record.
#[derive(Clone, Copy, Debug, PartialEq, Eq)]
pub struct Typed {
    /// The tag the record is currently viewed under.
    pub tag: TypeTag,
    /// The underlying record; narrowing and widening never change it.
    pub rec: EntityRecord,
}

impl Typed {
    /// The tag fits the record, judged with `me` as this player.
    pub open spec fn wf(self, me: PlayerId) -> bool {
        admits(self.tag, self.rec, me)
    }

    /// Views a freshly ingested record as a bare entity, the top of the
    /// lattice, which admits every record.
    pub fn from_record(rec: EntityRecord) -> (t: Typed)
        ensures
            t.tag == TypeTag::Entity,
            t.rec == rec,
            forall|me: PlayerId| #[trigger] t.wf(me),
    {
        Typed { tag: TypeTag::Entity, rec }
    }
}

/// The declared edges of the hierarchy: for each source and target tag a
/// conversion is offered between, the single canonical rejection tag the
/// record comes back under when the attempt fails — almost always a
/// sibling of the target or the source itself.
pub open spec fn rejection(s: TypeTag, t: TypeTag) -> Option<TypeTag> {
    match (s, t) {
        (TypeTag::Entity, TypeTag::LivingEntity) => Some(TypeTag::DeadSpirit),
        (TypeTag::Entity, TypeTag::Destructible) => Some(TypeTag::Entity),
        (TypeTag::Entity, TypeTag::Structure) => Some(TypeTag::Entity),
        (TypeTag::LivingEntity, TypeTag::LivingDestructible) => Some(TypeTag::LivingEntity),
        (TypeTag::LivingEntity, TypeTag::Structure) => Some(TypeTag::Entity),
        (TypeTag::Destructible, TypeTag::LivingDestructible) => Some(TypeTag::Destructible),
        (TypeTag::Destructible, TypeTag::Spirit) => Some(TypeTag::Base),
        (TypeTag::Destructible, TypeTag::Base) => Some(TypeTag::Spirit),
        (TypeTag::LivingDestructible, TypeTag::Base) => Some(TypeTag::LivingSpirit),
        (TypeTag::LivingDestructible, TypeTag::LivingSpirit) => Some(TypeTag::Base),
        (TypeTag::Structure, TypeTag::Base) => Some(TypeTag::Structure),
        (TypeTag::Structure, TypeTag::Outpost) => Some(TypeTag::Structure),
        (TypeTag::Structure, TypeTag::Star) => Some(TypeTag::Structure),
        (TypeTag::Spirit, TypeTag::FriendlySpirit) => Some(TypeTag::EnemySpirit),
        (TypeTag::Spirit, TypeTag::EnemySpirit) => Some(TypeTag::FriendlySpirit),
        (TypeTag::Spirit, TypeTag::LivingSpirit) => Some(TypeTag::DeadSpirit),
        (TypeTag::Spirit, TypeTag::DeadSpirit) => Some(TypeTag::LivingSpirit),
        (TypeTag::Spirit, TypeTag::LivingFriendlySpirit) => Some(TypeTag::Spirit),
        (TypeTag::Spirit, TypeTag::DeadFriendlySpirit) => Some(TypeTag::Spirit),
        (TypeTag::Spirit, TypeTag::LivingEnemySpirit) => Some(TypeTag::Spirit),
        (TypeTag::Spirit, TypeTag::DeadEnemySpirit) => Some(TypeTag::Spirit),
        (TypeTag::LivingSpirit, TypeTag::LivingFriendlySpirit) => Some(
            TypeTag::LivingEnemySpirit,
        ),
        (TypeTag::LivingSpirit, TypeTag::LivingEnemySpirit) => Some(
            TypeTag::LivingFriendlySpirit,
        ),
        (TypeTag::FriendlySpirit, TypeTag::LivingFriendlySpirit) => Some(
            TypeTag::DeadFriendlySpirit,
        ),
        (TypeTag::FriendlySpirit, TypeTag::DeadFriendlySpirit) => Some(
            TypeTag::LivingFriendlySpirit,
        ),
        (TypeTag::EnemySpirit, TypeTag::LivingEnemySpirit) => Some(TypeTag::DeadEnemySpirit),
        (TypeTag::EnemySpirit, TypeTag::DeadEnemySpirit) => Some(TypeTag::LivingEnemySpirit),
        (TypeTag::DeadSpirit, TypeTag::DeadFriendlySpirit) => Some(TypeTag::DeadEnemySpirit),
        (TypeTag::DeadSpirit, TypeTag::DeadEnemySpirit) => Some(TypeTag::DeadFriendlySpirit),
        (TypeTag::Spirit, TypeTag::OperableCircleSpirit) => Some(TypeTag::Spirit),
        (TypeTag::Spirit, TypeTag::OperableSquareSpirit) => Some(TypeTag::Spirit),
        (TypeTag::Spirit, TypeTag::OperableTriangleSpirit) => Some(TypeTag::Spirit),
        (TypeTag::LivingFriendlySpirit, TypeTag::OperableCircleSpirit) => Some(
            TypeTag::LivingFriendlySpirit,
        ),
        (TypeTag::LivingFriendlySpirit, TypeTag::OperableSquareSpirit) => Some(
            TypeTag::LivingFriendlySpirit,
        ),
        (TypeTag::LivingFriendlySpirit, TypeTag::OperableTriangleSpirit) => Some(
            TypeTag::LivingFriendlySpirit,
        ),
        _ => None,
    }
}

/// The rejection tag of each declared edge, as a value.
pub fn rejection_of(s: TypeTag, t: TypeTag) -> (r: Option<TypeTag>)
    ensures
        r == rejection(s, t),
{
    match (s, t) {
        (TypeTag::Entity, TypeTag::LivingEntity) => Some(TypeTag::DeadSpirit),
        (TypeTag::Entity, TypeTag::Destructible) => Some(TypeTag::Entity),
        (TypeTag::Entity, TypeTag::Structure) => Some(TypeTag::Entity),
        (TypeTag::LivingEntity, TypeTag::LivingDestructible) => Some(TypeTag::LivingEntity),
        (TypeTag::LivingEntity, TypeTag::Structure) => Some(TypeTag::Entity),
        (TypeTag::Destructible, TypeTag::LivingDestructible) => Some(TypeTag::Destructible),
        (TypeTag::Destructible, TypeTag::Spirit) => Some(TypeTag::Base),
        (TypeTag::Destructible, TypeTag::Base) => Some(TypeTag::Spirit),
        (TypeTag::LivingDestructible, TypeTag::Base) => Some(TypeTag::LivingSpirit),
        (TypeTag::LivingDestructible, TypeTag::LivingSpirit) => Some(TypeTag::Base),
        (TypeTag::Structure, TypeTag::Base) => Some(TypeTag::Structure),
        (TypeTag::Structure, TypeTag::Outpost) => Some(TypeTag::Structure),
        (TypeTag::Structure, TypeTag::Star) => Some(TypeTag::Structure),
        (TypeTag::Spirit, TypeTag::FriendlySpirit) => Some(TypeTag::EnemySpirit),
        (TypeTag::Spirit, TypeTag::EnemySpirit) => Some(TypeTag::FriendlySpirit),
        (TypeTag::Spirit, TypeTag::LivingSpirit) => Some(TypeTag::DeadSpirit),
        (TypeTag::Spirit, TypeTag::DeadSpirit) => Some(TypeTag::LivingSpirit),
        (TypeTag::Spirit, TypeTag::LivingFriendlySpirit) => Some(TypeTag::Spirit),
        (TypeTag::Spirit, TypeTag::DeadFriendlySpirit) => Some(TypeTag::Spirit),
        (TypeTag::Spirit, TypeTag::LivingEnemySpirit) => Some(TypeTag::Spirit),
        (TypeTag::Spirit, TypeTag::DeadEnemySpirit) => Some(TypeTag::Spirit),
        (TypeTag::LivingSpirit, TypeTag::LivingFriendlySpirit) => Some(
            TypeTag::LivingEnemySpirit,
        ),
        (TypeTag::LivingSpirit, TypeTag::LivingEnemySpirit) => Some(
            TypeTag::LivingFriendlySpirit,
        ),
        (TypeTag::FriendlySpirit, TypeTag::LivingFriendlySpirit) => Some(
            TypeTag::DeadFriendlySpirit,
        ),
        (TypeTag::FriendlySpirit, TypeTag::DeadFriendlySpirit) => Some(
            TypeTag::LivingFriendlySpirit,
        ),
        (TypeTag::EnemySpirit, TypeTag::LivingEnemySpirit) => Some(TypeTag::DeadEnemySpirit),
        (TypeTag::EnemySpirit, TypeTag::DeadEnemySpirit) => Some(TypeTag::LivingEnemySpirit),
        (TypeTag::DeadSpirit, TypeTag::DeadFriendlySpirit) => Some(TypeTag::DeadEnemySpirit),
        (TypeTag::DeadSpirit, TypeTag::DeadEnemySpirit) => Some(TypeTag::DeadFriendlySpirit),
        (TypeTag::Spirit, TypeTag::OperableCircleSpirit) => Some(TypeTag::Spirit),
        (TypeTag::Spirit, TypeTag::OperableSquareSpirit) => Some(TypeTag::Spirit),
        (TypeTag::Spirit, TypeTag::OperableTriangleSpirit) => Some(TypeTag::Spirit),
        (TypeTag::LivingFriendlySpirit, TypeTag::OperableCircleSpirit) => Some(
            TypeTag::LivingFriendlySpirit,
        ),
        (TypeTag::LivingFriendlySpirit, TypeTag::OperableSquareSpirit) => Some(
            TypeTag::LivingFriendlySpirit,
        ),
        (TypeTag::LivingFriendlySpirit, TypeTag::OperableTriangleSpirit) => Some(
            TypeTag::LivingFriendlySpirit,
        ),
        _ => None,
    }
}

/// What narrowing returns: the record unchanged, under the target tag on
/// success and under the edge's rejection tag on failure.
pub open spec fn spec_narrow(v: Typed, target: TypeTag, me: PlayerId) -> Result<Typed, Typed>
    recommends
        rejection(v.tag, target) is Some,
{
    if admits(target, v.rec, me) {
        Ok(Typed { tag: target, rec: v.rec })
    } else {
        Err(Typed { tag: rejection(v.tag, target)->Some_0, rec: v.rec })
    }
}

/// What widening returns: the record unchanged, under the broader tag.
pub open spec fn spec_widen(v: Typed, target: TypeTag) -> Typed {
    Typed { tag: target, rec: v.rec }
}

/// A failed attempt leaves the record under a tag that fits it: for every
/// declared edge, a host-consistent record that fits the source tag but
/// not the target tag fits the edge's rejection tag.
pub proof fn lemma_rejection_sound(s: TypeTag, t: TypeTag, r: EntityRecord, me: PlayerId)
    requires
        rejection(s, t) is Some,
        r.host_consistent(),
        admits(s, r, me),
        !admits(t, r, me),
    ensures
        admits(rejection(s, t)->Some_0, r, me),
{
}

/// By-value conversion: classifies the record against the target tag and
/// returns it unchanged either way — under the target tag when it fits,
/// under the edge's rejection tag when it does not.  Total: a mismatch is
/// an expected outcome, not an exception, and the caller always recovers
/// the value it passed in.
pub fn narrow(v: Typed, target: TypeTag, me: PlayerId) -> (r: Result<Typed, Typed>)
    requires
        rejection(v.tag, target) is Some,
    ensures
        r == spec_narrow(v, target, me),
        r is Ok <==> admits(target, v.rec, me),
        r matches Ok(w) ==> w.tag == target && w.rec == v.rec && w.wf(me),
        r matches Err(w) ==> w.tag == rejection(v.tag, target)->Some_0 && w.rec == v.rec,
        r is Err && v.wf(me) && v.rec.host_consistent() ==> r->Err_0.wf(me),
{
    if can_classify_as(target, &v.rec, me) {
        Ok(Typed { tag: target, rec: v.rec })
    } else {
        let rej = rejection_of(v.tag, target).unwrap();
        proof {
            if v.wf(me) && v.rec.host_consistent() {
                lemma_rejection_sound(v.tag, target, v.rec, me);
            }
        }
        Err(Typed { tag: rej, rec: v.rec })
    }
}

/// By-reference conversion: identical classification, but no ownership
/// changes hands.  `Ok` lends the value back as a view under the target
/// tag, `Err` as a view under the edge's rejection tag; either way the
/// borrow is of the original, so overlapping advisory views may coexist.
pub fn narrow_ref<'a>(v: &'a Typed, target: TypeTag, me: PlayerId) -> (r: Result<
    &'a Typed,
    &'a Typed,
>)
    requires
        rejection(v.tag, target) is Some,
    ensures
        r is Ok <==> admits(target, v.rec, me),
        r matches Ok(w) ==> w == v,
        r matches Err(w) ==> w == v,
{
    if can_classify_as(target, &v.rec, me) {
        Ok(v)
    } else {
        Err(v)
    }
}

/// Upcast along the lattice: always succeeds, and never changes the
/// record.
pub fn widen(v: Typed, target: TypeTag) -> (r: Typed)
    requires
        is_subtag(v.tag, target),
    ensures
        r == spec_widen(v, target),
        r.tag == target,
        r.rec == v.rec,
        forall|me: PlayerId| v.wf(me) ==> #[trigger] r.wf(me),
{
    proof {
        assert forall|me: PlayerId| v.wf(me) implies #[trigger] admits(target, v.rec, me) by {
            lemma_subtag_sound(v.tag, target, v.rec, me);
        }
    }
    Typed { tag: target, rec: v.rec }
}

/// Round-trip narrowing: when a destructible fails to narrow into a
/// target, the rejected payload widens back to a destructible that is the
/// original value, identifier and fields untouched.
pub proof fn lemma_round_trip_narrowing(v: Typed, target: TypeTag, me: PlayerId)
    requires
        v.tag == TypeTag::Destructible,
        rejection(TypeTag::Destructible, target) is Some,
        !admits(target, v.rec, me),
    ensures
        spec_narrow(v, target, me) is Err,
        is_subtag(spec_narrow(v, target, me)->Err_0.tag, TypeTag::Destructible),
        spec_widen(spec_narrow(v, target, me)->Err_0, TypeTag::Destructible) == v,
{
}

/// Monotonic refinement: a spirit that narrows into a living friendly
/// spirit also narrows into a living spirit and into a friendly spirit
/// independently.
pub proof fn lemma_monotonic_refinement(v: Typed, me: PlayerId)
    requires
        v.tag == TypeTag::Spirit,
        spec_narrow(v, TypeTag::LivingFriendlySpirit, me) is Ok,
    ensures
        spec_narrow(v, TypeTag::LivingSpirit, me) is Ok,
        spec_narrow(v, TypeTag::FriendlySpirit, me) is Ok,
{
}

} // verus!
