//! The per-turn context: the snapshot of host state that bot logic works
//! on for one turn.  Built once at turn start, read for the rest of the
//! turn, and discarded when the next turn's snapshot is built; holding a
//! reference across turns is a caller error this design does not prevent.

use vstd::prelude::*;

use crate::collection::spec_lookup;
use crate::collection::Collection;
use crate::collection::TryGetByID;
use crate::ids::TypedId;
use crate::lattice::admits;
use crate::lattice::can_classify_as;
use crate::lattice::TypeTag;
use crate::record::EntityRecord;
use crate::record::PlayerId;

verus! {

/// Holds of records that are living friendly spirits: the operable
/// subset, judged with `me` as this player.
pub open spec fn operable_pred(me: PlayerId) -> spec_fn(EntityRecord) -> bool {
    |r: EntityRecord| admits(TypeTag::LivingFriendlySpirit, r, me)
}

/// The friendly living subsequence of a snapshot, in snapshot order.
pub open spec fn friendly_living(s: Seq<EntityRecord>, me: PlayerId) -> Seq<EntityRecord> {
    s.filter(operable_pred(me))
}

/// One turn's snapshot: the scalar globals, the four keyed collections,
/// the well-known structure identifiers, and the lazily computed cache
/// of this player's operable spirits.
#[derive(Debug)]
pub struct TurnContext {
    /// The number of ticks since the start of the game.
    pub tick: u32,
    /// This player's identifier.
    pub me: PlayerId,
    /// The top-left player's identifier.
    pub p1: PlayerId,
    /// The bottom-right player's identifier.
    pub p2: PlayerId,
    /// The spirits collection.
    pub spirits: Collection,
    /// The bases collection.
    pub bases: Collection,
    /// The outposts collection.
    pub outposts: Collection,
    /// The stars collection.
    pub stars: Collection,
    /// The identifier of this player's base.
    pub base_id: TypedId,
    /// The identifier of the enemy base.
    pub enemy_base_id: TypedId,
    /// The identifier of the single outpost.
    pub outpost_id: TypedId,
    /// The identifier of the top-left player's star.
    pub star_zxq_id: TypedId,
    /// The identifier of the bottom-right player's star.
    pub star_a1c_id: TypedId,
    /// The identifier of the outpost's star.
    pub star_p89_id: TypedId,
    /// The friendly living subset of the spirits collection, computed at
    /// most once per turn; absent until first asked for.
    pub operable_cache: Option<Vec<EntityRecord>>,
}

impl TurnContext {
    /// The cache, when present, holds exactly the friendly living subset
    /// of the spirits snapshot.
    pub open spec fn cache_ok(self) -> bool {
        self.operable_cache matches Some(v) ==> v@ == friendly_living(
            self.spirits.records@,
            self.me,
        )
    }

    /// Well-formed: each collection holds its own kind, each well-known
    /// identifier carries its kind's tag, and the cache, if filled, is
    /// right.
    pub open spec fn wf(self) -> bool {
        &&& self.spirits.wf() && self.spirits.kind == TypeTag::Spirit
        &&& self.bases.wf() && self.bases.kind == TypeTag::Base
        &&& self.outposts.wf() && self.outposts.kind == TypeTag::Outpost
        &&& self.stars.wf() && self.stars.kind == TypeTag::Star
        &&& self.base_id.tag == TypeTag::Base
        &&& self.enemy_base_id.tag == TypeTag::Base
        &&& self.outpost_id.tag == TypeTag::Outpost
        &&& self.star_zxq_id.tag == TypeTag::Star
        &&& self.star_a1c_id.tag == TypeTag::Star
        &&& self.star_p89_id.tag == TypeTag::Star
        &&& self.cache_ok()
    }

    /// Builds the snapshot for one turn, with an empty cache.
    pub fn new(
        tick: u32,
        me: PlayerId,
        p1: PlayerId,
        p2: PlayerId,
        spirits: Collection,
        bases: Collection,
        outposts: Collection,
        stars: Collection,
        base_id: TypedId,
        enemy_base_id: TypedId,
        outpost_id: TypedId,
        star_zxq_id: TypedId,
        star_a1c_id: TypedId,
        star_p89_id: TypedId,
    ) -> (r: TurnContext)
        requires
            spirits.wf() && spirits.kind == TypeTag::Spirit,
            bases.wf() && bases.kind == TypeTag::Base,
            outposts.wf() && outposts.kind == TypeTag::Outpost,
            stars.wf() && stars.kind == TypeTag::Star,
            base_id.tag == TypeTag::Base,
            enemy_base_id.tag == TypeTag::Base,
            outpost_id.tag == TypeTag::Outpost,
            star_zxq_id.tag == TypeTag::Star,
            star_a1c_id.tag == TypeTag::Star,
            star_p89_id.tag == TypeTag::Star,
        ensures
            r.wf(),
            r.tick == tick && r.me == me && r.p1 == p1 && r.p2 == p2,
            r.spirits == spirits && r.bases == bases && r.outposts == outposts && r.stars
                == stars,
            r.base_id == base_id && r.enemy_base_id == enemy_base_id && r.outpost_id
                == outpost_id,
            r.star_zxq_id == star_zxq_id && r.star_a1c_id == star_a1c_id && r.star_p89_id
                == star_p89_id,
            r.operable_cache is None,
    {
        TurnContext {
            tick,
            me,
            p1,
            p2,
            spirits,
            bases,
            outposts,
            stars,
            base_id,
            enemy_base_id,
            outpost_id,
            star_zxq_id,
            star_a1c_id,
            star_p89_id,
            operable_cache: None,
        }
    }

    /// The number of ticks since the start of the game.
    pub fn tick(&self) -> (r: u32)
        ensures
            r == self.tick,
    {
        self.tick
    }

    /// This player's identifier.
    pub fn this_player_id(&self) -> (r: PlayerId)
        ensures
            r == self.me,
    {
        self.me
    }

    /// The spirits collection.
    pub fn spirits(&self) -> (r: &Collection)
        ensures
            r == &self.spirits,
    {
        &self.spirits
    }

    /// The bases collection.
    pub fn bases(&self) -> (r: &Collection)
        ensures
            r == &self.bases,
    {
        &self.bases
    }

    /// The outposts collection.
    pub fn outposts(&self) -> (r: &Collection)
        ensures
            r == &self.outposts,
    {
        &self.outposts
    }

    /// The stars collection.
    pub fn stars(&self) -> (r: &Collection)
        ensures
            r == &self.stars,
    {
        &self.stars
    }

    /// This player's base, when the host listed it.
    pub fn base(&self) -> (r: Option<EntityRecord>)
        requires
            self.wf(),
        ensures
            r == spec_lookup(self.bases.records@, self.base_id.raw),
    {
        TryGetByID::get(&self.bases, &self.base_id)
    }

    /// The enemy base, when the host listed it.
    pub fn enemy_base(&self) -> (r: Option<EntityRecord>)
        requires
            self.wf(),
        ensures
            r == spec_lookup(self.bases.records@, self.enemy_base_id.raw),
    {
        TryGetByID::get(&self.bases, &self.enemy_base_id)
    }

    /// The single outpost, when the host listed it.
    pub fn outpost(&self) -> (r: Option<EntityRecord>)
        requires
            self.wf(),
        ensures
            r == spec_lookup(self.outposts.records@, self.outpost_id.raw),
    {
        TryGetByID::get(&self.outposts, &self.outpost_id)
    }

    /// The single outpost, under its well-known name.
    pub fn outpost_mdo(&self) -> (r: Option<EntityRecord>)
        requires
            self.wf(),
        ensures
            r == spec_lookup(self.outposts.records@, self.outpost_id.raw),
    {
        TryGetByID::get(&self.outposts, &self.outpost_id)
    }

    /// The top-left player's star.
    pub fn star_zxq(&self) -> (r: Option<EntityRecord>)
        requires
            self.wf(),
        ensures
            r == spec_lookup(self.stars.records@, self.star_zxq_id.raw),
    {
        TryGetByID::get(&self.stars, &self.star_zxq_id)
    }

    /// The bottom-right player's star.
    pub fn star_a1c(&self) -> (r: Option<EntityRecord>)
        requires
            self.wf(),
        ensures
            r == spec_lookup(self.stars.records@, self.star_a1c_id.raw),
    {
        TryGetByID::get(&self.stars, &self.star_a1c_id)
    }

    /// The outpost's star.
    pub fn star_p89(&self) -> (r: Option<EntityRecord>)
        requires
            self.wf(),
        ensures
            r == spec_lookup(self.stars.records@, self.star_p89_id.raw),
    {
        TryGetByID::get(&self.stars, &self.star_p89_id)
    }

    /// This player's operable spirits: the friendly living subset of the
    /// spirits collection, in snapshot order.  Computed at most once per
    /// turn — the first call fills the cache, later calls only read it —
    /// and invalidated only by building the next turn's snapshot.
    pub fn my_spirits(&mut self) -> (v: Vec<EntityRecord>)
        requires
            old(self).wf(),
        ensures
            final(self).wf(),
            v@ == friendly_living(old(self).spirits.records@, old(self).me),
            final(self).operable_cache matches Some(c) && c@ == v@,
            final(self).tick == old(self).tick && final(self).me == old(self).me,
            final(self).p1 == old(self).p1 && final(self).p2 == old(self).p2,
            final(self).spirits == old(self).spirits && final(self).bases == old(self).bases,
            final(self).outposts == old(self).outposts && final(self).stars == old(self).stars,
            final(self).base_id == old(self).base_id && final(self).enemy_base_id == old(
                self,
            ).enemy_base_id,
            final(self).outpost_id == old(self).outpost_id,
            final(self).star_zxq_id == old(self).star_zxq_id && final(self).star_a1c_id == old(
                self,
            ).star_a1c_id && final(self).star_p89_id == old(self).star_p89_id,
            old(self).operable_cache is Some ==> final(self).operable_cache == old(
                self,
            ).operable_cache,
    {
        if self.operable_cache.is_none() {
            let ghost s = self.spirits.records@;
            let ghost pred = operable_pred(self.me);
            let me = self.me;
            let n = self.spirits.records.len();
            let mut acc: Vec<EntityRecord> = Vec::new();
            let mut i: usize = 0;
            proof {
                assert(s.take(0).filter(pred) =~= Seq::<EntityRecord>::empty().filter(pred));
            }
            while i < n
                invariant
                    n == s.len(),
                    0 <= i <= n,
                    s == self.spirits.records@,
                    me == self.me,
                    pred == operable_pred(me),
                    acc@ == s.take(i as int).filter(pred),
                decreases n - i,
            {
                proof {
                    reveal_with_fuel(Seq::filter, 2);
                    assert(s.take(i + 1).len() == i + 1);
                    assert(s.take(i + 1).drop_last() =~= s.take(i as int));
                    assert(s.take(i + 1).last() == s[i as int]);
                    assert(s.take(i + 1).filter(pred) == if pred(s[i as int]) {
                        s.take(i as int).filter(pred).push(s[i as int])
                    } else {
                        s.take(i as int).filter(pred)
                    });
                }
                if can_classify_as(TypeTag::LivingFriendlySpirit, &self.spirits.records[i], me) {
                    acc.push(self.spirits.records[i]);
                }
                i = i + 1;
            }
            proof {
                assert(s.take(n as int) =~= s);
            }
            self.operable_cache = Some(acc);
        }
        let cached: &Vec<EntityRecord> = match &self.operable_cache {
            Some(c) => c,
            None => &self.spirits.records,
        };
        let m = cached.len();
        let mut out: Vec<EntityRecord> = Vec::new();
        let mut k: usize = 0;
        while k < m
            invariant
                m == cached@.len(),
                0 <= k <= m,
                out@ == cached@.take(k as int),
            decreases m - k,
        {
            out.push(cached[k]);
            proof {
                assert(out@ =~= cached@.take(k + 1));
            }
            k = k + 1;
        }
        proof {
            assert(out@ =~= cached@);
        }
        out
    }
}

} // verus!
