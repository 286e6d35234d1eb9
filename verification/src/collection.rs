//! Indexed collections: one keyed container per entity kind (spirits,
//! bases, outposts, stars), supporting point lookup by any compatible
//! identifier tag and full enumeration of keys and values.

use vstd::prelude::*;

use crate::ids::TypedId;
use crate::iter::ArrayTypedIter;
use crate::lattice::admits;
use crate::lattice::can_classify_as;
use crate::lattice::TypeTag;
use crate::record::EntityRecord;
use crate::record::PlayerId;

verus! {

/// The tags a collection may be keyed by: one per entity kind.
pub open spec fn is_collection_kind(k: TypeTag) -> bool {
    ||| k == TypeTag::Spirit
    ||| k == TypeTag::Base
    ||| k == TypeTag::Outpost
    ||| k == TypeTag::Star
}

/// The record belongs to the kind whoever is asking: the four kind tags
/// make no demand about ownership, so classification under them does not
/// depend on which player judges.
pub open spec fn kind_member(k: TypeTag, r: EntityRecord) -> bool {
    forall|me: PlayerId| #[trigger] admits(k, r, me)
}

/// Classification under a kind tag is the same for every judging player.
pub proof fn lemma_kind_member_any(k: TypeTag, r: EntityRecord, me: PlayerId)
    requires
        is_collection_kind(k),
        admits(k, r, me),
    ensures
        kind_member(k, r),
{
    assert forall|m: PlayerId| #[trigger] admits(k, r, m) by {
        assert(admits(k, r, me));
    }
}

/// The first record with the given identifier token, walking the
/// snapshot from the front; nothing when no record carries it.
pub open spec fn spec_lookup(s: Seq<EntityRecord>, raw: u64) -> Option<EntityRecord>
    decreases s.len(),
{
    if s.len() == 0 {
        None
    } else if s[0].id == raw {
        Some(s[0])
    } else {
        spec_lookup(s.drop_first(), raw)
    }
}

/// Looking up skips any prefix free of the token.
proof fn lemma_lookup_skip(s: Seq<EntityRecord>, raw: u64, i: int)
    requires
        0 <= i <= s.len(),
        forall|j: int| 0 <= j < i ==> s[j].id != raw,
    ensures
        spec_lookup(s, raw) == spec_lookup(s.skip(i), raw),
    decreases i,
{
    if i == 0 {
        assert(s.skip(0) =~= s);
    } else {
        lemma_lookup_skip(s, raw, i - 1);
        assert(s.skip(i - 1).len() > 0);
        assert(s.skip(i - 1)[0] == s[i - 1]);
        assert(s.skip(i - 1).drop_first() =~= s.skip(i));
    }
}

/// What a collection accepts at construction: pairwise distinct
/// identifier tokens, every record of the collection's kind.
pub open spec fn valid_records(kind: TypeTag, s: Seq<EntityRecord>) -> bool {
    &&& forall|i: int, j: int| 0 <= i < j < s.len() ==> s[i].id != s[j].id
    &&& forall|i: int| 0 <= i < s.len() ==> kind_member(kind, #[trigger] s[i])
}

/// A keyed container of the records of one entity kind, a snapshot of
/// one host mapping.  Membership changes only between turns; within a
/// turn the container is read-only.
#[derive(Debug)]
pub struct Collection {
    /// The kind of every record held.
    pub kind: TypeTag,
    /// The records, keyed by their identifier tokens.
    pub records: Vec<EntityRecord>,
}

/// The traits below are implemented for the per-kind containers a turn's
/// snapshot carries.  This one allows fallibly fetching a record by any
/// compatible identifier.
pub trait TryGetByID {
    /// The records held, in snapshot order.
    spec fn mapping(&self) -> Seq<EntityRecord>;

    /// Which identifier tags may be used as keys: a static capability
    /// restriction, never a semantic filter.
    spec fn key_ok(&self, id: TypedId) -> bool;

    /// Point lookup: finds the record carrying the identifier's token,
    /// whichever compatible tag the identifier carries, and never throws
    /// on a missing key.
    fn get(&self, id: &TypedId) -> (r: Option<EntityRecord>)
        requires
            self.key_ok(*id),
        ensures
            r == spec_lookup(self.mapping(), id.raw),
    ;
}

/// Infallible point lookup, for keys known to be present.
pub trait GetByID {
    /// The records held, in snapshot order.
    spec fn held(&self) -> Seq<EntityRecord>;

    /// Which identifier tags may be used as keys: a static capability
    /// restriction, never a semantic filter.
    spec fn key_fits(&self, id: TypedId) -> bool;

    /// Returns the record for this key.
    fn get(&self, id: &TypedId) -> (r: EntityRecord)
        requires
            self.key_fits(*id),
            spec_lookup(self.held(), id.raw) is Some,
        ensures
            Some(r) == spec_lookup(self.held(), id.raw),
    ;
}

/// Full enumeration of a collection's keys and values.
pub trait EnumerateByID: GetByID {
    /// The tag the collection's own identifiers carry.
    spec fn id_tag(&self) -> TypeTag;

    /// A cursor visiting every key, in snapshot order.
    fn ids(&self) -> (it: ArrayTypedIter<TypedId>)
        ensures
            it.wf(),
            it.remaining().len() == self.held().len(),
            forall|i: int|
                0 <= i < self.held().len() ==> #[trigger] it.remaining()[i] == (TypedId {
                    tag: self.id_tag(),
                    raw: self.held()[i].id,
                }),
    ;

    /// A cursor visiting every value, in snapshot order.
    fn values(&self) -> (it: ArrayTypedIter<EntityRecord>)
        ensures
            it.wf(),
            it.remaining() == self.held(),
    ;
}

impl Collection {
    /// The records held, in snapshot order.
    pub open spec fn view_records(self) -> Seq<EntityRecord> {
        self.records@
    }

    /// Well-formed: a kind tag, distinct keys, no record of the wrong
    /// kind.
    pub open spec fn wf(self) -> bool {
        &&& is_collection_kind(self.kind)
        &&& valid_records(self.kind, self.records@)
    }

    /// Ingests one host mapping: classifies every record against the
    /// collection's kind once, checks the keys are distinct, and refuses
    /// the whole batch otherwise — a wrong-kind record or a duplicated
    /// key is a host contract break, surfaced here rather than
    /// swallowed.
    pub fn new(kind: TypeTag, records: Vec<EntityRecord>, me: PlayerId) -> (r: Option<Collection>)
        requires
            is_collection_kind(kind),
        ensures
            r is Some <==> valid_records(kind, records@),
            r matches Some(c) ==> c.wf() && c.kind == kind && c.records@ == records@,
    {
        let n = records.len();
        let mut i: usize = 0;
        while i < n
            invariant
                n == records@.len(),
                0 <= i <= n,
                is_collection_kind(kind),
                forall|k: int| 0 <= k < i ==> kind_member(kind, #[trigger] records@[k]),
                forall|a: int, b: int| 0 <= a < b < i ==> records@[a].id != records@[b].id,
            decreases n - i,
        {
            if !can_classify_as(kind, &records[i], me) {
                proof {
                    assert(!admits(kind, records@[i as int], me));
                }
                return None;
            }
            proof {
                lemma_kind_member_any(kind, records@[i as int], me);
            }
            let mut j: usize = 0;
            while j < i
                invariant
                    0 <= j <= i < n,
                    n == records@.len(),
                    forall|b: int| 0 <= b < j ==> records@[b].id != records@[i as int].id,
                decreases i - j,
            {
                if records[j].id == records[i].id {
                    return None;
                }
                j = j + 1;
            }
            i = i + 1;
        }
        Some(Collection { kind, records })
    }

    /// Point lookup by the raw token: walks the snapshot from the front.
    fn lookup_raw(&self, raw: u64) -> (r: Option<EntityRecord>)
        ensures
            r == spec_lookup(self.records@, raw),
    {
        let n = self.records.len();
        let mut i: usize = 0;
        while i < n
            invariant
                n == self.records@.len(),
                0 <= i <= n,
                forall|j: int| 0 <= j < i ==> self.records@[j].id != raw,
            decreases n - i,
        {
            if self.records[i].id == raw {
                proof {
                    lemma_lookup_skip(self.records@, raw, i as int);
                    assert(self.records@.skip(i as int)[0] == self.records@[i as int]);
                }
                return Some(self.records[i]);
            }
            i = i + 1;
        }
        proof {
            lemma_lookup_skip(self.records@, raw, n as int);
            assert(self.records@.skip(n as int).len() == 0);
        }
        None
    }
}

impl TryGetByID for Collection {
    open spec fn mapping(&self) -> Seq<EntityRecord> {
        self.records@
    }

    open spec fn key_ok(&self, id: TypedId) -> bool {
        id.compatible_with(self.kind)
    }

    fn get(&self, id: &TypedId) -> (r: Option<EntityRecord>) {
        self.lookup_raw(id.raw)
    }
}

impl GetByID for Collection {
    open spec fn held(&self) -> Seq<EntityRecord> {
        self.records@
    }

    open spec fn key_fits(&self, id: TypedId) -> bool {
        id.compatible_with(self.kind)
    }

    fn get(&self, id: &TypedId) -> (r: EntityRecord) {
        self.lookup_raw(id.raw).unwrap()
    }
}

impl EnumerateByID for Collection {
    open spec fn id_tag(&self) -> TypeTag {
        self.kind
    }

    fn ids(&self) -> (it: ArrayTypedIter<TypedId>) {
        let n = self.records.len();
        let mut keys: Vec<TypedId> = Vec::new();
        let mut i: usize = 0;
        while i < n
            invariant
                n == self.records@.len(),
                0 <= i <= n,
                keys@.len() == i,
                forall|k: int|
                    0 <= k < i ==> #[trigger] keys@[k] == (TypedId {
                        tag: self.kind,
                        raw: self.records@[k].id,
                    }),
            decreases n - i,
        {
            keys.push(TypedId { tag: self.kind, raw: self.records[i].id });
            i = i + 1;
        }
        ArrayTypedIter::new(keys)
    }

    fn values(&self) -> (it: ArrayTypedIter<EntityRecord>) {
        let n = self.records.len();
        let mut vals: Vec<EntityRecord> = Vec::new();
        let mut i: usize = 0;
        while i < n
            invariant
                n == self.records@.len(),
                0 <= i <= n,
                vals@ == self.records@.take(i as int),
            decreases n - i,
        {
            vals.push(self.records[i]);
            proof {
                assert(vals@ =~= self.records@.take(i + 1));
            }
            i = i + 1;
        }
        proof {
            assert(vals@ =~= self.records@);
        }
        ArrayTypedIter::new(vals)
    }
}

/// Lookup consistency: which compatible identifier tag is used to ask
/// never changes the answer — two identifiers with the same token find
/// the same record, present or absent alike.
pub proof fn lemma_lookup_consistency(c: Collection, a: TypedId, b: TypedId)
    requires
        a.raw == b.raw,
    ensures
        spec_lookup(c.view_records(), a.raw) == spec_lookup(c.view_records(), b.raw),
{
}

/// Enumeration completeness: at a fixed snapshot, looking up every key
/// that key enumeration returns yields exactly the values that value
/// enumeration returns, one for one.
pub proof fn lemma_enumeration_complete(c: Collection)
    requires
        c.wf(),
    ensures
        forall|i: int|
            0 <= i < c.view_records().len() ==> spec_lookup(
                c.view_records(),
                #[trigger] c.view_records()[i].id,
            ) == Some(c.view_records()[i]),
{
    let s = c.view_records();
    assert forall|i: int| 0 <= i < s.len() implies spec_lookup(s, #[trigger] s[i].id) == Some(
        s[i],
    ) by {
        lemma_lookup_skip(s, s[i].id, i);
        assert(s.skip(i).len() > 0);
        assert(s.skip(i)[0] == s[i]);
    }
}

} // verus!
