use yareio::collection::{Collection, EnumerateByID, GetByID, TryGetByID};
use yareio::ids::TypedId;
use yareio::lattice::TypeTag;
use yareio::record::{EntityRecord, Shape, StructureType};

fn blank(id: u64) -> EntityRecord {
    EntityRecord {
        id,
        x: 0,
        y: 0,
        size: 1,
        energy: 0,
        energy_capacity: 0,
        last_energized_by: None,
        hp: None,
        player: None,
        shape: None,
        structure_type: None,
        spirit_cost: None,
        control: None,
        active_in: None,
        active_at: None,
    }
}

fn spirit(id: u64, hp: u32, player: u64) -> EntityRecord {
    EntityRecord {
        hp: Some(hp),
        player: Some(player),
        shape: Some(Shape::Circles),
        ..blank(id)
    }
}

fn star(id: u64) -> EntityRecord {
    EntityRecord {
        structure_type: Some(StructureType::Star),
        active_in: Some(0),
        active_at: Some(100),
        ..blank(id)
    }
}

const ME: u64 = 1;
const FOE: u64 = 2;

#[test]
fn lookup_consistency_across_id_tags() {
    let c = Collection::new(
        TypeTag::Spirit,
        vec![spirit(1, 1, ME), spirit(2, 0, FOE), spirit(3, 2, FOE)],
        ME,
    )
    .expect("well-formed spirit records must be accepted");
    let own = TypedId { tag: TypeTag::Spirit, raw: 2 };
    let broad = own.widen(TypeTag::Destructible);
    let broadest = own.widen(TypeTag::Entity);
    let by_own = TryGetByID::get(&c, &own);
    let by_broad = TryGetByID::get(&c, &broad);
    let by_broadest = TryGetByID::get(&c, &broadest);
    assert!(by_own.is_some());
    assert_eq!(by_own, by_broad);
    assert_eq!(by_own, by_broadest);
    let missing = TypedId { tag: TypeTag::Spirit, raw: 9 };
    assert_eq!(TryGetByID::get(&c, &missing), None);
    assert_eq!(TryGetByID::get(&c, &missing.widen(TypeTag::Entity)), None);
}

#[test]
fn infallible_get_finds_present_key() {
    let a = spirit(4, 1, ME);
    let c = Collection::new(TypeTag::Spirit, vec![a, spirit(5, 1, FOE)], ME).unwrap();
    let id = TypedId { tag: TypeTag::Spirit, raw: 4 };
    let got = GetByID::get(&c, &id);
    assert_eq!(got, a);
}

#[test]
fn enumeration_completeness() {
    let records = vec![spirit(1, 1, ME), spirit(2, 0, FOE), spirit(3, 2, FOE)];
    let c = Collection::new(TypeTag::Spirit, records.clone(), ME).unwrap();

    let mut keys = c.ids();
    let mut reached: Vec<EntityRecord> = Vec::new();
    while let Some(k) = keys.next() {
        assert_eq!(k.tag, TypeTag::Spirit);
        reached.push(TryGetByID::get(&c, &k).expect("every enumerated key must be present"));
    }

    let mut vals = c.values();
    let mut enumerated: Vec<EntityRecord> = Vec::new();
    while let Some(v) = vals.next() {
        enumerated.push(v);
    }

    assert_eq!(reached, records);
    assert_eq!(enumerated, records);
}

#[test]
fn wrong_kind_record_is_refused() {
    let c = Collection::new(TypeTag::Base, vec![spirit(1, 1, ME)], ME);
    assert!(c.is_none(), "a spirit must not enter the bases collection");
    let c2 = Collection::new(TypeTag::Star, vec![star(7), blank(8)], ME);
    assert!(c2.is_none(), "a bare entity must not enter the stars collection");
}

#[test]
fn duplicate_key_is_refused() {
    let c = Collection::new(TypeTag::Spirit, vec![spirit(1, 1, ME), spirit(1, 0, FOE)], ME);
    assert!(c.is_none(), "two records with one identifier must be refused");
}

#[test]
fn empty_collection_accepted() {
    let c = Collection::new(TypeTag::Outpost, Vec::new(), ME).unwrap();
    let id = TypedId { tag: TypeTag::Outpost, raw: 1 };
    assert_eq!(TryGetByID::get(&c, &id), None);
    let mut it = c.values();
    assert_eq!(it.size_hint(), (0, Some(0)));
    assert_eq!(it.next(), None);
}

#[test]
fn id_compatibility_is_static_capability() {
    let spirit_id = TypedId { tag: TypeTag::Spirit, raw: 1 };
    assert!(spirit_id.check_compatible_with(TypeTag::Spirit));
    // An ancestor identifier may ask a spirits collection.
    let entity_id = spirit_id.widen(TypeTag::Entity);
    assert!(entity_id.check_compatible_with(TypeTag::Spirit));
    // A descendant identifier may ask it too.
    let operable_id = TypedId { tag: TypeTag::OperableCircleSpirit, raw: 1 };
    assert!(operable_id.check_compatible_with(TypeTag::Spirit));
    // A sibling kind's identifier may not.
    assert!(!spirit_id.check_compatible_with(TypeTag::Base));
    assert!(!TypedId { tag: TypeTag::Base, raw: 1 }.check_compatible_with(TypeTag::Spirit));
}

#[test]
fn cursor_walks_both_ends() {
    let c = Collection::new(
        TypeTag::Spirit,
        vec![spirit(1, 1, ME), spirit(2, 1, ME), spirit(3, 1, ME), spirit(4, 1, ME)],
        ME,
    )
    .unwrap();
    let mut it = c.ids();
    assert_eq!(it.size_hint(), (4, Some(4)));
    assert_eq!(it.next().unwrap().raw, 1);
    assert_eq!(it.next_back().unwrap().raw, 4);
    assert_eq!(it.size_hint(), (2, Some(2)));
    assert_eq!(it.next().unwrap().raw, 2);
    assert_eq!(it.next().unwrap().raw, 3);
    assert_eq!(it.next(), None);
    assert_eq!(it.next_back(), None);
    assert_eq!(it.size_hint(), (0, Some(0)));
    it.restart();
    assert_eq!(it.size_hint(), (4, Some(4)));
    assert_eq!(it.next().unwrap().raw, 1);
}
