use yareio::collection::{Collection, TryGetByID};
use yareio::ids::TypedId;
use yareio::lattice::TypeTag;
use yareio::narrow::{narrow, Typed};
use yareio::record::{EntityRecord, Shape, StructureType};
use yareio::context::TurnContext;

fn blank(id: u64) -> EntityRecord {
    EntityRecord {
        id,
        x: 0,
        y: 0,
        size: 1,
        energy: 0,
        energy_capacity: 0,
        last_energized_by: None,
        hp: None,
        player: None,
        shape: None,
        structure_type: None,
        spirit_cost: None,
        control: None,
        active_in: None,
        active_at: None,
    }
}

fn spirit(id: u64, hp: u32, player: u64, shape: Shape) -> EntityRecord {
    EntityRecord {
        hp: Some(hp),
        player: Some(player),
        shape: Some(shape),
        ..blank(id)
    }
}

fn base(id: u64, player: u64) -> EntityRecord {
    EntityRecord {
        hp: Some(1),
        player: Some(player),
        shape: Some(Shape::Circles),
        structure_type: Some(StructureType::Base),
        spirit_cost: Some(25),
        ..blank(id)
    }
}

fn outpost(id: u64, control: u64) -> EntityRecord {
    EntityRecord {
        structure_type: Some(StructureType::Outpost),
        control: Some(control),
        ..blank(id)
    }
}

fn star(id: u64) -> EntityRecord {
    EntityRecord {
        structure_type: Some(StructureType::Star),
        active_in: Some(0),
        active_at: Some(100),
        ..blank(id)
    }
}

const ME: u64 = 1;
const FOE: u64 = 2;

fn make_context(spirits: Vec<EntityRecord>) -> TurnContext {
    let spirits = Collection::new(TypeTag::Spirit, spirits, ME).unwrap();
    let bases = Collection::new(TypeTag::Base, vec![base(100, ME), base(101, FOE)], ME).unwrap();
    let outposts = Collection::new(TypeTag::Outpost, vec![outpost(200, FOE)], ME).unwrap();
    let stars =
        Collection::new(TypeTag::Star, vec![star(300), star(301), star(302)], ME).unwrap();
    TurnContext::new(
        5,
        ME,
        ME,
        FOE,
        spirits,
        bases,
        outposts,
        stars,
        TypedId { tag: TypeTag::Base, raw: 100 },
        TypedId { tag: TypeTag::Base, raw: 101 },
        TypedId { tag: TypeTag::Outpost, raw: 200 },
        TypedId { tag: TypeTag::Star, raw: 300 },
        TypedId { tag: TypeTag::Star, raw: 301 },
        TypedId { tag: TypeTag::Star, raw: 302 },
    )
}

#[test]
fn one_living_friendly_and_one_dead_enemy() {
    // One living friendly circle-shaped spirit and one dead enemy spirit.
    let a = spirit(1, 1, ME, Shape::Circles);
    let b = spirit(2, 0, FOE, Shape::Circles);
    let mut ctx = make_context(vec![a, b]);

    let mine = ctx.my_spirits();
    assert_eq!(mine, vec![a]);

    let ta = Typed { tag: TypeTag::Spirit, rec: a };
    let ra = narrow(ta, TypeTag::OperableCircleSpirit, ME);
    let wa = ra.expect("the living friendly circle spirit must be operable");
    assert_eq!(wa.tag, TypeTag::OperableCircleSpirit);
    assert_eq!(wa.rec, a);

    let tb = Typed { tag: TypeTag::Spirit, rec: b };
    let rb = narrow(tb, TypeTag::LivingSpirit, ME);
    let wb = rb.expect_err("the dead enemy spirit must not narrow into LivingSpirit");
    assert_eq!(wb.tag, TypeTag::DeadSpirit);
    assert_eq!(wb.rec, b);

    let b_id = TypedId { tag: TypeTag::Spirit, raw: b.id };
    let in_bases = TryGetByID::get(ctx.bases(), &b_id.widen(TypeTag::Entity));
    assert_eq!(in_bases, None);
}

#[test]
fn my_spirits_is_computed_once_and_cached() {
    let a = spirit(1, 1, ME, Shape::Circles);
    let b = spirit(2, 0, ME, Shape::Circles);
    let c = spirit(3, 4, FOE, Shape::Squares);
    let d = spirit(4, 2, ME, Shape::Triangles);
    let mut ctx = make_context(vec![a, b, c, d]);
    assert!(ctx.operable_cache.is_none());
    let first = ctx.my_spirits();
    // Friendly and living, in snapshot order: the dead friendly spirit
    // and the enemy spirit stay out.
    assert_eq!(first, vec![a, d]);
    assert!(ctx.operable_cache.is_some());
    let second = ctx.my_spirits();
    assert_eq!(second, first);
}

#[test]
fn scalar_globals_and_well_known_structures() {
    let mut ctx = make_context(vec![]);
    assert_eq!(ctx.tick(), 5);
    assert_eq!(ctx.this_player_id(), ME);
    assert_eq!(ctx.p1, ME);
    assert_eq!(ctx.p2, FOE);
    assert_eq!(ctx.base().unwrap().id, 100);
    assert_eq!(ctx.enemy_base().unwrap().id, 101);
    assert_eq!(ctx.outpost().unwrap().id, 200);
    assert_eq!(ctx.outpost_mdo().unwrap().id, 200);
    assert_eq!(ctx.star_zxq().unwrap().id, 300);
    assert_eq!(ctx.star_a1c().unwrap().id, 301);
    assert_eq!(ctx.star_p89().unwrap().id, 302);
    assert_eq!(ctx.spirits().records.len(), 0);
    assert_eq!(ctx.outposts().records.len(), 1);
    assert_eq!(ctx.stars().records.len(), 3);
    assert_eq!(ctx.my_spirits(), Vec::new());
}

#[test]
fn absent_well_known_structure_is_reported_absent() {
    let spirits = Collection::new(TypeTag::Spirit, vec![], ME).unwrap();
    let bases = Collection::new(TypeTag::Base, vec![base(100, ME)], ME).unwrap();
    let outposts = Collection::new(TypeTag::Outpost, vec![], ME).unwrap();
    let stars = Collection::new(TypeTag::Star, vec![], ME).unwrap();
    let ctx = TurnContext::new(
        0,
        ME,
        ME,
        FOE,
        spirits,
        bases,
        outposts,
        stars,
        TypedId { tag: TypeTag::Base, raw: 100 },
        TypedId { tag: TypeTag::Base, raw: 101 },
        TypedId { tag: TypeTag::Outpost, raw: 200 },
        TypedId { tag: TypeTag::Star, raw: 300 },
        TypedId { tag: TypeTag::Star, raw: 301 },
        TypedId { tag: TypeTag::Star, raw: 302 },
    );
    assert!(ctx.base().is_some());
    assert!(ctx.enemy_base().is_none());
    assert!(ctx.outpost().is_none());
    assert!(ctx.star_p89().is_none());
}
