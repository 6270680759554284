use bevissimo::contact::{Body, Contact, Side};
use bevissimo::orb::collision;
use bevissimo::ship::{collision_event, ORB_ENERGY};
use bevissimo::weapon::{collide, fire_weapons, PROJECTILE_LIFETIME_MS};

fn nothing() -> Body {
    Body { ship: false, player: false, energy: false, orb: false, projectile: false, hp: false }
}

fn orb() -> Body {
    Body { orb: true, hp: true, ..nothing() }
}

fn player_ship() -> Body {
    Body { ship: true, player: true, energy: true, ..nothing() }
}

fn drone_ship() -> Body {
    Body { ship: true, energy: true, ..nothing() }
}

fn projectile() -> Body {
    Body { projectile: true, ..nothing() }
}

fn began(first: Body, second: Body) -> Contact {
    Contact { started: true, first, second }
}

fn ended(first: Body, second: Body) -> Contact {
    Contact { started: false, first, second }
}

fn body_from_bits(bits: u32) -> Body {
    Body {
        ship: bits & 1 != 0,
        player: bits & 2 != 0,
        energy: bits & 4 != 0,
        orb: bits & 8 != 0,
        projectile: bits & 16 != 0,
        hp: bits & 32 != 0,
    }
}

fn mirror(outcome: Option<Side>) -> Option<Side> {
    outcome.map(|side| side.other())
}

#[test]
fn side_other_swaps_the_places() {
    assert_eq!(Side::First.other(), Side::Second);
    assert_eq!(Side::Second.other(), Side::First);
}

#[test]
fn ship_picks_up_orb_in_either_order() {
    assert_eq!(collision(&began(player_ship(), orb())), Some(Side::Second));
    assert_eq!(collision(&began(orb(), player_ship())), Some(Side::First));
    assert_eq!(collision(&began(drone_ship(), orb())), Some(Side::Second));
}

#[test]
fn no_pickup_without_an_orb_and_a_ship() {
    assert_eq!(collision(&began(orb(), orb())), None);
    assert_eq!(collision(&began(player_ship(), player_ship())), None);
    assert_eq!(collision(&began(orb(), projectile())), None);
    assert_eq!(collision(&began(nothing(), nothing())), None);
}

#[test]
fn ended_contact_changes_nothing() {
    assert_eq!(collision(&ended(player_ship(), orb())), None);
    assert_eq!(collision_event(&ended(player_ship(), orb())), None);
    assert_eq!(collide(&ended(orb(), projectile())), None);
}

#[test]
fn pickup_prefers_second_body_when_both_fit() {
    let both = Body { orb: true, ship: true, ..nothing() };
    assert_eq!(collision(&began(both, both)), Some(Side::Second));
}

#[test]
fn orb_gives_ten_energy() {
    assert_eq!(ORB_ENERGY, 10);
}

#[test]
fn player_ship_gains_energy_from_orb() {
    assert_eq!(collision_event(&began(player_ship(), orb())), Some(Side::First));
    assert_eq!(collision_event(&began(orb(), player_ship())), Some(Side::Second));
}

#[test]
fn only_a_powered_player_ship_gains_energy() {
    assert_eq!(collision_event(&began(drone_ship(), orb())), None);
    let no_reserve = Body { energy: false, ..player_ship() };
    assert_eq!(collision_event(&began(no_reserve, orb())), None);
    let no_hull = Body { ship: false, ..player_ship() };
    assert_eq!(collision_event(&began(orb(), no_hull)), None);
    assert_eq!(collision_event(&began(player_ship(), projectile())), None);
    assert_eq!(collision_event(&began(player_ship(), player_ship())), None);
}

#[test]
fn first_ship_shadows_the_second() {
    let ship_and_orb = Body { orb: true, ..player_ship() };
    assert_eq!(collision_event(&began(ship_and_orb, player_ship())), None);
    assert_eq!(collision_event(&began(player_ship(), ship_and_orb)), Some(Side::First));
}

#[test]
fn projectile_strikes_body_with_hit_points() {
    assert_eq!(collide(&began(orb(), projectile())), Some(Side::First));
    assert_eq!(collide(&began(projectile(), orb())), Some(Side::Second));
}

#[test]
fn projectile_passes_what_has_no_hit_points() {
    assert_eq!(collide(&began(player_ship(), projectile())), None);
    assert_eq!(collide(&began(projectile(), projectile())), None);
    assert_eq!(collide(&began(orb(), orb())), None);
    assert_eq!(collide(&began(orb(), player_ship())), None);
}

#[test]
fn first_target_shadows_the_second() {
    let armed_target = Body { projectile: true, ..orb() };
    assert_eq!(collide(&began(armed_target, orb())), None);
    assert_eq!(collide(&began(orb(), armed_target)), Some(Side::First));
}

#[test]
fn outcomes_mirror_when_bodies_swap() {
    for a in 0u32..64 {
        for b in 0u32..64 {
            let (first, second) = (body_from_bits(a), body_from_bits(b));
            let there = began(first, second);
            let back = began(second, first);
            let mixed = |x: Body| x.orb && x.ship;
            if !mixed(first) && !mixed(second) {
                assert_eq!(collision(&back), mirror(collision(&there)));
            }
            let charged = |x: Body| x.ship && x.energy && x.player && x.orb;
            if !charged(first) && !charged(second) {
                assert_eq!(collision_event(&back), mirror(collision_event(&there)));
            }
            let armed = |x: Body| x.hp && x.projectile;
            if !armed(first) && !armed(second) {
                assert_eq!(collide(&back), mirror(collide(&there)));
            }
        }
    }
}

#[test]
fn recharge_removes_the_orb_touched() {
    for a in 0u32..64 {
        for b in 0u32..64 {
            let (first, second) = (body_from_bits(a), body_from_bits(b));
            let contact = began(first, second);
            let gained = collision_event(&contact);
            let all_mixed = first.orb && first.ship && second.orb && second.ship;
            if gained.is_some() && !all_mixed {
                assert_eq!(collision(&contact), mirror(gained));
            }
        }
    }
}

#[test]
fn weapon_fires_on_a_beat_with_trigger_held() {
    assert!(fire_weapons(true, true));
    assert!(!fire_weapons(true, false));
    assert!(!fire_weapons(false, true));
    assert!(!fire_weapons(false, false));
}

#[test]
fn projectile_flies_for_a_second_and_a_half() {
    assert_eq!(PROJECTILE_LIFETIME_MS, 1500);
}
