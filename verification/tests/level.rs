use redeemer::level::{
    are_all_pushing_up, is_any_penetrating, is_pushing_up, modify_contacts,
    pass_through_one_way_platform, ContactDecision, Manifold, OneWayPlatform,
    OneWayPlatformCommand, PassThroughOneWayPlatform, PlatformSide,
};
use redeemer::units::Vec2;
use std::collections::HashSet;

const UP: Vec2 = Vec2 { x: 0, y: 1000 };

fn patch(x: i32, y: i32, penetrations: Vec<i32>) -> Manifold {
    Manifold { normal: Vec2 { x, y }, penetrations }
}

fn platform(passing: &[u64]) -> OneWayPlatform {
    OneWayPlatform(passing.iter().copied().collect::<HashSet<u64>>())
}

#[test]
fn player_drops_through_while_down_and_jump_are_held() {
    assert_eq!(pass_through_one_way_platform(true, true), (PassThroughOneWayPlatform::Always, true));
    assert_eq!(pass_through_one_way_platform(true, false), (PassThroughOneWayPlatform::ByNormal, false));
    assert_eq!(pass_through_one_way_platform(false, true), (PassThroughOneWayPlatform::ByNormal, false));
    assert_eq!(pass_through_one_way_platform(false, false), (PassThroughOneWayPlatform::ByNormal, false));
    assert_eq!(PassThroughOneWayPlatform::default(), PassThroughOneWayPlatform::ByNormal);
}

#[test]
fn commands_add_and_remove_passing_bodies() {
    let mut p = platform(&[1]);
    OneWayPlatformCommand::Add { platform_entity: 9, entity: 2 }.apply(&mut p);
    assert!(p.0.contains(&1) && p.0.contains(&2));
    OneWayPlatformCommand::Add { platform_entity: 9, entity: 2 }.apply(&mut p);
    assert_eq!(p.0.len(), 2);
    OneWayPlatformCommand::Remove { platform_entity: 9, entity: 1 }.apply(&mut p);
    assert!(!p.0.contains(&1));
    OneWayPlatformCommand::Remove { platform_entity: 9, entity: 1 }.apply(&mut p);
    assert_eq!(p.0.len(), 1);
}

#[test]
fn a_passing_body_that_has_sunk_in_keeps_passing() {
    let manifolds = vec![patch(0, 1000, vec![0, -3]), patch(0, 1000, vec![1])];
    assert!(is_any_penetrating(&manifolds));
    let d = modify_contacts(&platform(&[5]), 5, &manifolds, PlatformSide::First, UP, Some(PassThroughOneWayPlatform::Never));
    assert_eq!(d, ContactDecision { keep: false, remove: false, add: false });
}

#[test]
fn a_passing_body_that_has_come_free_is_judged_anew() {
    let manifolds = vec![patch(0, 1000, vec![0, -3])];
    assert!(!is_any_penetrating(&manifolds));
    let d = modify_contacts(&platform(&[5]), 5, &manifolds, PlatformSide::First, UP, None);
    assert_eq!(d, ContactDecision { keep: true, remove: true, add: false });
    let d = modify_contacts(&platform(&[5]), 5, &manifolds, PlatformSide::First, UP, Some(PassThroughOneWayPlatform::Always));
    assert_eq!(d, ContactDecision { keep: false, remove: true, add: true });
}

#[test]
fn never_and_always_do_not_look_at_the_normals() {
    let below = vec![patch(0, -1000, vec![])];
    let d = modify_contacts(&platform(&[]), 5, &below, PlatformSide::First, UP, Some(PassThroughOneWayPlatform::Never));
    assert_eq!(d, ContactDecision { keep: true, remove: false, add: false });
    let above = vec![patch(0, 1000, vec![])];
    let d = modify_contacts(&platform(&[]), 5, &above, PlatformSide::First, UP, Some(PassThroughOneWayPlatform::Always));
    assert_eq!(d, ContactDecision { keep: false, remove: false, add: true });
}

#[test]
fn by_normal_keeps_the_contact_only_if_every_patch_pushes_up() {
    let above = vec![patch(0, 1000, vec![]), patch(500, 866, vec![])];
    let mixed = vec![patch(0, 1000, vec![]), patch(1000, 0, vec![])];
    for mode in [None, Some(PassThroughOneWayPlatform::ByNormal)] {
        let d = modify_contacts(&platform(&[]), 5, &above, PlatformSide::First, UP, mode);
        assert_eq!(d, ContactDecision { keep: true, remove: false, add: false });
        let d = modify_contacts(&platform(&[]), 5, &mixed, PlatformSide::First, UP, mode);
        assert_eq!(d, ContactDecision { keep: false, remove: false, add: true });
    }
    let d = modify_contacts(&platform(&[]), 5, &vec![], PlatformSide::First, UP, None);
    assert_eq!(d, ContactDecision { keep: true, remove: false, add: false });
}

#[test]
fn normal_is_turned_when_the_platform_is_the_second_collider() {
    let m = patch(0, -1000, vec![]);
    assert!(!is_pushing_up(&m, PlatformSide::First, UP));
    assert!(is_pushing_up(&m, PlatformSide::Second, UP));
    assert!(are_all_pushing_up(&vec![patch(0, -1000, vec![])], PlatformSide::Second, UP));
}

#[test]
fn pushing_up_needs_a_length_and_half_the_platforms_up() {
    assert!(is_pushing_up(&patch(866, 500, vec![]), PlatformSide::First, UP));
    assert!(!is_pushing_up(&patch(867, 499, vec![]), PlatformSide::First, UP));
    assert!(!is_pushing_up(&patch(0, 0, vec![]), PlatformSide::First, UP));
    assert!(!is_pushing_up(&patch(0, 0, vec![]), PlatformSide::First, Vec2 { x: 0, y: 0 }));
    assert!(is_pushing_up(&patch(1000, 0, vec![]), PlatformSide::First, Vec2 { x: 1000, y: 0 }));
    assert!(is_pushing_up(&patch(i32::MIN, i32::MIN, vec![]), PlatformSide::Second, Vec2 { x: i32::MAX, y: i32::MAX }));
}
