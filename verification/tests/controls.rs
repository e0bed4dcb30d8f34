use redeemer::controls::{grounded, Action, Falling, Grounded, GRAVITY, JUMP_VELOCITY, PLAYER_SPEED, SPRINT_MULTIPLIER};

#[test]
fn directions_of_a_grounded_actor() {
    assert_eq!(Grounded::Left.direction(), -1);
    assert_eq!(Grounded::Idle.direction(), 0);
    assert_eq!(Grounded::Right.direction(), 1);
}

#[test]
fn a_falling_actor_lands_at_the_ground_line_when_not_rising() {
    assert!(grounded(0, &Falling { velocity: 0, vel_x: 9 }));
    assert!(grounded(-5, &Falling { velocity: -100, vel_x: 0 }));
    assert!(!grounded(1, &Falling { velocity: -100, vel_x: 0 }));
    assert!(!grounded(0, &Falling { velocity: 1, vel_x: 0 }));
}

#[test]
fn tuning_of_the_simple_controls() {
    assert_eq!(GRAVITY, -980_000);
    assert_eq!(PLAYER_SPEED, 150_000);
    assert_eq!(SPRINT_MULTIPLIER, 1750);
    assert_eq!(JUMP_VELOCITY, 420_000);
    assert_ne!(Action::Move, Action::Jump);
}
