use redeemer::animations::{AnimationId, ClipLength};
use redeemer::character::{
    actor_layers, bridge_attack_states_to_melee_tag, drive_animation, drive_motion_set_velocity,
    face_by_input, on_added_jumping_set_impulse, player_melee_spec, spawn_main_character,
    state_name, AnimClips, AttackDurations, AttackState, ClipLookup, ClipSlot, GameLayer,
    LocomotionState,
    MeleeTagChange, MissingClip, Player, Signals, Stance, StateTags, SwingEnd, Tuning, Walking,
    WalkingAttack, ATTACK_COOLDOWN_NS,
    JUMP_VELOCITY,
};
use redeemer::timer::Timer;
use redeemer::units::Vec2;

const MS: u64 = 1_000_000;
const FRAME: u64 = 16 * MS;

fn at_rest() -> Signals {
    Signals {
        axis: 0,
        sprint: false,
        jump_pressed: false,
        attack_pressed: false,
        grounded: true,
        vx: 0,
        vy: 0,
    }
}

fn bare(locomotion: LocomotionState) -> Stance {
    Stance { locomotion, attack: None }
}

fn durations() -> AttackDurations {
    AttackDurations { idle: 500 * MS, walk: 400 * MS, run: 300 * MS, jump: 200 * MS, fall: 100 * MS }
}

fn step(st: Stance, s: Signals) -> Stance {
    st.advance(&s, &Tuning::standard(), true, false, true)
}

fn clips() -> AnimClips {
    AnimClips {
        idle: AnimationId(1),
        walk: Some(AnimationId(2)),
        run: Some(AnimationId(3)),
        jump: Some(AnimationId(4)),
        fall: Some(AnimationId(5)),
        attack_idle: AnimationId(6),
        attack_walk: Some(AnimationId(7)),
        attack_run: Some(AnimationId(8)),
        attack_jump: Some(AnimationId(9)),
        attack_fall: Some(AnimationId(10)),
    }
}

#[test]
fn rest_stays_idle_for_a_hundred_ticks() {
    let mut p = Player::new(durations());
    for _ in 0..100 {
        let report = p.update(&at_rest(), FRAME, &Tuning::standard(), true);
        assert_eq!(p.stance, Stance::idle());
        assert_eq!(report.swing_end, None);
        assert!(!report.swing_started);
        assert_eq!(report.jump_impulse, None);
    }
}

#[test]
fn input_walks_then_sprint_runs_within_one_tick() {
    let mut p = Player::new(durations());
    let walk = Signals { axis: 800, ..at_rest() };
    p.update(&walk, FRAME, &Tuning::standard(), true);
    assert_eq!(p.stance, bare(LocomotionState::Walking));
    let run = Signals { axis: 800, sprint: true, ..at_rest() };
    p.update(&run, FRAME, &Tuning::standard(), true);
    assert_eq!(p.stance, bare(LocomotionState::Running));
}

#[test]
fn jump_sets_the_impulse_exactly_once() {
    let mut p = Player::new(durations());
    let press = Signals { jump_pressed: true, ..at_rest() };
    let report = p.update(&press, FRAME, &Tuning::standard(), true);
    assert_eq!(p.stance, bare(LocomotionState::Jumping));
    assert_eq!(report.jump_impulse, Some(520_000));
    assert_eq!(JUMP_VELOCITY, 520_000);
    let mut vy = 520_000;
    for _ in 0..10 {
        vy -= 16_000;
        let rising = Signals { grounded: false, vy, ..at_rest() };
        let report = p.update(&rising, FRAME, &Tuning::standard(), true);
        assert_eq!(p.stance, bare(LocomotionState::Jumping));
        assert_eq!(report.jump_impulse, None);
    }
}

#[test]
fn jump_still_touching_the_ground_does_not_land_at_once() {
    let mut p = Player::new(durations());
    p.update(&Signals { jump_pressed: true, ..at_rest() }, FRAME, &Tuning::standard(), true);
    let report = p.update(&Signals { vy: 520_000, ..at_rest() }, FRAME, &Tuning::standard(), true);
    assert_eq!(p.stance, bare(LocomotionState::Jumping));
    assert_eq!(report.jump_impulse, None);
}

#[test]
fn attack_runs_its_time_then_cools_down() {
    let mut p = Player::new(durations());
    let press = Signals { attack_pressed: true, ..at_rest() };
    let report = p.update(&press, FRAME, &Tuning::standard(), true);
    assert_eq!(p.stance, Stance { locomotion: LocomotionState::Idle, attack: Some(AttackState::IdleAttack) });
    assert!(report.swing_started);
    assert_eq!(p.attack_timer, Some(Timer::once(500 * MS)));

    let report = p.update(&at_rest(), 499 * MS, &Tuning::standard(), true);
    assert_eq!(report.swing_end, None);
    assert!(p.stance.is_attacking());

    let report = p.update(&at_rest(), MS, &Tuning::standard(), true);
    assert_eq!(report.swing_end, Some(SwingEnd::Completed));
    assert_eq!(p.stance, Stance::idle());
    assert_eq!(p.attack_timer, None);
    assert_eq!(p.attack_cooldown, Timer::once(150 * MS));
    assert_eq!(ATTACK_COOLDOWN_NS, 150 * MS);
    assert!(!p.attack_done);
}

#[test]
fn attack_is_refused_while_the_cooldown_runs() {
    let mut p = Player::new(durations());
    let press = Signals { attack_pressed: true, ..at_rest() };
    p.update(&press, FRAME, &Tuning::standard(), true);
    p.update(&at_rest(), 500 * MS, &Tuning::standard(), true);
    assert_eq!(p.stance, Stance::idle());

    let report = p.update(&press, 149 * MS, &Tuning::standard(), true);
    assert_eq!(p.stance, Stance::idle());
    assert!(!report.swing_started);
    assert_eq!(p.attack_timer, None);

    let report = p.update(&press, MS, &Tuning::standard(), true);
    assert!(report.swing_started);
    assert_eq!(p.stance.attack, Some(AttackState::IdleAttack));
}

#[test]
fn attack_pressed_during_a_swing_starts_no_second_swing() {
    let mut p = Player::new(durations());
    let press = Signals { attack_pressed: true, ..at_rest() };
    p.update(&press, FRAME, &Tuning::standard(), true);
    let timer_before = p.attack_timer;
    let report = p.update(&press, 0, &Tuning::standard(), true);
    assert!(!report.swing_started);
    assert_eq!(p.attack_timer, timer_before);
}

#[test]
fn an_actor_that_cannot_act_neither_jumps_nor_swings_nor_walks() {
    let mut p = Player::new(durations());
    let all = Signals { axis: 1000, sprint: true, jump_pressed: true, attack_pressed: true, ..at_rest() };
    let report = p.update(&all, FRAME, &Tuning::standard(), false);
    assert_eq!(p.stance, Stance::idle());
    assert_eq!(report.jump_impulse, None);
    assert!(!report.swing_started);
}

#[test]
fn swing_follows_the_locomotion_on_the_ground_and_restarts_its_timer() {
    let mut p = Player::new(durations());
    p.update(&Signals { attack_pressed: true, ..at_rest() }, FRAME, &Tuning::standard(), true);
    let report = p.update(&Signals { axis: 900, ..at_rest() }, 100 * MS, &Tuning::standard(), true);
    assert_eq!(
        p.stance,
        Stance { locomotion: LocomotionState::Walking, attack: Some(AttackState::WalkingAttack) }
    );
    assert!(report.swing_started);
    assert_eq!(report.swing_end, None);
    assert_eq!(p.attack_timer, Some(Timer::once(400 * MS)));
    let report = p.update(&Signals { axis: 900, sprint: true, ..at_rest() }, FRAME, &Tuning::standard(), true);
    assert_eq!(p.stance.attack, Some(AttackState::RunningAttack));
    assert!(report.swing_started);
    assert_eq!(p.attack_timer, Some(Timer::once(300 * MS)));
}

#[test]
fn jumping_out_of_a_swing_cancels_it_without_cooldown() {
    let mut p = Player::new(durations());
    p.update(&Signals { attack_pressed: true, ..at_rest() }, FRAME, &Tuning::standard(), true);
    let cooldown_before = p.attack_cooldown;
    let report = p.update(&Signals { jump_pressed: true, ..at_rest() }, 0, &Tuning::standard(), true);
    assert_eq!(p.stance, bare(LocomotionState::Jumping));
    assert_eq!(report.swing_end, Some(SwingEnd::Cancelled));
    assert_eq!(report.jump_impulse, Some(JUMP_VELOCITY));
    assert_eq!(p.attack_timer, None);
    let mut ticked = cooldown_before;
    ticked.tick(0);
    assert_eq!(p.attack_cooldown, ticked);
    assert_ne!(p.attack_cooldown.duration, ATTACK_COOLDOWN_NS);
}

#[test]
fn stepping_off_a_ledge_cancels_the_swing_without_cooldown() {
    let mut p = Player::new(durations());
    p.update(&Signals { attack_pressed: true, ..at_rest() }, FRAME, &Tuning::standard(), true);
    let report = p.update(&Signals { grounded: false, ..at_rest() }, FRAME, &Tuning::standard(), true);
    assert_eq!(p.stance, bare(LocomotionState::Falling));
    assert_eq!(report.swing_end, Some(SwingEnd::Cancelled));
    assert_eq!(p.attack_timer, None);
    assert_eq!(p.attack_cooldown.duration, 0);
}

#[test]
fn a_swing_in_the_air_ends_at_the_apex_and_carries_over_a_landing() {
    let mut p = Player::new(durations());
    p.update(&Signals { jump_pressed: true, ..at_rest() }, FRAME, &Tuning::standard(), true);
    let rising = Signals { grounded: false, vy: 300_000, ..at_rest() };
    p.update(&Signals { attack_pressed: true, ..rising }, FRAME, &Tuning::standard(), true);
    assert_eq!(
        p.stance,
        Stance { locomotion: LocomotionState::Jumping, attack: Some(AttackState::JumpingAttack) }
    );
    assert_eq!(p.attack_timer, Some(Timer::once(200 * MS)));
    let report = p.update(&Signals { grounded: false, vy: 0, ..at_rest() }, FRAME, &Tuning::standard(), true);
    assert_eq!(p.stance, bare(LocomotionState::Falling));
    assert_eq!(report.swing_end, Some(SwingEnd::Cancelled));

    let falling = Signals { grounded: false, vy: -100_000, ..at_rest() };
    p.update(&Signals { attack_pressed: true, ..falling }, FRAME, &Tuning::standard(), true);
    assert_eq!(p.stance.attack, Some(AttackState::FallingAttack));
    let report = p.update(&Signals { vy: -100_000, ..at_rest() }, FRAME, &Tuning::standard(), true);
    assert_eq!(
        p.stance,
        Stance { locomotion: LocomotionState::Idle, attack: Some(AttackState::IdleAttack) }
    );
    assert_eq!(report.swing_end, None);
    assert!(report.swing_started);
}

#[test]
fn cancel_attack_removes_swing_and_timer_and_leaves_the_cooldown() {
    let mut p = Player::new(durations());
    p.update(&Signals { attack_pressed: true, ..at_rest() }, FRAME, &Tuning::standard(), true);
    let cooldown = p.attack_cooldown;
    p.cancel_attack();
    assert_eq!(p.stance, Stance::idle());
    assert_eq!(p.attack_timer, None);
    assert_eq!(p.attack_cooldown, cooldown);
}

#[test]
fn stage_functions_mark_and_clear_a_finished_swing() {
    let mut p = Player::new(durations());
    p.update(&Signals { attack_pressed: true, ..at_rest() }, FRAME, &Tuning::standard(), true);
    p.tick_attack_timers(500 * MS);
    assert!(p.finish_attack_when_timer_done());
    assert!(p.attack_done);
    assert_eq!(p.attack_timer, None);
    assert_eq!(p.attack_cooldown, Timer::once(ATTACK_COOLDOWN_NS));
    assert!(!p.finish_attack_when_timer_done());
    p.clear_attack_done();
    assert!(p.attack_done);
    p.stance.attack = None;
    p.clear_attack_done();
    assert!(!p.attack_done);
}

#[test]
fn every_stance_carries_exactly_one_locomotion_tag() {
    let locomotions = [
        LocomotionState::Idle,
        LocomotionState::Walking,
        LocomotionState::Running,
        LocomotionState::Jumping,
        LocomotionState::SprintJumping,
        LocomotionState::Falling,
    ];
    for locomotion in locomotions {
        for attacking in [false, true] {
            let attack = if attacking { Some(locomotion.attack_for()) } else { None };
            let t = Stance { locomotion, attack }.tags();
            let locomotion_tags = [
                t.idle.is_some(),
                t.walking.is_some(),
                t.running.is_some(),
                t.jumping.is_some(),
                t.sprint_jumping.is_some(),
                t.falling.is_some(),
            ];
            let attack_tags = [
                t.idle_attack.is_some(),
                t.walking_attack.is_some(),
                t.running_attack.is_some(),
                t.jumping_attack.is_some(),
                t.falling_attack.is_some(),
            ];
            assert_eq!(locomotion_tags.iter().filter(|set| **set).count(), 1);
            assert_eq!(attack_tags.iter().filter(|set| **set).count(), usize::from(attacking));
        }
    }
    let t = Stance { locomotion: LocomotionState::SprintJumping, attack: Some(AttackState::JumpingAttack) }.tags();
    assert!(t.sprint_jumping.is_some());
    assert!(t.jumping_attack.is_some());
}

#[test]
fn idle_rules_in_order() {
    let idle = bare(LocomotionState::Idle);
    assert_eq!(step(idle, Signals { axis: 500, ..at_rest() }), bare(LocomotionState::Walking));
    assert_eq!(step(idle, Signals { axis: 499, ..at_rest() }), idle);
    assert_eq!(step(idle, Signals { axis: -500, sprint: true, ..at_rest() }), bare(LocomotionState::Running));
    assert_eq!(step(idle, Signals { grounded: false, ..at_rest() }), bare(LocomotionState::Falling));
    assert_eq!(
        step(idle, Signals { axis: 900, grounded: false, ..at_rest() }),
        bare(LocomotionState::Walking)
    );
}

#[test]
fn walking_and_running_stop_only_when_input_and_speed_are_small() {
    let walking = bare(LocomotionState::Walking);
    let running = bare(LocomotionState::Running);
    assert_eq!(step(walking, Signals { axis: 99, vx: 7_999, ..at_rest() }), bare(LocomotionState::Idle));
    assert_eq!(step(walking, Signals { axis: 100, vx: 0, ..at_rest() }), walking);
    assert_eq!(step(walking, Signals { axis: 0, vx: -8_000, ..at_rest() }), walking);
    assert_eq!(step(running, Signals { axis: 0, vx: 0, ..at_rest() }), bare(LocomotionState::Idle));
    assert_eq!(step(running, Signals { axis: 700, ..at_rest() }), bare(LocomotionState::Walking));
    assert_eq!(step(running, Signals { axis: 700, sprint: true, ..at_rest() }), running);
    assert_eq!(step(running, Signals { axis: 300, grounded: false, ..at_rest() }), bare(LocomotionState::Falling));
}

#[test]
fn jump_is_a_sprint_jump_exactly_with_sprint_and_strong_input() {
    let press = Signals { jump_pressed: true, ..at_rest() };
    assert_eq!(step(bare(LocomotionState::Running), press), bare(LocomotionState::Jumping));
    assert_eq!(
        step(bare(LocomotionState::Walking), Signals { axis: 500, sprint: true, ..press }),
        bare(LocomotionState::SprintJumping)
    );
    assert_eq!(
        step(bare(LocomotionState::Idle), Signals { axis: 499, sprint: true, ..press }),
        bare(LocomotionState::Jumping)
    );
    assert_eq!(
        step(bare(LocomotionState::Falling), Signals { grounded: false, ..press }),
        bare(LocomotionState::Falling)
    );
}

#[test]
fn airborne_states_fall_at_the_apex_and_land_by_input() {
    let jumping = bare(LocomotionState::Jumping);
    let sprint_jumping = bare(LocomotionState::SprintJumping);
    let falling = bare(LocomotionState::Falling);
    assert_eq!(step(jumping, Signals { grounded: false, vy: 1, ..at_rest() }), jumping);
    assert_eq!(step(jumping, Signals { grounded: false, vy: 0, ..at_rest() }), falling);
    assert_eq!(step(sprint_jumping, Signals { grounded: false, vy: -5, ..at_rest() }), falling);
    assert_eq!(step(falling, Signals { vy: -300_000, ..at_rest() }), bare(LocomotionState::Idle));
    assert_eq!(step(falling, Signals { axis: -600, vy: 0, ..at_rest() }), bare(LocomotionState::Walking));
    assert_eq!(
        step(falling, Signals { axis: 600, sprint: true, vy: 0, ..at_rest() }),
        bare(LocomotionState::Running)
    );
    assert_eq!(step(jumping, Signals { vy: 0, ..at_rest() }), bare(LocomotionState::Idle));
}

#[test]
fn landing_tolerates_a_slight_rise_and_no_more() {
    let falling = bare(LocomotionState::Falling);
    let t = Tuning::standard();
    assert_eq!(t.ascend_tolerance, 10_000);
    assert_eq!(step(falling, Signals { vy: 10_000, ..at_rest() }), bare(LocomotionState::Idle));
    assert_eq!(step(falling, Signals { vy: 10_001, ..at_rest() }), falling);
    let strict = Tuning { ascend_tolerance: 0, ..t };
    assert_eq!(falling.advance(&Signals { vy: 1, ..at_rest() }, &strict, true, false, true), falling);
}

#[test]
fn attack_needs_press_readiness_and_ability() {
    let idle = bare(LocomotionState::Idle);
    let press = Signals { attack_pressed: true, ..at_rest() };
    let t = Tuning::standard();
    assert_eq!(idle.advance(&press, &t, true, false, true).attack, Some(AttackState::IdleAttack));
    assert_eq!(idle.advance(&press, &t, false, false, true), idle);
    assert_eq!(idle.advance(&press, &t, true, false, false), idle);
    assert_eq!(idle.advance(&at_rest(), &t, true, false, true), idle);
    let sj = bare(LocomotionState::SprintJumping);
    let air = Signals { grounded: false, vy: 100_000, ..press };
    assert_eq!(sj.advance(&air, &t, true, false, true).attack, Some(AttackState::JumpingAttack));
}

#[test]
fn done_swing_returns_to_the_matching_bare_state() {
    let t = Tuning::standard();
    for locomotion in [LocomotionState::Idle, LocomotionState::Running, LocomotionState::SprintJumping, LocomotionState::Falling] {
        let st = Stance { locomotion, attack: Some(locomotion.attack_for()) };
        let all = Signals { axis: 1000, sprint: true, jump_pressed: true, attack_pressed: true, ..at_rest() };
        assert_eq!(st.advance(&all, &t, true, true, true), bare(locomotion));
    }
}

#[test]
fn motion_moves_towards_the_target_speed() {
    let idle = LocomotionState::Idle;
    assert_eq!(drive_motion_set_velocity(1000, false, idle, 0, 10 * MS), 36_000);
    assert_eq!(drive_motion_set_velocity(1000, false, idle, 0, 1_000 * MS), 160_000);
    assert_eq!(drive_motion_set_velocity(1000, true, idle, 0, 1_000 * MS), 280_000);
    assert_eq!(drive_motion_set_velocity(-500, true, LocomotionState::Running, 0, 1_000 * MS), -140_000);
    assert_eq!(drive_motion_set_velocity(0, false, idle, 100_000, 10 * MS), 64_000);
    assert_eq!(drive_motion_set_velocity(0, false, idle, 100_000, 0), 100_000);
    assert_eq!(drive_motion_set_velocity(5000, false, idle, 0, u64::MAX), 160_000);
}

#[test]
fn motion_in_the_air_is_slower_and_keeps_sprint_speed() {
    assert_eq!(drive_motion_set_velocity(1000, false, LocomotionState::Jumping, 0, 10 * MS), 18_000);
    assert_eq!(drive_motion_set_velocity(1000, true, LocomotionState::Jumping, 0, 1_000 * MS), 160_000);
    assert_eq!(drive_motion_set_velocity(1000, false, LocomotionState::SprintJumping, 0, 1_000 * MS), 280_000);
    assert_eq!(drive_motion_set_velocity(1000, false, LocomotionState::Falling, 200_000, 1_000 * MS), 280_000);
    assert_eq!(drive_motion_set_velocity(1000, false, LocomotionState::Falling, 160_000, 1_000 * MS), 160_000);
}

#[test]
fn facing_follows_clear_input_only() {
    assert!(!face_by_input(101, true));
    assert!(face_by_input(-101, false));
    assert!(face_by_input(100, true));
    assert!(!face_by_input(-100, false));
}

#[test]
fn impulse_only_on_entering_a_jump() {
    let idle = bare(LocomotionState::Idle);
    let jumping = bare(LocomotionState::Jumping);
    assert_eq!(on_added_jumping_set_impulse(&idle, &jumping, -7), JUMP_VELOCITY);
    assert_eq!(on_added_jumping_set_impulse(&jumping, &jumping, 300), 300);
    assert_eq!(on_added_jumping_set_impulse(&jumping, &idle, 0), 0);
    assert_eq!(on_added_jumping_set_impulse(&idle, &bare(LocomotionState::SprintJumping), 0), JUMP_VELOCITY);
}

#[test]
fn melee_tag_follows_the_swing() {
    let swinging = Stance { locomotion: LocomotionState::Idle, attack: Some(AttackState::IdleAttack) };
    assert_eq!(bridge_attack_states_to_melee_tag(&swinging, false), MeleeTagChange::Insert);
    assert_eq!(bridge_attack_states_to_melee_tag(&swinging, true), MeleeTagChange::Keep);
    assert_eq!(bridge_attack_states_to_melee_tag(&Stance::idle(), true), MeleeTagChange::Remove);
    assert_eq!(bridge_attack_states_to_melee_tag(&Stance::idle(), false), MeleeTagChange::Keep);
}

#[test]
fn swing_clip_comes_before_locomotion_clip() {
    let c = clips();
    let st = Stance { locomotion: LocomotionState::Running, attack: Some(AttackState::RunningAttack) };
    assert_eq!(c.select(&st, 0), AnimationId(8));
    assert_eq!(c.select(&bare(LocomotionState::Running), 0), AnimationId(3));
    assert_eq!(c.select(&bare(LocomotionState::Falling), 1), AnimationId(4));
    assert_eq!(c.select(&bare(LocomotionState::Falling), 0), AnimationId(5));
    assert_eq!(c.select(&bare(LocomotionState::SprintJumping), -1), AnimationId(4));
}

#[test]
fn missing_clips_fall_back_along_their_chain() {
    let c = AnimClips {
        walk: None,
        run: None,
        jump: None,
        attack_walk: None,
        attack_run: None,
        attack_fall: None,
        ..clips()
    };
    assert_eq!(c.select(&bare(LocomotionState::Walking), 0), AnimationId(1));
    assert_eq!(c.select(&bare(LocomotionState::Running), 0), AnimationId(1));
    assert_eq!(c.select(&bare(LocomotionState::Jumping), 0), AnimationId(5));
    assert_eq!(c.select(&bare(LocomotionState::Falling), 1), AnimationId(5));
    let swing = |locomotion: LocomotionState| Stance { locomotion, attack: Some(locomotion.attack_for()) };
    assert_eq!(c.select(&swing(LocomotionState::Walking), 0), AnimationId(6));
    assert_eq!(c.select(&swing(LocomotionState::Running), 0), AnimationId(6));
    assert_eq!(c.select(&swing(LocomotionState::Falling), 0), AnimationId(9));
    let none = AnimClips { fall: None, ..c };
    assert_eq!(none.select(&bare(LocomotionState::Falling), -1), AnimationId(1));
}

#[test]
fn clip_switches_only_when_it_differs() {
    let c = clips();
    assert_eq!(drive_animation(&c, AnimationId(1), &Stance::idle(), 0), None);
    assert_eq!(drive_animation(&c, AnimationId(2), &Stance::idle(), 0), Some(AnimationId(1)));
}

#[test]
fn clips_need_idle_and_standing_swing() {
    let id = |n: u64| Some(AnimationId(n));
    assert_eq!(
        AnimClips::assemble(None, id(2), id(3), id(4), id(5), None, id(7), id(8), id(9), id(10)),
        Err(MissingClip::Idle)
    );
    assert_eq!(
        AnimClips::assemble(id(1), id(2), id(3), id(4), id(5), None, id(7), id(8), id(9), id(10)),
        Err(MissingClip::AttackIdle)
    );
    assert_eq!(
        AnimClips::assemble(id(1), id(2), id(3), id(4), id(5), id(6), id(7), id(8), id(9), id(10)),
        Ok(clips())
    );
}

#[test]
fn state_names() {
    assert_eq!(state_name(&Stance::idle()), "Idle");
    assert_eq!(state_name(&bare(LocomotionState::SprintJumping)), "SprintJumping");
    let st = Stance { locomotion: LocomotionState::SprintJumping, attack: Some(AttackState::JumpingAttack) };
    assert_eq!(state_name(&st), "JumpingAttack");
}

#[test]
fn clip_names() {
    assert_eq!(ClipSlot::Idle.name(), "player_combat:swordidle");
    assert_eq!(ClipSlot::AttackFall.name(), "player_combat:airslashdown");
}

#[test]
fn swing_lengths_fall_back_along_their_chain() {
    assert_eq!(
        AttackDurations::resolve(None, None, None, None, None, 500 * MS),
        AttackDurations::uniform(500 * MS)
    );
    assert_eq!(
        AttackDurations::resolve(Some(1), None, None, Some(4), None, 9),
        AttackDurations { idle: 1, walk: 1, run: 1, jump: 4, fall: 4 }
    );
    assert_eq!(
        AttackDurations::resolve(None, Some(2), None, None, Some(5), 9),
        AttackDurations { idle: 9, walk: 2, run: 2, jump: 9, fall: 5 }
    );
}

fn found() -> ClipLookup {
    ClipLookup {
        idle: Some(AnimationId(1)),
        walk: Some(AnimationId(2)),
        run: Some(AnimationId(3)),
        jump: Some(AnimationId(4)),
        fall: Some(AnimationId(5)),
        attack_idle: Some(AnimationId(6)),
        attack_walk: Some(AnimationId(7)),
        attack_run: Some(AnimationId(8)),
        attack_jump: Some(AnimationId(9)),
        attack_fall: Some(AnimationId(10)),
    }
}

#[test]
fn player_spawns_with_the_lengths_of_its_clips() {
    let table = vec![
        ClipLength { name: "player_combat:standingslash".to_string(), nanos: 600 * MS },
        ClipLength { name: "player_combat:airslashup".to_string(), nanos: 300 * MS },
    ];
    let p = spawn_main_character(&found(), &table).unwrap().player;
    assert_eq!(p.stance, Stance::idle());
    assert_eq!(
        p.durations,
        AttackDurations { idle: 600 * MS, walk: 600 * MS, run: 600 * MS, jump: 300 * MS, fall: 300 * MS }
    );
    let bare = spawn_main_character(&found(), &vec![]).unwrap().player;
    assert_eq!(bare.durations, AttackDurations::uniform(500 * MS));
    assert_eq!(p.attack_cooldown, Timer::once(0));
}

#[test]
fn player_spawns_at_rest_showing_its_idle_clip() {
    let spawn = spawn_main_character(&found(), &vec![]).unwrap();
    assert_eq!(spawn.clips, clips());
    assert_eq!(spawn.current, AnimationId(1));
    assert_eq!(spawn.player.stance, Stance::idle());
    assert_eq!(spawn.player.attack_timer, None);
    assert!(!spawn.player.attack_done);
    assert_eq!(spawn.player.attack_cooldown, Timer::once(0));
    assert!(spawn.player.is_wf());
    assert_eq!(drive_animation(&spawn.clips, spawn.current, &spawn.player.stance, 0), None);
    let t = spawn.player.stance.tags();
    assert!(t.idle.is_some() && t.walking.is_none() && t.idle_attack.is_none());
}

#[test]
fn no_player_spawns_without_the_idle_clip_or_the_standing_swing() {
    let no_idle = ClipLookup { idle: None, attack_idle: None, ..found() };
    assert_eq!(spawn_main_character(&no_idle, &vec![]), Err(MissingClip::Idle));
    let no_swing = ClipLookup { attack_idle: None, ..found() };
    assert_eq!(spawn_main_character(&no_swing, &vec![]), Err(MissingClip::AttackIdle));
    assert_eq!(no_swing.assemble(), Err(MissingClip::AttackIdle));
}

#[test]
fn a_player_spawns_though_every_other_clip_is_missing() {
    let least = ClipLookup {
        walk: None,
        run: None,
        jump: None,
        fall: None,
        attack_walk: None,
        attack_run: None,
        attack_jump: None,
        attack_fall: None,
        ..found()
    };
    let spawn = spawn_main_character(&least, &vec![]).unwrap();
    assert_eq!(spawn.clips.idle, AnimationId(1));
    assert_eq!(spawn.clips.attack_idle, AnimationId(6));
    assert_eq!(spawn.clips.walk, None);
    assert_eq!(spawn.clips.attack_fall, None);
    assert_eq!(spawn.current, AnimationId(1));
}

#[test]
fn player_ray_and_layers() {
    let spec = player_melee_spec();
    assert_eq!(spec.offset, Vec2 { x: 18_000, y: 8_000 });
    assert_eq!(spec.damage, 1);
    assert_eq!(spec.filter, GameLayer::Enemy.to_bits());
    assert!(spec.once_per_swing);
    let layers = actor_layers(GameLayer::Player, GameLayer::Enemy);
    assert_eq!(layers.memberships, 2);
    assert_eq!(layers.filters, 5);
    assert_eq!(GameLayer::Default.to_bits(), 1);
}

#[test]
fn tags_read_back_as_the_stance_they_stand_for() {
    let locomotions = [
        LocomotionState::Idle,
        LocomotionState::Walking,
        LocomotionState::Running,
        LocomotionState::Jumping,
        LocomotionState::SprintJumping,
        LocomotionState::Falling,
    ];
    for locomotion in locomotions {
        for attacking in [false, true] {
            let attack = if attacking { Some(locomotion.attack_for()) } else { None };
            let st = Stance { locomotion, attack };
            assert!(st.is_wf());
            assert_eq!(st.tags().stance(), st);
        }
    }
}

#[test]
fn tags_that_disagree_still_read_as_a_well_formed_stance() {
    let none = StateTags {
        idle: None,
        walking: None,
        running: None,
        jumping: None,
        sprint_jumping: None,
        falling: None,
        idle_attack: None,
        walking_attack: None,
        running_attack: None,
        jumping_attack: None,
        falling_attack: None,
    };
    assert_eq!(none.stance(), Stance::idle());
    let swing_only = StateTags { walking_attack: Some(WalkingAttack), ..none };
    assert_eq!(
        swing_only.stance(),
        Stance { locomotion: LocomotionState::Walking, attack: Some(AttackState::WalkingAttack) }
    );
    let odd = StateTags { walking: Some(Walking), ..Stance::idle().tags() };
    assert_eq!(odd.stance(), Stance { locomotion: LocomotionState::Walking, attack: None });
    assert!(!Stance { locomotion: LocomotionState::Idle, attack: Some(AttackState::FallingAttack) }.is_wf());
    assert_eq!(AttackState::JumpingAttack.locomotion_of(), LocomotionState::Jumping);
}

#[test]
fn a_player_between_ticks_is_well_formed() {
    let mut p = Player::new(durations());
    assert!(p.is_wf());
    let inputs = [
        Signals { attack_pressed: true, ..at_rest() },
        Signals { axis: 900, ..at_rest() },
        Signals { axis: 900, jump_pressed: true, sprint: true, ..at_rest() },
        Signals { grounded: false, vy: 400_000, attack_pressed: true, ..at_rest() },
        Signals { grounded: false, vy: -1, ..at_rest() },
        Signals { vy: -200_000, attack_pressed: true, ..at_rest() },
        at_rest(),
    ];
    for round in 0..40 {
        let s = inputs[round % inputs.len()];
        p.update(&s, 90 * MS, &Tuning::standard(), round % 5 != 0);
        assert!(p.is_wf());
    }
}

#[test]
fn a_stun_cuts_the_players_swing_short_without_cooldown() {
    let mut p = Player::new(durations());
    p.update(&Signals { attack_pressed: true, ..at_rest() }, FRAME, &Tuning::standard(), true);
    assert!(p.stance.is_attacking());
    let report = p.update(&Signals { axis: 1000, ..at_rest() }, FRAME, &Tuning::standard(), false);
    assert_eq!(report.swing_end, Some(SwingEnd::Cancelled));
    assert_eq!(p.stance, Stance::idle());
    assert_eq!(p.attack_timer, None);
    assert_eq!(p.attack_cooldown.duration, 0);
}

#[test]
fn a_swing_that_runs_out_as_the_stun_arrives_still_completes() {
    let mut p = Player::new(durations());
    p.update(&Signals { attack_pressed: true, ..at_rest() }, FRAME, &Tuning::standard(), true);
    let report = p.update(&at_rest(), 500 * MS, &Tuning::standard(), false);
    assert_eq!(report.swing_end, Some(SwingEnd::Completed));
    assert_eq!(p.attack_cooldown, Timer::once(ATTACK_COOLDOWN_NS));
}
