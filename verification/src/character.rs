//! The player: locomotion and attack state machine, attack timers, motion
//! and animation choice.

use crate::animations::{clip_length, length_of, AnimationId, ClipLength};
use crate::raycasts::MeleeRaycastSpec;
use crate::timer::{Timer, TimerMode};
use crate::units::Vec2;
use crate::units::{abs_int, approach, approach_int, clamp_int, magnitude, max_speed_step, speed_step};
use vstd::prelude::*;

verus! {

/// Collision layers, one bit each.
#[derive(Clone, Copy, Debug, PartialEq, Eq, Structural)]
pub enum GameLayer {
    Default,
    Player,
    Enemy,
}

impl GameLayer {
    /// The bit that stands for this layer in a layer mask.
    pub open spec fn bits(self) -> u32 {
        match self {
            GameLayer::Default => 1,
            GameLayer::Player => 2,
            GameLayer::Enemy => 4,
        }
    }

    /// The bit that stands for this layer in a layer mask.
    pub fn to_bits(self) -> (mask: u32)
        ensures
            mask == self.bits(),
    {
        match self {
            GameLayer::Default => 1,
            GameLayer::Player => 2,
            GameLayer::Enemy => 4,
        }
    }
}

// ───────── State tags ─────────
/// Tag of an actor standing still on the ground.
#[derive(Clone, Copy, Debug, Default, PartialEq, Eq)]
pub struct Idle;

/// Tag of an actor walking on the ground.
#[derive(Clone, Copy, Debug, Default, PartialEq, Eq)]
pub struct Walking;

/// Tag of an actor sprinting on the ground.
#[derive(Clone, Copy, Debug, Default, PartialEq, Eq)]
pub struct Running;

/// Tag of an actor rising after a jump.
#[derive(Clone, Copy, Debug, Default, PartialEq, Eq)]
pub struct Jumping;

/// Tag of an actor rising after a jump taken at a sprint.
#[derive(Clone, Copy, Debug, Default, PartialEq, Eq)]
pub struct SprintJumping;

/// Tag of an actor that is airborne and no longer rising from a jump.
#[derive(Clone, Copy, Debug, Default, PartialEq, Eq)]
pub struct Falling;

/// Tag of a swing made while standing.
#[derive(Clone, Copy, Debug, Default, PartialEq, Eq)]
pub struct IdleAttack;

/// Tag of a swing made while walking.
#[derive(Clone, Copy, Debug, Default, PartialEq, Eq)]
pub struct WalkingAttack;

/// Tag of a swing made while sprinting.
#[derive(Clone, Copy, Debug, Default, PartialEq, Eq)]
pub struct RunningAttack;

/// Tag of a swing made while rising.
#[derive(Clone, Copy, Debug, Default, PartialEq, Eq)]
pub struct JumpingAttack;

/// Tag of a swing made while falling.
#[derive(Clone, Copy, Debug, Default, PartialEq, Eq)]
pub struct FallingAttack;

/// How an actor moves. An actor is in exactly one of these at any time.
#[derive(Clone, Copy, Debug, PartialEq, Eq, Structural)]
pub enum LocomotionState {
    Idle,
    Walking,
    Running,
    Jumping,
    SprintJumping,
    Falling,
}

/// The swing that is layered over the locomotion state, named after the
/// locomotion it was made in.
#[derive(Clone, Copy, Debug, PartialEq, Eq, Structural)]
pub enum AttackState {
    IdleAttack,
    WalkingAttack,
    RunningAttack,
    JumpingAttack,
    FallingAttack,
}

/// The tags an actor carries: one field per state, set when the actor is in
/// that state.
#[derive(Clone, Copy, Debug, PartialEq, Eq)]
pub struct StateTags {
    pub idle: Option<Idle>,
    pub walking: Option<Walking>,
    pub running: Option<Running>,
    pub jumping: Option<Jumping>,
    pub sprint_jumping: Option<SprintJumping>,
    pub falling: Option<Falling>,
    pub idle_attack: Option<IdleAttack>,
    pub walking_attack: Option<WalkingAttack>,
    pub running_attack: Option<RunningAttack>,
    pub jumping_attack: Option<JumpingAttack>,
    pub falling_attack: Option<FallingAttack>,
}

/// `1` for a tag that is set and `0` for one that is not.
pub open spec fn tag_count<T>(tag: Option<T>) -> nat {
    if tag is Some {
        1
    } else {
        0
    }
}

impl StateTags {
    /// How many locomotion tags are set.
    pub open spec fn locomotion_count(self) -> nat {
        tag_count(self.idle) + tag_count(self.walking) + tag_count(self.running) + tag_count(
            self.jumping,
        ) + tag_count(self.sprint_jumping) + tag_count(self.falling)
    }

    /// How many attack tags are set.
    pub open spec fn attack_count(self) -> nat {
        tag_count(self.idle_attack) + tag_count(self.walking_attack) + tag_count(
            self.running_attack,
        ) + tag_count(self.jumping_attack) + tag_count(self.falling_attack)
    }

    /// Whether any attack tag is set.
    pub open spec fn attacking(self) -> bool {
        self.attack_count() > 0
    }
}

/// What an actor is doing: how it moves, and the swing it is in, if any.
#[derive(Clone, Copy, Debug, PartialEq, Eq)]
pub struct Stance {
    pub locomotion: LocomotionState,
    pub attack: Option<AttackState>,
}

impl LocomotionState {
    /// Whether the state is one of the three held on the ground.
    pub open spec fn on_ground(self) -> bool {
        self is Idle || self is Walking || self is Running
    }

    /// Whether the state is one of the three held in the air.
    pub open spec fn in_air(self) -> bool {
        !self.on_ground()
    }

    /// Whether the state is one of the two entered by jumping.
    pub open spec fn jumped(self) -> bool {
        self is Jumping || self is SprintJumping
    }

    /// The swing that belongs to this locomotion state.
    pub open spec fn attack_variant(self) -> AttackState {
        match self {
            LocomotionState::Idle => AttackState::IdleAttack,
            LocomotionState::Walking => AttackState::WalkingAttack,
            LocomotionState::Running => AttackState::RunningAttack,
            LocomotionState::Jumping => AttackState::JumpingAttack,
            LocomotionState::SprintJumping => AttackState::JumpingAttack,
            LocomotionState::Falling => AttackState::FallingAttack,
        }
    }

    /// Whether the state is one of the three held on the ground.
    pub fn is_on_ground(self) -> (b: bool)
        ensures
            b == self.on_ground(),
    {
        match self {
            LocomotionState::Idle | LocomotionState::Walking | LocomotionState::Running => true,
            _ => false,
        }
    }

    /// Whether the state is one of the two entered by jumping.
    pub fn is_jumped(self) -> (b: bool)
        ensures
            b == self.jumped(),
    {
        match self {
            LocomotionState::Jumping | LocomotionState::SprintJumping => true,
            _ => false,
        }
    }

    /// The swing that belongs to this locomotion state.
    pub fn attack_for(self) -> (a: AttackState)
        ensures
            a == self.attack_variant(),
    {
        match self {
            LocomotionState::Idle => AttackState::IdleAttack,
            LocomotionState::Walking => AttackState::WalkingAttack,
            LocomotionState::Running => AttackState::RunningAttack,
            LocomotionState::Jumping => AttackState::JumpingAttack,
            LocomotionState::SprintJumping => AttackState::JumpingAttack,
            LocomotionState::Falling => AttackState::FallingAttack,
        }
    }
}

impl Stance {
    /// A swing, where there is one, is the one that belongs to the
    /// locomotion state.
    pub open spec fn wf(self) -> bool {
        self.attack matches Some(a) ==> a == self.locomotion.attack_variant()
    }

    /// The tags that stand for this stance.
    pub open spec fn tags_spec(self) -> StateTags {
        StateTags {
            idle: if self.locomotion is Idle { Some(Idle) } else { None },
            walking: if self.locomotion is Walking { Some(Walking) } else { None },
            running: if self.locomotion is Running { Some(Running) } else { None },
            jumping: if self.locomotion is Jumping { Some(Jumping) } else { None },
            sprint_jumping: if self.locomotion is SprintJumping {
                Some(SprintJumping)
            } else {
                None
            },
            falling: if self.locomotion is Falling { Some(Falling) } else { None },
            idle_attack: if self.attack == Some(AttackState::IdleAttack) {
                Some(IdleAttack)
            } else {
                None
            },
            walking_attack: if self.attack == Some(AttackState::WalkingAttack) {
                Some(WalkingAttack)
            } else {
                None
            },
            running_attack: if self.attack == Some(AttackState::RunningAttack) {
                Some(RunningAttack)
            } else {
                None
            },
            jumping_attack: if self.attack == Some(AttackState::JumpingAttack) {
                Some(JumpingAttack)
            } else {
                None
            },
            falling_attack: if self.attack == Some(AttackState::FallingAttack) {
                Some(FallingAttack)
            } else {
                None
            },
        }
    }

    /// An actor at rest.
    pub open spec fn at_rest() -> Stance {
        Stance { locomotion: LocomotionState::Idle, attack: None }
    }

    /// Computes [`Stance::wf`].
    pub fn is_wf(&self) -> (ok: bool)
        ensures
            ok == self.wf(),
    {
        match self.attack {
            Some(attack) => attack == self.locomotion.attack_for(),
            None => true,
        }
    }

    /// An actor at rest.
    pub fn idle() -> (st: Stance)
        ensures
            st == Stance::at_rest(),
            st.wf(),
    {
        Stance { locomotion: LocomotionState::Idle, attack: None }
    }

    /// Whether a swing is under way.
    pub fn is_attacking(&self) -> (b: bool)
        ensures
            b == (self.attack is Some),
    {
        self.attack.is_some()
    }

    /// The tags that stand for this stance: exactly one locomotion tag, and
    /// an attack tag exactly while a swing is under way.
    pub fn tags(&self) -> (t: StateTags)
        ensures
            t == self.tags_spec(),
            t.locomotion_count() == 1,
            t.attack_count() == tag_count(self.attack),
    {
        let mut t = StateTags {
            idle: None,
            walking: None,
            running: None,
            jumping: None,
            sprint_jumping: None,
            falling: None,
            idle_attack: None,
            walking_attack: None,
            running_attack: None,
            jumping_attack: None,
            falling_attack: None,
        };
        match self.locomotion {
            LocomotionState::Idle => {
                t.idle = Some(Idle);
            },
            LocomotionState::Walking => {
                t.walking = Some(Walking);
            },
            LocomotionState::Running => {
                t.running = Some(Running);
            },
            LocomotionState::Jumping => {
                t.jumping = Some(Jumping);
            },
            LocomotionState::SprintJumping => {
                t.sprint_jumping = Some(SprintJumping);
            },
            LocomotionState::Falling => {
                t.falling = Some(Falling);
            },
        }
        match self.attack {
            Some(AttackState::IdleAttack) => {
                t.idle_attack = Some(IdleAttack);
            },
            Some(AttackState::WalkingAttack) => {
                t.walking_attack = Some(WalkingAttack);
            },
            Some(AttackState::RunningAttack) => {
                t.running_attack = Some(RunningAttack);
            },
            Some(AttackState::JumpingAttack) => {
                t.jumping_attack = Some(JumpingAttack);
            },
            Some(AttackState::FallingAttack) => {
                t.falling_attack = Some(FallingAttack);
            },
            None => {},
        }
        t
    }
}

impl StateTags {
    /// The stance that the tags stand for, read in this order: a swing
    /// before the locomotion, and of the locomotion tags the first that is
    /// set of sprint jump, jump, fall, run and walk, with rest as the last
    /// resort. The locomotion under a swing is the one the swing is named
    /// after, a rising swing counting as a plain jump unless the sprint jump
    /// tag is set.
    pub open spec fn stance_spec(self) -> Stance {
        let attack = if self.idle_attack is Some {
            Some(AttackState::IdleAttack)
        } else if self.walking_attack is Some {
            Some(AttackState::WalkingAttack)
        } else if self.running_attack is Some {
            Some(AttackState::RunningAttack)
        } else if self.jumping_attack is Some {
            Some(AttackState::JumpingAttack)
        } else if self.falling_attack is Some {
            Some(AttackState::FallingAttack)
        } else {
            None
        };
        let tagged = if self.sprint_jumping is Some {
            Some(LocomotionState::SprintJumping)
        } else if self.jumping is Some {
            Some(LocomotionState::Jumping)
        } else if self.falling is Some {
            Some(LocomotionState::Falling)
        } else if self.running is Some {
            Some(LocomotionState::Running)
        } else if self.walking is Some {
            Some(LocomotionState::Walking)
        } else if self.idle is Some {
            Some(LocomotionState::Idle)
        } else {
            None
        };
        let locomotion = match (attack, tagged) {
            (Some(a), Some(l)) => if l.attack_variant() == a {
                l
            } else {
                a.locomotion()
            },
            (Some(a), None) => a.locomotion(),
            (None, Some(l)) => l,
            (None, None) => LocomotionState::Idle,
        };
        Stance { locomotion, attack }
    }

    /// Computes [`StateTags::stance_spec`]. The stance is well formed
    /// whatever the tags are.
    pub fn stance(&self) -> (st: Stance)
        ensures
            st == self.stance_spec(),
            st.wf(),
    {
        let attack = if self.idle_attack.is_some() {
            Some(AttackState::IdleAttack)
        } else if self.walking_attack.is_some() {
            Some(AttackState::WalkingAttack)
        } else if self.running_attack.is_some() {
            Some(AttackState::RunningAttack)
        } else if self.jumping_attack.is_some() {
            Some(AttackState::JumpingAttack)
        } else if self.falling_attack.is_some() {
            Some(AttackState::FallingAttack)
        } else {
            None
        };
        let tagged = if self.sprint_jumping.is_some() {
            Some(LocomotionState::SprintJumping)
        } else if self.jumping.is_some() {
            Some(LocomotionState::Jumping)
        } else if self.falling.is_some() {
            Some(LocomotionState::Falling)
        } else if self.running.is_some() {
            Some(LocomotionState::Running)
        } else if self.walking.is_some() {
            Some(LocomotionState::Walking)
        } else if self.idle.is_some() {
            Some(LocomotionState::Idle)
        } else {
            None
        };
        let locomotion = match attack {
            Some(a) => match tagged {
                Some(l) => if l.attack_for() == a {
                    l
                } else {
                    a.locomotion_of()
                },
                None => a.locomotion_of(),
            },
            None => match tagged {
                Some(l) => l,
                None => LocomotionState::Idle,
            },
        };
        Stance { locomotion, attack }
    }
}

impl AttackState {
    /// The locomotion state the swing is named after.
    pub open spec fn locomotion(self) -> LocomotionState {
        match self {
            AttackState::IdleAttack => LocomotionState::Idle,
            AttackState::WalkingAttack => LocomotionState::Walking,
            AttackState::RunningAttack => LocomotionState::Running,
            AttackState::JumpingAttack => LocomotionState::Jumping,
            AttackState::FallingAttack => LocomotionState::Falling,
        }
    }

    /// Computes [`AttackState::locomotion`].
    pub fn locomotion_of(self) -> (l: LocomotionState)
        ensures
            l == self.locomotion(),
            l.attack_variant() == self,
    {
        match self {
            AttackState::IdleAttack => LocomotionState::Idle,
            AttackState::WalkingAttack => LocomotionState::Walking,
            AttackState::RunningAttack => LocomotionState::Running,
            AttackState::JumpingAttack => LocomotionState::Jumping,
            AttackState::FallingAttack => LocomotionState::Falling,
        }
    }
}

/// Tags and stance say the same: the tags of a well-formed stance read back
/// as that stance.
pub proof fn lemma_tags_read_back(st: Stance)
    requires
        st.wf(),
    ensures
        st.tags_spec().stance_spec() == st,
{
    match st.locomotion {
        LocomotionState::Idle => {},
        LocomotionState::Walking => {},
        LocomotionState::Running => {},
        LocomotionState::Jumping => {},
        LocomotionState::SprintJumping => {},
        LocomotionState::Falling => {},
    }
}

/// Every stance carries exactly one locomotion tag and at most one attack
/// tag, and the attack tag is there exactly while a swing is under way.
pub proof fn lemma_exactly_one_locomotion_tag(st: Stance)
    ensures
        st.tags_spec().locomotion_count() == 1,
        st.tags_spec().attack_count() <= 1,
        st.tags_spec().attacking() <==> st.attack is Some,
{
    if let Some(a) = st.attack {
        match a {
            AttackState::IdleAttack => {},
            AttackState::WalkingAttack => {},
            AttackState::RunningAttack => {},
            AttackState::JumpingAttack => {},
            AttackState::FallingAttack => {},
        }
    }
}

// ───────── Signals ─────────
/// What the machine reads each tick: the resolved input and the physical
/// state of the body.
#[derive(Clone, Copy, Debug, PartialEq, Eq)]
pub struct Signals {
    /// Horizontal input, per mille, from -1000 (left) to 1000 (right).
    pub axis: i32,
    /// Whether sprint is held.
    pub sprint: bool,
    /// Whether jump went down this tick.
    pub jump_pressed: bool,
    /// Whether attack went down this tick.
    pub attack_pressed: bool,
    /// Whether the body touches anything.
    pub grounded: bool,
    /// Horizontal speed.
    pub vx: i32,
    /// Vertical speed, upwards positive.
    pub vy: i32,
}

/// Thresholds of the locomotion rules. They keep the state from flickering
/// and can be tuned freely.
#[derive(Clone, Copy, Debug, PartialEq, Eq)]
pub struct Tuning {
    /// Input magnitude from which the actor walks or runs.
    pub move_axis: i32,
    /// Input magnitude below which the actor may come to rest.
    pub stop_axis: i32,
    /// Horizontal speed below which the actor may come to rest.
    pub stop_speed: i32,
    /// Upward speed up to which touching the ground counts as landing.
    pub ascend_tolerance: i32,
}

impl Tuning {
    /// The thresholds the game ships with.
    pub open spec fn standard_spec() -> Tuning {
        Tuning { move_axis: 500, stop_axis: 100, stop_speed: 8000, ascend_tolerance: 10_000 }
    }

    /// The thresholds the game ships with.
    pub fn standard() -> (t: Tuning)
        ensures
            t == Tuning::standard_spec(),
    {
        Tuning { move_axis: 500, stop_axis: 100, stop_speed: 8000, ascend_tolerance: 10_000 }
    }
}

impl Signals {
    /// The same physical state with every input released.
    pub open spec fn released(self) -> Signals {
        Signals { axis: 0, sprint: false, jump_pressed: false, attack_pressed: false, ..self }
    }

    /// Input strong enough to move, without sprint.
    pub open spec fn walking(self, t: Tuning) -> bool {
        abs_int(self.axis as int) >= t.move_axis && !self.sprint
    }

    /// Input strong enough to move, with sprint.
    pub open spec fn sprinting(self, t: Tuning) -> bool {
        abs_int(self.axis as int) >= t.move_axis && self.sprint
    }

    /// Input and horizontal speed are both below their thresholds.
    pub open spec fn stopped_moving(self, t: Tuning) -> bool {
        abs_int(self.axis as int) < t.stop_axis && abs_int(self.vx as int) < t.stop_speed
    }

    /// The body touches nothing.
    pub open spec fn step_off(self) -> bool {
        !self.grounded
    }

    /// The body touches something and is not rising faster than tolerated.
    pub open spec fn landed(self, t: Tuning) -> bool {
        self.grounded && self.vy <= t.ascend_tolerance
    }

    /// The body is airborne and no longer rising.
    pub open spec fn apex(self) -> bool {
        !self.grounded && self.vy <= 0
    }

    /// The ground state that the input asks for.
    pub open spec fn ground_state(self, t: Tuning) -> LocomotionState {
        if self.sprinting(t) {
            LocomotionState::Running
        } else if self.walking(t) {
            LocomotionState::Walking
        } else {
            LocomotionState::Idle
        }
    }

    /// The state a jump leads to: a sprint jump exactly when sprint is held
    /// and the input is strong enough to move.
    pub open spec fn jump_state(self, t: Tuning) -> LocomotionState {
        if self.sprinting(t) {
            LocomotionState::SprintJumping
        } else {
            LocomotionState::Jumping
        }
    }

    /// The same physical state with every input released.
    pub fn release(&self) -> (s: Signals)
        ensures
            s == self.released(),
    {
        Signals {
            axis: 0,
            sprint: false,
            jump_pressed: false,
            attack_pressed: false,
            grounded: self.grounded,
            vx: self.vx,
            vy: self.vy,
        }
    }

    /// Input strong enough to move, without sprint.
    pub fn is_walking(&self, t: &Tuning) -> (b: bool)
        ensures
            b == self.walking(*t),
    {
        magnitude(self.axis) >= t.move_axis as i64 && !self.sprint
    }

    /// Input strong enough to move, with sprint.
    pub fn is_sprinting(&self, t: &Tuning) -> (b: bool)
        ensures
            b == self.sprinting(*t),
    {
        magnitude(self.axis) >= t.move_axis as i64 && self.sprint
    }

    /// Input and horizontal speed are both below their thresholds.
    pub fn has_stopped_moving(&self, t: &Tuning) -> (b: bool)
        ensures
            b == self.stopped_moving(*t),
    {
        magnitude(self.axis) < t.stop_axis as i64 && magnitude(self.vx) < t.stop_speed as i64
    }

    /// The body touches nothing.
    pub fn has_stepped_off(&self) -> (b: bool)
        ensures
            b == self.step_off(),
    {
        !self.grounded
    }

    /// The body touches something and is not rising faster than tolerated.
    pub fn has_landed(&self, t: &Tuning) -> (b: bool)
        ensures
            b == self.landed(*t),
    {
        self.grounded && self.vy <= t.ascend_tolerance
    }

    /// The body is airborne and no longer rising.
    pub fn at_apex(&self) -> (b: bool)
        ensures
            b == self.apex(),
    {
        !self.grounded && self.vy <= 0
    }

    /// The ground state that the input asks for.
    pub fn ground_state_for(&self, t: &Tuning) -> (l: LocomotionState)
        ensures
            l == self.ground_state(*t),
    {
        if self.is_sprinting(t) {
            LocomotionState::Running
        } else if self.is_walking(t) {
            LocomotionState::Walking
        } else {
            LocomotionState::Idle
        }
    }

    /// The state a jump leads to.
    pub fn jump_state_for(&self, t: &Tuning) -> (l: LocomotionState)
        ensures
            l == self.jump_state(*t),
    {
        if self.is_sprinting(t) {
            LocomotionState::SprintJumping
        } else {
            LocomotionState::Jumping
        }
    }
}

// ───────── Machine ─────────
impl LocomotionState {
    /// The locomotion state after one tick, jumps and swings aside. Each
    /// state tries its rules in the order given and takes the first that
    /// applies.
    pub open spec fn stepped(self, s: Signals, t: Tuning) -> LocomotionState {
        match self {
            LocomotionState::Idle => {
                if s.sprinting(t) {
                    LocomotionState::Running
                } else if s.walking(t) {
                    LocomotionState::Walking
                } else if s.step_off() {
                    LocomotionState::Falling
                } else {
                    self
                }
            },
            LocomotionState::Walking => {
                if s.sprinting(t) {
                    LocomotionState::Running
                } else if s.stopped_moving(t) {
                    LocomotionState::Idle
                } else if s.step_off() {
                    LocomotionState::Falling
                } else {
                    self
                }
            },
            LocomotionState::Running => {
                if s.walking(t) {
                    LocomotionState::Walking
                } else if s.stopped_moving(t) {
                    LocomotionState::Idle
                } else if s.step_off() {
                    LocomotionState::Falling
                } else {
                    self
                }
            },
            LocomotionState::Jumping | LocomotionState::SprintJumping => {
                if s.apex() {
                    LocomotionState::Falling
                } else if s.landed(t) {
                    s.ground_state(t)
                } else {
                    self
                }
            },
            LocomotionState::Falling => {
                if s.landed(t) {
                    s.ground_state(t)
                } else {
                    self
                }
            },
        }
    }

    /// Computes [`LocomotionState::stepped`].
    pub fn step(self, s: &Signals, t: &Tuning) -> (next: LocomotionState)
        ensures
            next == self.stepped(*s, *t),
    {
        match self {
            LocomotionState::Idle => {
                if s.is_sprinting(t) {
                    LocomotionState::Running
                } else if s.is_walking(t) {
                    LocomotionState::Walking
                } else if s.has_stepped_off() {
                    LocomotionState::Falling
                } else {
                    self
                }
            },
            LocomotionState::Walking => {
                if s.is_sprinting(t) {
                    LocomotionState::Running
                } else if s.has_stopped_moving(t) {
                    LocomotionState::Idle
                } else if s.has_stepped_off() {
                    LocomotionState::Falling
                } else {
                    self
                }
            },
            LocomotionState::Running => {
                if s.is_walking(t) {
                    LocomotionState::Walking
                } else if s.has_stopped_moving(t) {
                    LocomotionState::Idle
                } else if s.has_stepped_off() {
                    LocomotionState::Falling
                } else {
                    self
                }
            },
            LocomotionState::Jumping | LocomotionState::SprintJumping => {
                if s.at_apex() {
                    LocomotionState::Falling
                } else if s.has_landed(t) {
                    s.ground_state_for(t)
                } else {
                    self
                }
            },
            LocomotionState::Falling => {
                if s.has_landed(t) {
                    s.ground_state_for(t)
                } else {
                    self
                }
            },
        }
    }
}

/// How a swing came to its end.
#[derive(Clone, Copy, Debug, PartialEq, Eq, Structural)]
pub enum SwingEnd {
    /// Its timer ran out.
    Completed,
    /// Something cut it short.
    Cancelled,
}

impl Stance {
    /// The stance after one tick.
    ///
    /// `ready` says that a swing may begin, `done` that the running swing's
    /// timer has run out, `can_act` that the actor is neither stunned nor
    /// dead. An actor that cannot act is moved by the locomotion rules as if
    /// every input were released. At most one rule applies per tick, in this
    /// order: a finished swing ends; a swing of an actor that cannot act is
    /// cut short; a jump from the ground; a new swing; the locomotion rules.
    /// A swing follows the locomotion over ground states and is cut short
    /// when the actor enters a jump or starts to fall.
    pub open spec fn next(self, s: Signals, t: Tuning, ready: bool, done: bool, can_act: bool)
        -> Stance {
        let s = if can_act {
            s
        } else {
            s.released()
        };
        if self.attack is Some && done {
            Stance { locomotion: self.locomotion, attack: None }
        } else if self.attack is Some && !can_act {
            Stance { locomotion: self.locomotion.stepped(s, t), attack: None }
        } else if self.locomotion.on_ground() && s.jump_pressed {
            Stance { locomotion: s.jump_state(t), attack: None }
        } else if self.attack is None && s.attack_pressed && ready {
            Stance { locomotion: self.locomotion, attack: Some(self.locomotion.attack_variant()) }
        } else {
            let moved = self.locomotion.stepped(s, t);
            if self.attack is None || (moved != self.locomotion && moved.in_air()) {
                Stance { locomotion: moved, attack: None }
            } else {
                Stance { locomotion: moved, attack: Some(moved.attack_variant()) }
            }
        }
    }

    /// How the swing of `self` ended on the way to `after`, if it did.
    pub open spec fn swing_end(self, after: Stance, done: bool) -> Option<SwingEnd> {
        if self.attack is Some && after.attack is None {
            if done {
                Some(SwingEnd::Completed)
            } else {
                Some(SwingEnd::Cancelled)
            }
        } else {
            None
        }
    }

    /// Whether the step from `self` to `after` began a swing or changed its
    /// variant, so that its timer starts anew.
    pub open spec fn swing_entered(self, after: Stance) -> bool {
        after.attack is Some && after.attack != self.attack
    }

    /// Whether the step from `self` to `after` entered a jump.
    pub open spec fn jump_entered(self, after: Stance) -> bool {
        after.locomotion.jumped() && !self.locomotion.jumped()
    }

    /// Computes [`Stance::next`].
    pub fn advance(
        &self,
        signals: &Signals,
        t: &Tuning,
        ready: bool,
        done: bool,
        can_act: bool,
    ) -> (after: Stance)
        requires
            self.wf(),
        ensures
            after == self.next(*signals, *t, ready, done, can_act),
            after.wf(),
    {
        let s = if can_act {
            *signals
        } else {
            signals.release()
        };
        if self.attack.is_some() && done {
            Stance { locomotion: self.locomotion, attack: None }
        } else if self.attack.is_some() && !can_act {
            Stance { locomotion: self.locomotion.step(&s, t), attack: None }
        } else if self.locomotion.is_on_ground() && s.jump_pressed {
            Stance { locomotion: s.jump_state_for(t), attack: None }
        } else if self.attack.is_none() && s.attack_pressed && ready {
            Stance { locomotion: self.locomotion, attack: Some(self.locomotion.attack_for()) }
        } else {
            let moved = self.locomotion.step(&s, t);
            if self.attack.is_none() || (moved != self.locomotion && !moved.is_on_ground()) {
                Stance { locomotion: moved, attack: None }
            } else {
                Stance { locomotion: moved, attack: Some(moved.attack_for()) }
            }
        }
    }
}

/// A swing begins only when attack is pressed by an actor that can act and
/// is ready; otherwise an actor that is not swinging stays so.
pub proof fn lemma_swing_refused_unless_ready(
    st: Stance,
    s: Signals,
    t: Tuning,
    ready: bool,
    done: bool,
    can_act: bool,
)
    requires
        (st.attack is None),
        !ready || !can_act || !s.attack_pressed,
    ensures
        (st.next(s, t, ready, done, can_act).attack is None),
{
}

/// The locomotion rules respect the ground: a fall begins only in the air,
/// a ground state is entered from the air only by landing, and no rule but
/// a jump leads into a jump.
pub proof fn lemma_locomotion_respects_ground(l: LocomotionState, s: Signals, t: Tuning)
    ensures
        l.stepped(s, t) is Falling && !(l is Falling) ==> !s.grounded,
        l.in_air() && l.stepped(s, t).on_ground() ==> s.landed(t) && l.stepped(s, t)
            == s.ground_state(t),
        l.stepped(s, t).jumped() ==> l.stepped(s, t) == l,
{
}

/// A jump is entered exactly by pressing jump on the ground while able to
/// act, unless a finished swing ends on that tick.
pub proof fn lemma_jump_needs_a_press(
    st: Stance,
    s: Signals,
    t: Tuning,
    ready: bool,
    done: bool,
    can_act: bool,
)
    ensures
        st.jump_entered(st.next(s, t, ready, done, can_act)) <==> st.locomotion.on_ground()
            && can_act && s.jump_pressed && !((st.attack is Some) && done),
{
}

/// A swing that goes on keeps to its locomotion: the stance stays well
/// formed, and the swing is cut short exactly when the actor cannot act or
/// a jump or a fall is entered.
pub proof fn lemma_swing_follows_locomotion(
    st: Stance,
    s: Signals,
    t: Tuning,
    ready: bool,
    can_act: bool,
)
    requires
        st.wf(),
        (st.attack is Some),
    ensures
        st.next(s, t, ready, false, can_act).wf(),
        (st.next(s, t, ready, false, can_act).attack is None) <==> !can_act || (st.next(
            s,
            t,
            ready,
            false,
            can_act,
        ).locomotion.in_air() && st.next(s, t, ready, false, can_act).locomotion
            != st.locomotion),
{
}

/// A stun or a death cuts a swing short: an actor that cannot act is not
/// swinging after the tick, and unless the swing's timer had run out the
/// swing counts as cancelled.
pub proof fn lemma_disabled_actor_stops_swinging(
    st: Stance,
    s: Signals,
    t: Tuning,
    ready: bool,
    done: bool,
)
    ensures
        (st.next(s, t, ready, done, false).attack is None),
        (st.attack is Some) && !done ==> st.swing_end(st.next(s, t, ready, done, false), done)
            == Some(SwingEnd::Cancelled),
{
}

/// An actor at rest on the ground with no input stays at rest.
pub proof fn lemma_rest_is_stable(s: Signals, t: Tuning, ready: bool, done: bool, can_act: bool)
    requires
        s.grounded,
        s.axis == 0,
        !s.jump_pressed,
        !s.attack_pressed,
        t.move_axis > 0,
    ensures
        Stance::at_rest().next(s, t, ready, done, can_act) == Stance::at_rest(),
{
}

// ───────── Tuning ─────────
/// Ground speed at full input, in whole units per second.
pub const PLAYER_SPEED: i32 = 160;

/// Sprint speed over walking speed, per mille.
pub const SPRINT_MULTIPLIER: i32 = 1750;

/// Vertical speed that a jump sets.
pub const JUMP_VELOCITY: i32 = 520_000;

/// Time after a completed swing before the next may begin.
pub const ATTACK_COOLDOWN_NS: u64 = 150_000_000;

/// Length of a swing whose clip length is unknown.
pub const DEFAULT_SWING_NS: u64 = 500_000_000;

/// Horizontal acceleration on the ground, in whole units per second squared.
pub const GROUND_ACCEL: u32 = 3600;

/// Horizontal acceleration in the air, in whole units per second squared.
pub const AIR_ACCEL: u32 = 1800;

// ───────── Attacks ─────────
/// How long each kind of swing lasts, in nanoseconds.
#[derive(Clone, Copy, Debug, PartialEq, Eq)]
pub struct AttackDurations {
    pub idle: u64,
    pub walk: u64,
    pub run: u64,
    pub jump: u64,
    pub fall: u64,
}

impl AttackDurations {
    /// The length of the given kind of swing.
    pub open spec fn of(self, attack: AttackState) -> u64 {
        match attack {
            AttackState::IdleAttack => self.idle,
            AttackState::WalkingAttack => self.walk,
            AttackState::RunningAttack => self.run,
            AttackState::JumpingAttack => self.jump,
            AttackState::FallingAttack => self.fall,
        }
    }

    /// Every swing lasting `nanos`.
    pub open spec fn uniform_spec(nanos: u64) -> AttackDurations {
        AttackDurations { idle: nanos, walk: nanos, run: nanos, jump: nanos, fall: nanos }
    }

    /// The lengths with each missing one taken from its stand-in: idle
    /// from `fallback`, walk from idle, run from walk, jump from idle, fall
    /// from jump.
    pub open spec fn resolved(
        idle: Option<u64>,
        walk: Option<u64>,
        run: Option<u64>,
        jump: Option<u64>,
        fall: Option<u64>,
        fallback: u64,
    ) -> AttackDurations {
        let idle = idle.unwrap_or(fallback);
        let walk = walk.unwrap_or(idle);
        let run = run.unwrap_or(walk);
        let jump = jump.unwrap_or(idle);
        let fall = fall.unwrap_or(jump);
        AttackDurations { idle, walk, run, jump, fall }
    }

    /// The length of the given kind of swing.
    pub fn duration_of(&self, attack: AttackState) -> (nanos: u64)
        ensures
            nanos == self.of(attack),
    {
        match attack {
            AttackState::IdleAttack => self.idle,
            AttackState::WalkingAttack => self.walk,
            AttackState::RunningAttack => self.run,
            AttackState::JumpingAttack => self.jump,
            AttackState::FallingAttack => self.fall,
        }
    }

    /// Every swing lasting `nanos`.
    pub fn uniform(nanos: u64) -> (d: AttackDurations)
        ensures
            d == AttackDurations::uniform_spec(nanos),
    {
        AttackDurations { idle: nanos, walk: nanos, run: nanos, jump: nanos, fall: nanos }
    }

    /// Fills in the lengths that are missing, see
    /// [`AttackDurations::resolved`].
    pub fn resolve(
        idle: Option<u64>,
        walk: Option<u64>,
        run: Option<u64>,
        jump: Option<u64>,
        fall: Option<u64>,
        fallback: u64,
    ) -> (d: AttackDurations)
        ensures
            d == AttackDurations::resolved(idle, walk, run, jump, fall, fallback),
    {
        let idle: u64 = match idle {
            Some(n) => n,
            None => fallback,
        };
        let walk: u64 = match walk {
            Some(n) => n,
            None => idle,
        };
        let run: u64 = match run {
            Some(n) => n,
            None => walk,
        };
        let jump: u64 = match jump {
            Some(n) => n,
            None => idle,
        };
        let fall: u64 = match fall {
            Some(n) => n,
            None => jump,
        };
        AttackDurations { idle, walk, run, jump, fall }
    }
}

/// The player's machine: stance, swing timer and cooldown.
#[derive(Clone, Copy, Debug, PartialEq, Eq)]
pub struct Player {
    pub stance: Stance,
    /// Runs while a swing is under way.
    pub attack_timer: Option<Timer>,
    /// Must have finished before a swing may begin.
    pub attack_cooldown: Timer,
    /// Set when the swing's timer has run out and the machine has not yet
    /// left the swing.
    pub attack_done: bool,
    pub durations: AttackDurations,
}

/// What one tick did to the player.
#[derive(Clone, Copy, Debug, PartialEq, Eq)]
pub struct TickReport {
    /// A swing began or changed its variant; its timer started anew.
    pub swing_started: bool,
    /// A swing ended, and how.
    pub swing_end: Option<SwingEnd>,
    /// The vertical speed to set, on the tick a jump is entered.
    pub jump_impulse: Option<i32>,
}

impl Player {
    /// Between ticks: the stance is well formed, a swing timer runs exactly
    /// while a swing is under way and has not run out, and both timers are
    /// one-shot.
    pub open spec fn wf(self) -> bool {
        &&& self.stance.wf()
        &&& self.stance.attack is Some <==> self.attack_timer is Some
        &&& !self.attack_done
        &&& self.attack_cooldown.mode == TimerMode::Once
        &&& self.attack_timer matches Some(timer) ==> timer.mode == TimerMode::Once
            && !timer.finished
    }

    /// The player as spawned: at rest, with a cooldown of no length that has
    /// yet to be ticked.
    pub open spec fn spawned(durations: AttackDurations) -> Player {
        Player {
            stance: Stance::at_rest(),
            attack_timer: None,
            attack_cooldown: Timer::fresh(0, TimerMode::Once),
            attack_done: false,
            durations,
        }
    }

    /// Whether a swing may begin: the cooldown has finished and no swing
    /// timer is running.
    pub open spec fn ready(self) -> bool {
        self.attack_cooldown.finished && self.attack_timer is None
    }

    /// Both timers advanced by `dt`.
    pub open spec fn timers_ticked(self, dt: u64) -> Player {
        Player {
            attack_cooldown: self.attack_cooldown.ticked(dt),
            attack_timer: match self.attack_timer {
                Some(timer) => Some(timer.ticked(dt)),
                None => None,
            },
            ..self
        }
    }

    /// Whether the swing timer is there and has run out.
    pub open spec fn swing_timer_done(self) -> bool {
        self.attack_timer matches Some(timer) && timer.finished
    }

    /// The cooldown restarted with the given length.
    pub open spec fn cooldown_restarted(self, nanos: u64) -> Timer {
        Timer { duration: nanos, ..self.attack_cooldown }.reset_spec()
    }

    /// A swing whose timer has run out is marked done: the timer goes and
    /// the cooldown restarts with [`ATTACK_COOLDOWN_NS`].
    pub open spec fn finished_when_done(self) -> Player {
        if self.swing_timer_done() {
            Player {
                attack_timer: None,
                attack_done: true,
                attack_cooldown: self.cooldown_restarted(ATTACK_COOLDOWN_NS),
                ..self
            }
        } else {
            self
        }
    }

    /// The stance moved on by one tick.
    pub open spec fn transitioned(self, s: Signals, t: Tuning, can_act: bool) -> Player {
        Player { stance: self.stance.next(s, t, self.ready(), self.attack_done, can_act), ..self }
    }

    /// The timers brought in line with the stance that was just entered
    /// from `before`: a swing that began or changed variant gets a fresh
    /// timer of its own length and the cooldown is set to no length; a swing
    /// that is over loses its timer.
    pub open spec fn entered(self, before: Stance) -> Player {
        if before.swing_entered(self.stance) {
            Player {
                attack_timer: Some(
                    Timer::fresh(self.durations.of(self.stance.attack.unwrap()), TimerMode::Once),
                ),
                attack_cooldown: self.cooldown_restarted(0),
                attack_done: false,
                ..self
            }
        } else if self.stance.attack is None {
            Player { attack_timer: None, attack_done: false, ..self }
        } else {
            self
        }
    }

    /// The swing cut short: no swing, no timer, and the cooldown untouched.
    pub open spec fn cancelled(self) -> Player {
        Player {
            stance: Stance { locomotion: self.stance.locomotion, attack: None },
            attack_timer: None,
            attack_done: false,
            ..self
        }
    }

    /// The player after one tick of `dt` nanoseconds: timers advance, a
    /// swing whose timer ran out is marked done, the stance moves on, and
    /// the timers follow the new stance.
    pub open spec fn updated(self, s: Signals, dt: u64, t: Tuning, can_act: bool) -> Player {
        let ticked = self.timers_ticked(dt).finished_when_done();
        ticked.transitioned(s, t, can_act).entered(ticked.stance)
    }

    /// What the tick from `self` reports.
    pub open spec fn report(self, s: Signals, dt: u64, t: Tuning, can_act: bool) -> TickReport {
        let ticked = self.timers_ticked(dt).finished_when_done();
        let after = ticked.transitioned(s, t, can_act).stance;
        TickReport {
            swing_started: ticked.stance.swing_entered(after),
            swing_end: ticked.stance.swing_end(after, ticked.attack_done),
            jump_impulse: if ticked.stance.jump_entered(after) {
                Some(JUMP_VELOCITY)
            } else {
                None
            },
        }
    }

    /// Computes [`Player::wf`].
    pub fn is_wf(&self) -> (ok: bool)
        ensures
            ok == self.wf(),
    {
        let timer_ok = match self.attack_timer {
            Some(timer) => timer.mode == TimerMode::Once && !timer.finished,
            None => true,
        };
        self.stance.is_wf() && self.stance.attack.is_some() == self.attack_timer.is_some()
            && !self.attack_done && self.attack_cooldown.mode == TimerMode::Once && timer_ok
    }

    /// The player as spawned.
    pub fn new(durations: AttackDurations) -> (p: Player)
        ensures
            p == Player::spawned(durations),
            p.wf(),
    {
        Player {
            stance: Stance::idle(),
            attack_timer: None,
            attack_cooldown: Timer::once(0),
            attack_done: false,
            durations,
        }
    }

    /// Advances the cooldown and the swing timer by `dt` nanoseconds.
    pub fn tick_attack_timers(&mut self, dt: u64)
        ensures
            *final(self) == old(self).timers_ticked(dt),
    {
        self.attack_cooldown.tick(dt);
        match self.attack_timer {
            Some(timer) => {
                let mut timer = timer;
                timer.tick(dt);
                self.attack_timer = Some(timer);
            },
            None => {},
        }
    }

    /// Ends the swing whose timer has run out: removes the timer, restarts
    /// the cooldown with [`ATTACK_COOLDOWN_NS`] and marks the swing done.
    /// Returns whether it did.
    pub fn finish_attack_when_timer_done(&mut self) -> (done: bool)
        ensures
            *final(self) == old(self).finished_when_done(),
            done == old(self).swing_timer_done(),
    {
        let done = match self.attack_timer {
            Some(timer) => timer.finished(),
            None => false,
        };
        if done {
            self.attack_cooldown.set_duration(ATTACK_COOLDOWN_NS);
            self.attack_cooldown.reset();
            self.attack_done = true;
            self.attack_timer = None;
        }
        done
    }

    /// Brings the timers in line with the stance just entered from
    /// `before`, see [`Player::entered`].
    pub fn on_enter_attack_start_timer(&mut self, before: &Stance)
        ensures
            *final(self) == old(self).entered(*before),
    {
        let entered = match self.stance.attack {
            Some(now) => match before.attack {
                Some(then) => now != then,
                None => true,
            },
            None => false,
        };
        if entered {
            let length: u64 = match self.stance.attack {
                Some(now) => self.durations.duration_of(now),
                None => 0,
            };
            self.attack_timer = Some(Timer::once(length));
            self.attack_cooldown.reset();
            self.attack_cooldown.set_duration(0);
            self.attack_done = false;
        } else if self.stance.attack.is_none() {
            self.clear_attack_done();
            self.attack_timer = None;
        }
    }

    /// Forgets that a swing was done once the machine has left the swing.
    pub fn clear_attack_done(&mut self)
        ensures
            *final(self) == (Player {
                attack_done: old(self).attack_done && old(self).stance.attack is Some,
                ..*old(self)
            }),
    {
        if self.stance.attack.is_none() {
            self.attack_done = false;
        }
    }

    /// Cuts the swing short, as a stun or a death does: the swing and its
    /// timer go and the cooldown is left as it is.
    pub fn cancel_attack(&mut self)
        ensures
            *final(self) == old(self).cancelled(),
            old(self).wf() ==> final(self).wf(),
    {
        self.stance.attack = None;
        self.attack_timer = None;
        self.attack_done = false;
    }

    /// Runs one tick of `dt` nanoseconds.
    pub fn update(&mut self, signals: &Signals, dt: u64, t: &Tuning, can_act: bool) -> (report:
        TickReport)
        requires
            old(self).wf(),
        ensures
            *final(self) == old(self).updated(*signals, dt, *t, can_act),
            report == old(self).report(*signals, dt, *t, can_act),
            final(self).wf(),
    {
        self.tick_attack_timers(dt);
        self.finish_attack_when_timer_done();
        let before = self.stance;
        let done = self.attack_done;
        let ready = self.attack_cooldown.finished() && self.attack_timer.is_none();
        let after = before.advance(signals, t, ready, done, can_act);
        self.stance = after;
        self.on_enter_attack_start_timer(&before);
        let swing_started = match after.attack {
            Some(now) => match before.attack {
                Some(then) => now != then,
                None => true,
            },
            None => false,
        };
        let swing_end = if before.attack.is_some() && after.attack.is_none() {
            if done {
                Some(SwingEnd::Completed)
            } else {
                Some(SwingEnd::Cancelled)
            }
        } else {
            None
        };
        let jump_impulse = if after.locomotion.is_jumped() && !before.locomotion.is_jumped() {
            Some(JUMP_VELOCITY)
        } else {
            None
        };
        TickReport { swing_started, swing_end, jump_impulse }
    }
}

/// A tick keeps the player well formed: at most one swing timer, there
/// exactly while a swing is under way.
pub proof fn lemma_update_keeps_wf(p: Player, s: Signals, dt: u64, t: Tuning, can_act: bool)
    requires
        p.wf(),
    ensures
        p.updated(s, dt, t, can_act).wf(),
{
}

/// A swing is refused while the cooldown has not finished: a player that is
/// not swinging stays so, gets no swing timer, and the cooldown just runs
/// on.
pub proof fn lemma_no_swing_while_cooling(
    p: Player,
    s: Signals,
    dt: u64,
    t: Tuning,
    can_act: bool,
)
    requires
        p.wf(),
        (p.stance.attack is None),
        !p.attack_cooldown.ticked(dt).finished,
    ensures
        (p.updated(s, dt, t, can_act).stance.attack is None),
        (p.updated(s, dt, t, can_act).attack_timer is None),
        p.updated(s, dt, t, can_act).attack_cooldown == p.attack_cooldown.ticked(dt),
        !p.report(s, dt, t, can_act).swing_started,
{
}

/// A swing is refused while a swing timer runs: the tick begins no second
/// swing, it only carries the running one on, changes its variant, or ends
/// it.
pub proof fn lemma_no_second_swing(p: Player, s: Signals, dt: u64, t: Tuning, can_act: bool)
    requires
        p.wf(),
        (p.stance.attack is Some),
    ensures
        ({
            let q = p.updated(s, dt, t, can_act);
            let r = p.report(s, dt, t, can_act);
            &&& r.swing_started ==> q.stance.attack != p.stance.attack
                && q.stance.locomotion != p.stance.locomotion
            &&& (q.stance.attack is Some) ==> (r.swing_end is None)
        }),
{
}

/// A swing ends in exactly one of two ways. Completed: its timer ran out
/// and the cooldown restarts at [`ATTACK_COOLDOWN_NS`]. Cancelled: the timer
/// had not run out and the cooldown is not restarted, it just runs on.
pub proof fn lemma_swing_ends_one_way(p: Player, s: Signals, dt: u64, t: Tuning, can_act: bool)
    requires
        p.wf(),
        (p.stance.attack is Some),
        (p.updated(s, dt, t, can_act).stance.attack is None),
    ensures
        ({
            let q = p.updated(s, dt, t, can_act);
            let r = p.report(s, dt, t, can_act);
            let ran_out = p.timers_ticked(dt).swing_timer_done();
            &&& (q.attack_timer is None)
            &&& ran_out ==> r.swing_end == Some(SwingEnd::Completed) && q.attack_cooldown
                == Timer::fresh(ATTACK_COOLDOWN_NS, TimerMode::Once)
            &&& !ran_out ==> r.swing_end == Some(SwingEnd::Cancelled) && q.attack_cooldown
                == p.attack_cooldown.ticked(dt)
        }),
{
}

/// A swing whose timer runs out always completes on that tick, whatever the
/// input: it cannot be cancelled any more.
pub proof fn lemma_finished_swing_completes(
    p: Player,
    s: Signals,
    dt: u64,
    t: Tuning,
    can_act: bool,
)
    requires
        p.wf(),
        p.timers_ticked(dt).swing_timer_done(),
    ensures
        p.report(s, dt, t, can_act).swing_end == Some(SwingEnd::Completed),
        (p.updated(s, dt, t, can_act).stance.attack is None),
        p.updated(s, dt, t, can_act).stance.locomotion == p.stance.locomotion,
{
}

// ───────── Motion ─────────
/// The horizontal speed the input asks for.
///
/// The input is limited to one full deflection either way. Sprint speed
/// applies in a sprint jump, in a fall that is already faster than the input
/// alone would make it, and on the ground while sprint is held.
pub open spec fn target_speed(axis: i32, sprint: bool, locomotion: LocomotionState, vx: i32)
    -> int {
    let axis = clamp_int(axis as int, -1000, 1000);
    let base = abs_int(axis) * PLAYER_SPEED;
    let boosted = locomotion is SprintJumping || (locomotion is Falling && abs_int(vx as int)
        > base) || (locomotion.on_ground() && sprint);
    if boosted {
        axis * PLAYER_SPEED * SPRINT_MULTIPLIER / 1000
    } else {
        axis * PLAYER_SPEED
    }
}

/// The acceleration that applies in the given locomotion state.
pub open spec fn accel_for(locomotion: LocomotionState) -> u32 {
    if locomotion.in_air() {
        AIR_ACCEL
    } else {
        GROUND_ACCEL
    }
}

/// The horizontal speed after `dt` nanoseconds: the old speed moved towards
/// the target speed by no more than the acceleration allows.
pub open spec fn driven_speed(
    axis: i32,
    sprint: bool,
    locomotion: LocomotionState,
    vx: i32,
    dt: u64,
) -> int {
    approach_int(
        vx as int,
        target_speed(axis, sprint, locomotion, vx),
        speed_step(accel_for(locomotion), dt),
    )
}

/// Computes [`driven_speed`].
pub fn drive_motion_set_velocity(
    axis: i32,
    sprint: bool,
    locomotion: LocomotionState,
    vx: i32,
    dt: u64,
) -> (next: i32)
    ensures
        next == driven_speed(axis, sprint, locomotion, vx, dt),
{
    let axis: i64 = if axis < -1000 {
        -1000
    } else if axis > 1000 {
        1000
    } else {
        axis as i64
    };
    let speed: i64 = PLAYER_SPEED as i64;
    let base: i64 = if axis < 0 {
        (0 - axis) * speed
    } else {
        axis * speed
    };
    let on_ground = locomotion.is_on_ground();
    let boosted = match locomotion {
        LocomotionState::SprintJumping => true,
        LocomotionState::Falling => magnitude(vx) > base,
        _ => on_ground && sprint,
    };
    let target: i64 = if boosted {
        axis * 280
    } else {
        axis * speed
    };
    let accel: u32 = if on_ground {
        GROUND_ACCEL
    } else {
        AIR_ACCEL
    };
    let step = max_speed_step(accel, dt);
    approach(vx, target as i32, step)
}

/// Which way the actor looks after this tick's input: `true` is left. Input
/// within a tenth of full deflection leaves the facing as it is.
pub open spec fn faced(axis: i32, flip_x: bool) -> bool {
    if axis > 100 {
        false
    } else if axis < -100 {
        true
    } else {
        flip_x
    }
}

/// Computes [`faced`].
pub fn face_by_input(axis: i32, flip_x: bool) -> (flip: bool)
    ensures
        flip == faced(axis, flip_x),
{
    if axis > 100 {
        false
    } else if axis < -100 {
        true
    } else {
        flip_x
    }
}

/// The vertical speed after the tick: the jump speed on the tick a jump is
/// entered, the old speed otherwise.
pub fn on_added_jumping_set_impulse(before: &Stance, after: &Stance, vy: i32) -> (next: i32)
    ensures
        next == (if before.jump_entered(*after) {
            JUMP_VELOCITY
        } else {
            vy
        }),
{
    if after.locomotion.is_jumped() && !before.locomotion.is_jumped() {
        JUMP_VELOCITY
    } else {
        vy
    }
}

// ───────── Melee tag ─────────
/// What to do with the tag that marks an actor's melee ray as live.
#[derive(Clone, Copy, Debug, PartialEq, Eq, Structural)]
pub enum MeleeTagChange {
    Insert,
    Remove,
    Keep,
}

/// Keeps the melee tag in step with the stance: set exactly while a swing is
/// under way.
pub fn bridge_attack_states_to_melee_tag(stance: &Stance, tagged: bool) -> (change: MeleeTagChange)
    ensures
        change == (if (stance.attack is Some) && !tagged {
            MeleeTagChange::Insert
        } else if (stance.attack is None) && tagged {
            MeleeTagChange::Remove
        } else {
            MeleeTagChange::Keep
        }),
{
    let attacking = stance.attack.is_some();
    if attacking && !tagged {
        MeleeTagChange::Insert
    } else if !attacking && tagged {
        MeleeTagChange::Remove
    } else {
        MeleeTagChange::Keep
    }
}

// ───────── Animation ─────────
/// The clips a player or an enemy can show besides those for being stunned
/// or dying.
#[derive(Clone, Copy, Debug, PartialEq, Eq, Structural)]
pub enum ClipSlot {
    Idle,
    Walk,
    Run,
    Jump,
    Fall,
    AttackIdle,
    AttackWalk,
    AttackRun,
    AttackJump,
    AttackFall,
}

impl ClipSlot {
    /// The animation name under which the clip is registered.
    pub open spec fn name_spec(self) -> Seq<char> {
        match self {
            ClipSlot::Idle => "player_combat:swordidle"@,
            ClipSlot::Walk => "player_combat:swordrun"@,
            ClipSlot::Run => "player_combat:swordsprint"@,
            ClipSlot::Jump => "player_combat:swordjumpmid"@,
            ClipSlot::Fall => "player_combat:swordjumpfall"@,
            ClipSlot::AttackIdle => "player_combat:standingslash"@,
            ClipSlot::AttackWalk => "player_combat:swordrunslash"@,
            ClipSlot::AttackRun => "player_combat:swordsprintslash"@,
            ClipSlot::AttackJump => "player_combat:airslashup"@,
            ClipSlot::AttackFall => "player_combat:airslashdown"@,
        }
    }

    /// The animation name under which the clip is registered.
    pub fn name(self) -> (name: &'static str)
        ensures
            name@ == self.name_spec(),
    {
        match self {
            ClipSlot::Idle => "player_combat:swordidle",
            ClipSlot::Walk => "player_combat:swordrun",
            ClipSlot::Run => "player_combat:swordsprint",
            ClipSlot::Jump => "player_combat:swordjumpmid",
            ClipSlot::Fall => "player_combat:swordjumpfall",
            ClipSlot::AttackIdle => "player_combat:standingslash",
            ClipSlot::AttackWalk => "player_combat:swordrunslash",
            ClipSlot::AttackRun => "player_combat:swordsprintslash",
            ClipSlot::AttackJump => "player_combat:airslashup",
            ClipSlot::AttackFall => "player_combat:airslashdown",
        }
    }
}

impl AttackDurations {
    /// The swing lengths read from a table of clip lengths, each missing one
    /// taken from its stand-in as in [`AttackDurations::resolved`].
    pub open spec fn from_table_spec(table: Seq<ClipLength>, fallback: u64) -> AttackDurations {
        AttackDurations::resolved(
            length_of(table, ClipSlot::AttackIdle.name_spec()),
            length_of(table, ClipSlot::AttackWalk.name_spec()),
            length_of(table, ClipSlot::AttackRun.name_spec()),
            length_of(table, ClipSlot::AttackJump.name_spec()),
            length_of(table, ClipSlot::AttackFall.name_spec()),
            fallback,
        )
    }

    /// Computes [`AttackDurations::from_table_spec`].
    pub fn from_table(table: &Vec<ClipLength>, fallback: u64) -> (d: AttackDurations)
        ensures
            d == AttackDurations::from_table_spec(table@, fallback),
    {
        AttackDurations::resolve(
            clip_length(table, ClipSlot::AttackIdle.name()),
            clip_length(table, ClipSlot::AttackWalk.name()),
            clip_length(table, ClipSlot::AttackRun.name()),
            clip_length(table, ClipSlot::AttackJump.name()),
            clip_length(table, ClipSlot::AttackFall.name()),
            fallback,
        )
    }
}

/// The first of the two that is there.
pub open spec fn either(a: Option<AnimationId>, b: Option<AnimationId>) -> Option<AnimationId> {
    if a is Some {
        a
    } else {
        b
    }
}

/// `a` if it is there and `b` otherwise.
pub open spec fn or_else(a: Option<AnimationId>, b: AnimationId) -> AnimationId {
    match a {
        Some(id) => id,
        None => b,
    }
}

/// Computes [`either`].
pub fn first_of(a: Option<AnimationId>, b: Option<AnimationId>) -> (r: Option<AnimationId>)
    ensures
        r == either(a, b),
{
    if a.is_some() {
        a
    } else {
        b
    }
}

/// Computes [`or_else`].
pub fn or_default(a: Option<AnimationId>, b: AnimationId) -> (r: AnimationId)
    ensures
        r == or_else(a, b),
{
    match a {
        Some(id) => id,
        None => b,
    }
}

/// The player's clips. The idle clip and the standing swing must exist; any
/// other may be missing and is then stood in for.
#[derive(Clone, Copy, Debug, PartialEq, Eq)]
pub struct AnimClips {
    pub idle: AnimationId,
    pub walk: Option<AnimationId>,
    pub run: Option<AnimationId>,
    pub jump: Option<AnimationId>,
    pub fall: Option<AnimationId>,
    pub attack_idle: AnimationId,
    pub attack_walk: Option<AnimationId>,
    pub attack_run: Option<AnimationId>,
    pub attack_jump: Option<AnimationId>,
    pub attack_fall: Option<AnimationId>,
}

/// A clip that must exist and does not.
#[derive(Clone, Copy, Debug, PartialEq, Eq, Structural)]
pub enum MissingClip {
    Idle,
    AttackIdle,
}

/// What the animation library holds under the name of each clip.
#[derive(Clone, Copy, Debug, PartialEq, Eq)]
pub struct ClipLookup {
    pub idle: Option<AnimationId>,
    pub walk: Option<AnimationId>,
    pub run: Option<AnimationId>,
    pub jump: Option<AnimationId>,
    pub fall: Option<AnimationId>,
    pub attack_idle: Option<AnimationId>,
    pub attack_walk: Option<AnimationId>,
    pub attack_run: Option<AnimationId>,
    pub attack_jump: Option<AnimationId>,
    pub attack_fall: Option<AnimationId>,
}

impl ClipLookup {
    /// The clips put together. The idle clip and the standing swing must
    /// have been found, and a missing idle clip is told first; any other
    /// clip may be missing.
    pub open spec fn assembled(self) -> Result<AnimClips, MissingClip> {
        if self.idle is None {
            Err(MissingClip::Idle)
        } else if self.attack_idle is None {
            Err(MissingClip::AttackIdle)
        } else {
            Ok(
                AnimClips {
                    idle: self.idle.unwrap(),
                    walk: self.walk,
                    run: self.run,
                    jump: self.jump,
                    fall: self.fall,
                    attack_idle: self.attack_idle.unwrap(),
                    attack_walk: self.attack_walk,
                    attack_run: self.attack_run,
                    attack_jump: self.attack_jump,
                    attack_fall: self.attack_fall,
                },
            )
        }
    }

    /// Computes [`ClipLookup::assembled`].
    pub fn assemble(&self) -> (clips: Result<AnimClips, MissingClip>)
        ensures
            clips == self.assembled(),
    {
        AnimClips::assemble(
            self.idle,
            self.walk,
            self.run,
            self.jump,
            self.fall,
            self.attack_idle,
            self.attack_walk,
            self.attack_run,
            self.attack_jump,
            self.attack_fall,
        )
    }
}

impl AnimClips {
    /// The clip for a swing: the variant's own, else the nearest stand-in,
    /// at the last the standing swing.
    pub open spec fn attack_clip(self, attack: AttackState) -> AnimationId {
        match attack {
            AttackState::IdleAttack => self.attack_idle,
            AttackState::WalkingAttack => or_else(self.attack_walk, self.attack_idle),
            AttackState::RunningAttack => or_else(
                either(self.attack_run, self.attack_walk),
                self.attack_idle,
            ),
            AttackState::JumpingAttack => or_else(self.attack_jump, self.attack_idle),
            AttackState::FallingAttack => or_else(
                either(self.attack_fall, self.attack_jump),
                self.attack_idle,
            ),
        }
    }

    /// The clip for moving without a swing. A fall shows the jump clip while
    /// the body still rises and the fall clip otherwise.
    pub open spec fn locomotion_clip(self, locomotion: LocomotionState, vy: i32) -> AnimationId {
        match locomotion {
            LocomotionState::Idle => self.idle,
            LocomotionState::Walking => or_else(self.walk, self.idle),
            LocomotionState::Running => or_else(either(self.run, self.walk), self.idle),
            LocomotionState::Jumping | LocomotionState::SprintJumping => or_else(
                either(self.jump, self.fall),
                self.idle,
            ),
            LocomotionState::Falling => if vy > 0 {
                or_else(either(self.jump, self.fall), self.idle)
            } else {
                or_else(self.fall, self.idle)
            },
        }
    }

    /// The clip to show: a swing comes before the locomotion.
    pub open spec fn wanted(self, stance: Stance, vy: i32) -> AnimationId {
        match stance.attack {
            Some(attack) => self.attack_clip(attack),
            None => self.locomotion_clip(stance.locomotion, vy),
        }
    }

    /// Puts the clips together from what the animation library holds under
    /// each name. Fails when the idle clip or the standing swing is missing,
    /// the idle clip first.
    pub fn assemble(
        idle: Option<AnimationId>,
        walk: Option<AnimationId>,
        run: Option<AnimationId>,
        jump: Option<AnimationId>,
        fall: Option<AnimationId>,
        attack_idle: Option<AnimationId>,
        attack_walk: Option<AnimationId>,
        attack_run: Option<AnimationId>,
        attack_jump: Option<AnimationId>,
        attack_fall: Option<AnimationId>,
    ) -> (clips: Result<AnimClips, MissingClip>)
        ensures
            clips == (ClipLookup {
                idle,
                walk,
                run,
                jump,
                fall,
                attack_idle,
                attack_walk,
                attack_run,
                attack_jump,
                attack_fall,
            }).assembled(),
    {
        match idle {
            None => Err(MissingClip::Idle),
            Some(idle) => match attack_idle {
                None => Err(MissingClip::AttackIdle),
                Some(attack_idle) => Ok(
                    AnimClips {
                        idle,
                        walk,
                        run,
                        jump,
                        fall,
                        attack_idle,
                        attack_walk,
                        attack_run,
                        attack_jump,
                        attack_fall,
                    },
                ),
            },
        }
    }

    /// Computes [`AnimClips::wanted`].
    pub fn select(&self, stance: &Stance, vy: i32) -> (id: AnimationId)
        ensures
            id == self.wanted(*stance, vy),
    {
        match stance.attack {
            Some(AttackState::IdleAttack) => self.attack_idle,
            Some(AttackState::WalkingAttack) => or_default(self.attack_walk, self.attack_idle),
            Some(AttackState::RunningAttack) => or_default(
                first_of(self.attack_run, self.attack_walk),
                self.attack_idle,
            ),
            Some(AttackState::JumpingAttack) => or_default(self.attack_jump, self.attack_idle),
            Some(AttackState::FallingAttack) => or_default(
                first_of(self.attack_fall, self.attack_jump),
                self.attack_idle,
            ),
            None => match stance.locomotion {
                LocomotionState::Idle => self.idle,
                LocomotionState::Walking => or_default(self.walk, self.idle),
                LocomotionState::Running => or_default(first_of(self.run, self.walk), self.idle),
                LocomotionState::Jumping | LocomotionState::SprintJumping => or_default(
                    first_of(self.jump, self.fall),
                    self.idle,
                ),
                LocomotionState::Falling => if vy > 0 {
                    or_default(first_of(self.jump, self.fall), self.idle)
                } else {
                    or_default(self.fall, self.idle)
                },
            },
        }
    }
}

/// The clip to switch to, if the one wanted is not the one playing.
pub fn drive_animation(clips: &AnimClips, current: AnimationId, stance: &Stance, vy: i32) -> (switch:
    Option<AnimationId>)
    ensures
        switch == (if clips.wanted(*stance, vy) == current {
            None
        } else {
            Some(clips.wanted(*stance, vy))
        }),
{
    let id = clips.select(stance, vy);
    if id == current {
        None
    } else {
        Some(id)
    }
}

/// The name of the state as it is logged: the swing's while one is under
/// way, the locomotion's otherwise.
pub open spec fn state_name_spec(stance: Stance) -> Seq<char> {
    match stance.attack {
        Some(AttackState::IdleAttack) => "IdleAttack"@,
        Some(AttackState::WalkingAttack) => "WalkingAttack"@,
        Some(AttackState::RunningAttack) => "RunningAttack"@,
        Some(AttackState::JumpingAttack) => "JumpingAttack"@,
        Some(AttackState::FallingAttack) => "FallingAttack"@,
        None => match stance.locomotion {
            LocomotionState::Idle => "Idle"@,
            LocomotionState::Walking => "Walking"@,
            LocomotionState::Running => "Running"@,
            LocomotionState::Jumping => "Jumping"@,
            LocomotionState::SprintJumping => "SprintJumping"@,
            LocomotionState::Falling => "Falling"@,
        },
    }
}

/// Computes [`state_name_spec`].
pub fn state_name(stance: &Stance) -> (name: &'static str)
    ensures
        name@ == state_name_spec(*stance),
{
    match stance.attack {
        Some(AttackState::IdleAttack) => "IdleAttack",
        Some(AttackState::WalkingAttack) => "WalkingAttack",
        Some(AttackState::RunningAttack) => "RunningAttack",
        Some(AttackState::JumpingAttack) => "JumpingAttack",
        Some(AttackState::FallingAttack) => "FallingAttack",
        None => match stance.locomotion {
            LocomotionState::Idle => "Idle",
            LocomotionState::Walking => "Walking",
            LocomotionState::Running => "Running",
            LocomotionState::Jumping => "Jumping",
            LocomotionState::SprintJumping => "SprintJumping",
            LocomotionState::Falling => "Falling",
        },
    }
}

// ───────── Spawning ─────────
/// The layers a body is on and those it collides with, as masks.
#[derive(Clone, Copy, Debug, PartialEq, Eq)]
pub struct CollisionLayers {
    pub memberships: u32,
    pub filters: u32,
}

/// The melee ray of the player: one hit of one point per swing, on the
/// enemies' layer.
pub open spec fn player_ray() -> MeleeRaycastSpec {
    MeleeRaycastSpec {
        offset: Vec2 { x: 18_000, y: 8_000 },
        length: 46_000,
        max_hits: 1,
        damage: 1,
        filter: GameLayer::Enemy.bits(),
        solid: false,
        once_per_swing: true,
    }
}

/// Computes [`player_ray`].
pub fn player_melee_spec() -> (spec: MeleeRaycastSpec)
    ensures
        spec == player_ray(),
{
    MeleeRaycastSpec {
        offset: Vec2 { x: 18_000, y: 8_000 },
        length: 46_000,
        max_hits: 1,
        damage: 1,
        filter: GameLayer::Enemy.to_bits(),
        solid: false,
        once_per_swing: true,
    }
}

/// The layers of an actor on layer `own` that collides with the layer
/// `other` and with the world.
pub fn actor_layers(own: GameLayer, other: GameLayer) -> (layers: CollisionLayers)
    ensures
        layers.memberships == own.bits(),
        layers.filters == other.bits() | GameLayer::Default.bits(),
{
    CollisionLayers {
        memberships: own.to_bits(),
        filters: other.to_bits() | GameLayer::Default.to_bits(),
    }
}

/// A player as it is spawned: its machine, its clips and the clip it shows.
#[derive(Clone, Copy, Debug, PartialEq, Eq)]
pub struct PlayerSpawn {
    pub player: Player,
    pub clips: AnimClips,
    /// The clip that plays from the start.
    pub current: AnimationId,
}

/// What spawning the player gives. With the idle clip and the standing
/// swing found there is a player: at rest, not swinging, with a cooldown of
/// no length, with the swing lengths of its clips, or half a second where a
/// length is not in the table, and showing its idle clip. With either of
/// the two clips missing there is no player, only the clip that is missing.
pub open spec fn spawned_player(found: ClipLookup, table: Seq<ClipLength>) -> Result<
    PlayerSpawn,
    MissingClip,
> {
    match found.assembled() {
        Ok(clips) => Ok(
            PlayerSpawn {
                player: Player::spawned(AttackDurations::from_table_spec(table, DEFAULT_SWING_NS)),
                clips,
                current: clips.idle,
            },
        ),
        Err(missing) => Err(missing),
    }
}

/// Computes [`spawned_player`].
pub fn spawn_main_character(found: &ClipLookup, table: &Vec<ClipLength>) -> (spawn: Result<
    PlayerSpawn,
    MissingClip,
>)
    ensures
        spawn == spawned_player(*found, table@),
        spawn matches Ok(s) ==> s.player.wf() && s.current == s.clips.wanted(s.player.stance, 0),
{
    match found.assemble() {
        Ok(clips) => Ok(
            PlayerSpawn {
                player: Player::new(AttackDurations::from_table(table, DEFAULT_SWING_NS)),
                clips,
                current: clips.idle,
            },
        ),
        Err(missing) => Err(missing),
    }
}

} // verus!
