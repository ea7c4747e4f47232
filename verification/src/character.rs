//! Character state machine: the closed set of per-character states, their
//! priorities and hooks, and priority-based transition arbitration.
//!
//! Exactly one [`CharacterState`] is active per player.  During a phase,
//! hooks and effects only *request* transitions; at each arbitration point
//! the accumulated requests are reduced to the single strongest one, which is
//! applied only if it strictly beats the active state's own priority.  Hooks
//! never mutate the game directly: they return [`Command`] values that the
//! frame pipeline applies in order, which keeps every hook a pure function.

use vstd::prelude::*;

verus! {

use crate::animation::AnimationName;
use crate::fixed_point::FixedPoint;
use crate::input::{InputDirection, InputHistory, InputEvent, effective_dir};
use crate::movelist::{Attack, AttackV, Movelist};
use crate::animation::Animation;
use crate::time::Frame;

/// The playable characters.
#[derive(Debug, Clone, Copy, PartialEq, Eq, Hash, Structural)]
pub enum Character {
    Guy,
}

/// Which side a player faces; all "forward"/"backward" input judgements and
/// knockback directions are relative to this.
#[derive(Debug, Clone, Copy, PartialEq, Eq, Structural)]
pub enum Facing {
    Left,
    Right,
}

/// A direction relative to the character's facing.
#[derive(Debug, Clone, Copy, PartialEq, Eq, Structural)]
pub enum CharacterDirection {
    Neutral,
    Forward,
    DownForward,
    Down,
    DownBackward,
    Backward,
    UpBackward,
    Up,
    UpForward,
}

/// The facing-relative reading of an absolute input direction.
pub open spec fn character_dir_of(dir: InputDirection, facing: Facing) -> CharacterDirection {
    match (dir, facing) {
        (InputDirection::Neutral, _) => CharacterDirection::Neutral,
        (InputDirection::Up, _) => CharacterDirection::Up,
        (InputDirection::Down, _) => CharacterDirection::Down,
        (InputDirection::Right, Facing::Right) => CharacterDirection::Forward,
        (InputDirection::Right, Facing::Left) => CharacterDirection::Backward,
        (InputDirection::UpRight, Facing::Right) => CharacterDirection::UpForward,
        (InputDirection::UpRight, Facing::Left) => CharacterDirection::UpBackward,
        (InputDirection::DownRight, Facing::Right) => CharacterDirection::DownForward,
        (InputDirection::DownRight, Facing::Left) => CharacterDirection::DownBackward,
        (InputDirection::Left, Facing::Right) => CharacterDirection::Backward,
        (InputDirection::Left, Facing::Left) => CharacterDirection::Forward,
        (InputDirection::UpLeft, Facing::Right) => CharacterDirection::UpBackward,
        (InputDirection::UpLeft, Facing::Left) => CharacterDirection::UpForward,
        (InputDirection::DownLeft, Facing::Right) => CharacterDirection::DownBackward,
        (InputDirection::DownLeft, Facing::Left) => CharacterDirection::DownForward,
    }
}

impl CharacterDirection {
    /// Reads an absolute input direction relative to a facing.
    pub fn from_input_dir(dir: InputDirection, facing: Facing) -> (r: CharacterDirection)
        ensures
            r == character_dir_of(dir, facing),
    {
        match (dir, facing) {
            (InputDirection::Neutral, _) => CharacterDirection::Neutral,
            (InputDirection::Up, _) => CharacterDirection::Up,
            (InputDirection::Down, _) => CharacterDirection::Down,
            (InputDirection::Right, Facing::Right) => CharacterDirection::Forward,
            (InputDirection::Right, Facing::Left) => CharacterDirection::Backward,
            (InputDirection::UpRight, Facing::Right) => CharacterDirection::UpForward,
            (InputDirection::UpRight, Facing::Left) => CharacterDirection::UpBackward,
            (InputDirection::DownRight, Facing::Right) => CharacterDirection::DownForward,
            (InputDirection::DownRight, Facing::Left) => CharacterDirection::DownBackward,
            (InputDirection::Left, Facing::Right) => CharacterDirection::Backward,
            (InputDirection::Left, Facing::Left) => CharacterDirection::Forward,
            (InputDirection::UpLeft, Facing::Right) => CharacterDirection::UpBackward,
            (InputDirection::UpLeft, Facing::Left) => CharacterDirection::UpForward,
            (InputDirection::DownLeft, Facing::Right) => CharacterDirection::DownBackward,
            (InputDirection::DownLeft, Facing::Left) => CharacterDirection::DownForward,
        }
    }

    /// Whether the direction has a downward component.
    pub fn is_down(&self) -> (r: bool)
        ensures
            r == (*self == CharacterDirection::Down || *self == CharacterDirection::DownBackward
                || *self == CharacterDirection::DownForward),
    {
        matches!(self, Self::Down | Self::DownBackward | Self::DownForward)
    }

    /// Whether the direction has an upward component.
    pub fn is_up(&self) -> (r: bool)
        ensures
            r == (*self == CharacterDirection::Up || *self == CharacterDirection::UpBackward
                || *self == CharacterDirection::UpForward),
    {
        matches!(self, Self::Up | Self::UpBackward | Self::UpForward)
    }

    /// Whether the direction has a forward component.
    pub fn is_forward(&self) -> (r: bool)
        ensures
            r == (*self == CharacterDirection::Forward || *self == CharacterDirection::DownForward
                || *self == CharacterDirection::UpForward),
    {
        matches!(self, Self::Forward | Self::DownForward | Self::UpForward)
    }

    /// Whether the direction has a backward component.
    pub fn is_backward(&self) -> (r: bool)
        ensures
            r == dir_is_backward(*self),
    {
        matches!(self, Self::Backward | Self::DownBackward | Self::UpBackward)
    }
}

/// Whether a facing-relative direction has a backward component; holding one
/// while idle is what blocks.
pub open spec fn dir_is_backward(d: CharacterDirection) -> bool {
    d == CharacterDirection::Backward || d == CharacterDirection::DownBackward || d
        == CharacterDirection::UpBackward
}

/// Which way a jump was aimed.
#[derive(Debug, Clone, Copy, PartialEq, Eq, Structural)]
pub enum JumpDirection {
    Left,
    Up,
    Right,
}

/// The grounded, actionable rest state.
#[derive(Debug, Clone, Copy, PartialEq, Eq, Structural)]
pub struct IdleState;

/// In the air after a jump, remembering its direction.
#[derive(Debug, Clone, Copy, PartialEq, Eq, Structural)]
pub struct AirborneState(pub JumpDirection);

/// Forced recovery after blocking a hit, counting down the given frames.
#[derive(Debug, Clone, Copy, PartialEq, Eq, Structural)]
pub struct BlockstunState(pub usize);

/// Forced recovery after taking a hit, counting down the given frames.
#[derive(Debug, Clone, Copy, PartialEq, Eq, Structural)]
pub struct HitstunState(pub usize);

/// The character-specific actions, one sub-set per character.
#[derive(Debug, Clone, Copy, PartialEq, Eq, Structural)]
pub enum CharacterSpecificState {
    Guy(crate::guy::GuyState),
}

/// The closed set of states a character can be in; exactly one is active per
/// player at any time.
#[derive(Debug, Clone, Copy, PartialEq, Eq, Structural)]
pub enum CharacterState {
    Idle(IdleState),
    Airborne(AirborneState),
    Blockstun(BlockstunState),
    Hitstun(HitstunState),
    CharacterSpecific(CharacterSpecificState),
}

impl IdleState {
    /// Wraps the state into the character-state sum.
    pub fn wrap(self) -> (r: CharacterState)
        ensures
            r == CharacterState::Idle(self),
    {
        CharacterState::Idle(self)
    }
}

impl AirborneState {
    /// Wraps the state into the character-state sum.
    pub fn wrap(self) -> (r: CharacterState)
        ensures
            r == CharacterState::Airborne(self),
    {
        CharacterState::Airborne(self)
    }
}

impl BlockstunState {
    /// Wraps the state into the character-state sum.
    pub fn wrap(self) -> (r: CharacterState)
        ensures
            r == CharacterState::Blockstun(self),
    {
        CharacterState::Blockstun(self)
    }
}

impl HitstunState {
    /// Wraps the state into the character-state sum.
    pub fn wrap(self) -> (r: CharacterState)
        ensures
            r == CharacterState::Hitstun(self),
    {
        CharacterState::Hitstun(self)
    }
}

impl CharacterSpecificState {
    /// Wraps the character-specific action into the character-state sum.
    pub fn wrap(self) -> (r: CharacterState)
        ensures
            r == CharacterState::CharacterSpecific(self),
    {
        CharacterState::CharacterSpecific(self)
    }
}

/// Intrinsic priority of a state: idle yields to everything, forced states
/// (airborne, stun) yield only to other forced transitions, and
/// character-specific actions carry their author-assigned value.
pub open spec fn state_priority(s: CharacterState) -> usize {
    match s {
        CharacterState::Idle(_) => 0,
        CharacterState::Airborne(_) => 1000,
        CharacterState::Blockstun(_) => 1000,
        CharacterState::Hitstun(_) => 1000,
        CharacterState::CharacterSpecific(CharacterSpecificState::Guy(g)) => crate::guy::guy_priority(
            g,
        ),
    }
}

impl CharacterState {
    /// Intrinsic priority of the active state.
    pub fn priority(&self) -> (r: usize)
        ensures
            r == state_priority(*self),
    {
        match self {
            CharacterState::Idle(_) => 0,
            CharacterState::Airborne(_) => 1000,
            CharacterState::Blockstun(_) => 1000,
            CharacterState::Hitstun(_) => 1000,
            CharacterState::CharacterSpecific(CharacterSpecificState::Guy(
                crate::guy::GuyState::Normal(n),
            )) => n.priority(),
        }
    }
}

/// One request to switch a player's state, with the weight it competes at.
#[derive(Debug, Clone, Copy, PartialEq, Eq, Structural)]
pub struct StateTransitionRequest {
    pub state: CharacterState,
    pub insert_priority: usize,
}

impl StateTransitionRequest {
    /// Builds a request; without an explicit insertion priority it competes
    /// at the target state's own priority.
    pub fn new(state: CharacterState, insert_priority: Option<usize>) -> (r: StateTransitionRequest)
        ensures
            r.state == state,
            insert_priority is Some ==> r.insert_priority == insert_priority->0,
            insert_priority is None ==> r.insert_priority == state_priority(state),
    {
        let insert_priority = match insert_priority {
            Some(p) => p,
            None => state.priority(),
        };
        StateTransitionRequest { state, insert_priority }
    }
}

/// The winning request of an accumulation: the one with maximal insertion
/// priority, later submissions winning exact ties (a stable maximum).
pub open spec fn best_request(reqs: Seq<StateTransitionRequest>) -> Option<StateTransitionRequest>
    decreases reqs.len(),
{
    if reqs.len() == 0 {
        None
    } else {
        let last = reqs.last();
        match best_request(reqs.drop_last()) {
            None => Some(last),
            Some(prev) => if last.insert_priority >= prev.insert_priority {
                Some(last)
            } else {
                Some(prev)
            },
        }
    }
}

/// The transition that a phase's accumulated requests produce against the
/// active state's priority: the strongest request's target, and only if it
/// strictly beats the current priority.
pub open spec fn spec_arbitrate(current_priority: usize, reqs: Seq<StateTransitionRequest>) -> Option<
    CharacterState,
> {
    match best_request(reqs) {
        None => None,
        Some(req) => if req.insert_priority > current_priority {
            Some(req.state)
        } else {
            None
        },
    }
}

/// Accumulator of transition requests submitted during one phase; cleared by
/// each arbitration.
#[derive(Debug, Clone, PartialEq, Eq)]
pub struct StateTransitionRequests {
    pub requests: Vec<StateTransitionRequest>,
}

impl StateTransitionRequests {
    /// The empty accumulator.
    pub fn new() -> (r: StateTransitionRequests)
        ensures
            r.requests@ == Seq::<StateTransitionRequest>::empty(),
    {
        StateTransitionRequests { requests: Vec::new() }
    }

    /// Submits one request.
    pub fn add(&mut self, req: StateTransitionRequest)
        ensures
            final(self).requests@ == old(self).requests@.push(req),
    {
        self.requests.push(req);
    }

    /// Empties the accumulator and hands out its winning request, if any.
    pub fn take(&mut self) -> (r: Option<StateTransitionRequest>)
        ensures
            final(self).requests@ == Seq::<StateTransitionRequest>::empty(),
            r == best_request(old(self).requests@),
    {
        let mut best: Option<StateTransitionRequest> = None;
        let n = self.requests.len();
        let mut i: usize = 0;
        while i < n
            invariant
                i <= n == self.requests@.len(),
                best == best_request(self.requests@.take(i as int)),
            decreases n - i,
        {
            let req = self.requests[i];
            proof {
                assert(self.requests@.take(i + 1).drop_last() =~= self.requests@.take(i as int));
                assert(self.requests@.take(i + 1).last() == req);
            }
            best = match best {
                None => Some(req),
                Some(prev) => if req.insert_priority >= prev.insert_priority {
                    Some(req)
                } else {
                    Some(prev)
                },
            };
            i = i + 1;
        }
        proof {
            assert(self.requests@.take(n as int) =~= self.requests@);
        }
        self.requests = Vec::new();
        best
    }
}

/// The pure arbitration reducer: what one phase's accumulated requests do to
/// a state with the given priority.
pub fn arbitrate(current_priority: usize, requests: &StateTransitionRequests) -> (r: Option<
    CharacterState,
>)
    ensures
        r == spec_arbitrate(current_priority, requests.requests@),
{
    let n = requests.requests.len();
    let mut best: Option<StateTransitionRequest> = None;
    let mut i: usize = 0;
    while i < n
        invariant
            i <= n == requests.requests@.len(),
            best == best_request(requests.requests@.take(i as int)),
        decreases n - i,
    {
        let req = requests.requests[i];
        proof {
            assert(requests.requests@.take(i + 1).drop_last() =~= requests.requests@.take(i as int));
            assert(requests.requests@.take(i + 1).last() == req);
        }
        best = match best {
            None => Some(req),
            Some(prev) => if req.insert_priority >= prev.insert_priority {
                Some(req)
            } else {
                Some(prev)
            },
        };
        i = i + 1;
    }
    proof {
        assert(requests.requests@.take(n as int) =~= requests.requests@);
    }
    match best {
        Some(req) if req.insert_priority > current_priority => Some(req.state),
        _ => None,
    }
}

/// Static prototype of a playable character: display name, the animations
/// the simulation's handles refer to, and the declared movelist.  Built and
/// validated once before a match and read-only for its whole duration.
#[derive(Debug)]
pub struct CharacterProto {
    pub name: String,
    pub idle: Animation,
    pub walking: Animation,
    pub punch: Animation,
    pub hitstun: Animation,
    pub movelist: Movelist,
}

/// Mathematical image of a [`CharacterProto`].
pub struct CharacterProtoV {
    pub idle: crate::animation::AnimationV,
    pub walking: crate::animation::AnimationV,
    pub punch: crate::animation::AnimationV,
    pub hitstun: crate::animation::AnimationV,
    pub movelist: Seq<crate::movelist::Move>,
}

impl View for CharacterProto {
    type V = CharacterProtoV;

    open spec fn view(&self) -> CharacterProtoV {
        CharacterProtoV {
            idle: self.idle@,
            walking: self.walking@,
            punch: self.punch@,
            hitstun: self.hitstun@,
            movelist: self.movelist.moves@,
        }
    }
}

/// The animation a handle refers to inside a prototype.
pub open spec fn proto_animation(p: CharacterProtoV, name: AnimationName) -> crate::animation::AnimationV {
    match name {
        AnimationName::Idle => p.idle,
        AnimationName::Walking => p.walking,
        AnimationName::Punch => p.punch,
        AnimationName::Hitstun => p.hitstun,
    }
}

/// Well-formedness of a prototype: every animation is well formed.
pub open spec fn proto_wf(p: CharacterProtoV) -> bool {
    &&& crate::animation::anim_wf(p.idle)
    &&& crate::animation::anim_wf(p.walking)
    &&& crate::animation::anim_wf(p.punch)
    &&& crate::animation::anim_wf(p.hitstun)
}

impl CharacterProto {
    /// Looks an animation up by its handle.
    pub fn animation(&self, name: AnimationName) -> (r: &Animation)
        ensures
            r@ == proto_animation(self@, name),
    {
        match name {
            AnimationName::Idle => &self.idle,
            AnimationName::Walking => &self.walking,
            AnimationName::Punch => &self.punch,
            AnimationName::Hitstun => &self.hitstun,
        }
    }
}

/// Walk speed in raw fixed-point units: 60 units per second.
pub const WALK_SPEED_RAW: i32 = 15360;

/// Walk speed toward negative x, in raw fixed-point units.
pub const WALK_SPEED_LEFT_RAW: i32 = -15360;

/// Initial upward velocity of a jump in raw fixed-point units (negative y is
/// up): 200 units per second.
pub const JUMP_VELOCITY_RAW: i32 = -51200;

/// A deferred mutation of the owning player, returned by a state hook and
/// applied in order by the frame pipeline.
#[derive(Debug, Clone)]
pub enum Command {
    /// Set the horizontal velocity.
    SetVelocityX(FixedPoint),
    /// Set the vertical velocity.
    SetVelocityY(FixedPoint),
    /// Switch the animator to this animation, optionally requesting a state
    /// when it completes.
    SwitchAnimation(AnimationName, Option<CharacterState>),
    /// Switch only if that animation is not already playing.
    MakeSureAnimation(AnimationName, Option<CharacterState>),
    /// Submit a transition request for the next arbitration.
    AddTransitionRequest(StateTransitionRequest),
    /// Arm an attack.
    SetAttack(Attack),
    /// Disarm the attack in progress.
    ClearAttack,
}

/// Mathematical image of a [`Command`].
pub enum CommandV {
    SetVelocityX(FixedPoint),
    SetVelocityY(FixedPoint),
    SwitchAnimation(AnimationName, Option<CharacterState>),
    MakeSureAnimation(AnimationName, Option<CharacterState>),
    AddTransitionRequest(StateTransitionRequest),
    SetAttack(AttackV),
    ClearAttack,
}

impl View for Command {
    type V = CommandV;

    open spec fn view(&self) -> CommandV {
        match self {
            Command::SetVelocityX(v) => CommandV::SetVelocityX(*v),
            Command::SetVelocityY(v) => CommandV::SetVelocityY(*v),
            Command::SwitchAnimation(a, s) => CommandV::SwitchAnimation(*a, *s),
            Command::MakeSureAnimation(a, s) => CommandV::MakeSureAnimation(*a, *s),
            Command::AddTransitionRequest(req) => CommandV::AddTransitionRequest(*req),
            Command::SetAttack(attack) => CommandV::SetAttack(attack@),
            Command::ClearAttack => CommandV::ClearAttack,
        }
    }
}

/// The images of a command list, in order.
pub open spec fn cmds_view(cmds: Seq<Command>) -> Seq<CommandV> {
    cmds.map_values(|c: Command| c@)
}

/// What entering a state does to its player: idle halts and shows the idle
/// animation, a jump sets its horizontal speed, hitstun shows its animation,
/// and a character action runs its own entry.
pub open spec fn on_enter_cmds(s: CharacterState) -> Seq<CommandV> {
    match s {
        CharacterState::Idle(_) => seq![
            CommandV::SetVelocityX(FixedPoint(0)),
            CommandV::SwitchAnimation(AnimationName::Idle, None),
        ],
        CharacterState::Airborne(AirborneState(d)) => seq![
            CommandV::SetVelocityX(
                match d {
                    JumpDirection::Left => FixedPoint(WALK_SPEED_LEFT_RAW),
                    JumpDirection::Up => FixedPoint(0),
                    JumpDirection::Right => FixedPoint(WALK_SPEED_RAW),
                },
            ),
        ],
        CharacterState::Blockstun(_) => seq![],
        CharacterState::Hitstun(_) => seq![
            CommandV::SwitchAnimation(AnimationName::Hitstun, None),
        ],
        CharacterState::CharacterSpecific(CharacterSpecificState::Guy(g)) => crate::guy::guy_on_enter_cmds(
            g,
        ),
    }
}

/// What leaving a state does to its player: only character actions clean up
/// (the punch disarms its attack).
pub open spec fn on_exit_cmds(s: CharacterState) -> Seq<CommandV> {
    match s {
        CharacterState::CharacterSpecific(CharacterSpecificState::Guy(g)) => crate::guy::guy_on_exit_cmds(
            g,
        ),
        _ => seq![],
    }
}

/// What a state's pre-tick does: stun states count down and, once spent,
/// request idle at forced priority; other states do nothing.
pub open spec fn pre_tick_spec(s: CharacterState) -> (CharacterState, Seq<CommandV>) {
    match s {
        CharacterState::Blockstun(BlockstunState(c)) => if c <= 1 {
            (
                s,
                seq![
                    CommandV::AddTransitionRequest(
                        StateTransitionRequest {
                            state: CharacterState::Idle(IdleState),
                            insert_priority: usize::MAX,
                        },
                    ),
                ],
            )
        } else {
            (CharacterState::Blockstun(BlockstunState((c - 1) as usize)), seq![])
        },
        CharacterState::Hitstun(HitstunState(c)) => if c <= 1 {
            (
                s,
                seq![
                    CommandV::AddTransitionRequest(
                        StateTransitionRequest {
                            state: CharacterState::Idle(IdleState),
                            insert_priority: usize::MAX,
                        },
                    ),
                ],
            )
        } else {
            (CharacterState::Hitstun(HitstunState((c - 1) as usize)), seq![])
        },
        _ => (s, seq![]),
    }
}

/// What a state's tick does: idle walks, jumps, or rests by the effective
/// held direction; every other state coasts.
pub open spec fn tick_cmds(s: CharacterState, events: Seq<InputEvent>) -> Seq<CommandV> {
    match s {
        CharacterState::Idle(_) => match effective_dir(events) {
            InputDirection::Right => seq![
                CommandV::SetVelocityX(FixedPoint(WALK_SPEED_RAW)),
                CommandV::MakeSureAnimation(AnimationName::Walking, None),
            ],
            InputDirection::Left => seq![
                CommandV::SetVelocityX(FixedPoint(WALK_SPEED_LEFT_RAW)),
                CommandV::MakeSureAnimation(AnimationName::Walking, None),
            ],
            InputDirection::Neutral => seq![
                CommandV::SetVelocityX(FixedPoint(0)),
                CommandV::MakeSureAnimation(AnimationName::Idle, None),
            ],
            InputDirection::Up => seq![
                CommandV::SetVelocityY(FixedPoint(JUMP_VELOCITY_RAW)),
                CommandV::AddTransitionRequest(
                    StateTransitionRequest {
                        state: CharacterState::Airborne(AirborneState(JumpDirection::Up)),
                        insert_priority: 1000,
                    },
                ),
            ],
            InputDirection::UpRight => seq![
                CommandV::SetVelocityY(FixedPoint(JUMP_VELOCITY_RAW)),
                CommandV::AddTransitionRequest(
                    StateTransitionRequest {
                        state: CharacterState::Airborne(AirborneState(JumpDirection::Right)),
                        insert_priority: 1000,
                    },
                ),
            ],
            InputDirection::UpLeft => seq![
                CommandV::SetVelocityY(FixedPoint(JUMP_VELOCITY_RAW)),
                CommandV::AddTransitionRequest(
                    StateTransitionRequest {
                        state: CharacterState::Airborne(AirborneState(JumpDirection::Left)),
                        insert_priority: 1000,
                    },
                ),
            ],
            _ => seq![],
        },
        _ => seq![],
    }
}

impl CharacterState {
    /// Runs the enter hook of this state, as deferred commands.
    pub fn on_enter(&self) -> (r: Vec<Command>)
        ensures
            cmds_view(r@) == on_enter_cmds(*self),
    {
        let r: Vec<Command> = match self {
            CharacterState::Idle(_) => vec![
                Command::SetVelocityX(FixedPoint(0)),
                Command::SwitchAnimation(AnimationName::Idle, None),
            ],
            CharacterState::Airborne(AirborneState(d)) => vec![
                Command::SetVelocityX(
                    match d {
                        JumpDirection::Left => FixedPoint(WALK_SPEED_LEFT_RAW),
                        JumpDirection::Up => FixedPoint(0),
                        JumpDirection::Right => FixedPoint(WALK_SPEED_RAW),
                    },
                ),
            ],
            CharacterState::Blockstun(_) => Vec::new(),
            CharacterState::Hitstun(_) => vec![
                Command::SwitchAnimation(AnimationName::Hitstun, None),
            ],
            CharacterState::CharacterSpecific(CharacterSpecificState::Guy(g)) => {
                return crate::guy::guy_on_enter(*g);
            },
        };
        proof {
            assert(cmds_view(r@) =~= on_enter_cmds(*self));
        }
        r
    }

    /// Runs the exit hook of this state, as deferred commands.
    pub fn on_exit(&self) -> (r: Vec<Command>)
        ensures
            cmds_view(r@) == on_exit_cmds(*self),
    {
        let r: Vec<Command> = match self {
            CharacterState::CharacterSpecific(CharacterSpecificState::Guy(g)) => {
                return crate::guy::guy_on_exit(*g);
            },
            _ => Vec::new(),
        };
        proof {
            assert(cmds_view(r@) =~= on_exit_cmds(*self));
        }
        r
    }

    /// Runs the pre-tick hook: stun states count themselves down and request
    /// idle, at forced priority, on the frame their counter is spent.
    pub fn pre_tick(&mut self) -> (r: Vec<Command>)
        ensures
            *final(self) == pre_tick_spec(*old(self)).0,
            cmds_view(r@) == pre_tick_spec(*old(self)).1,
    {
        let idle_request = StateTransitionRequest {
            state: CharacterState::Idle(IdleState),
            insert_priority: usize::MAX,
        };
        let r: Vec<Command> = match self {
            CharacterState::Blockstun(BlockstunState(c)) => {
                if *c <= 1 {
                    vec![Command::AddTransitionRequest(idle_request)]
                } else {
                    *c = *c - 1;
                    Vec::new()
                }
            },
            CharacterState::Hitstun(HitstunState(c)) => {
                if *c <= 1 {
                    vec![Command::AddTransitionRequest(idle_request)]
                } else {
                    *c = *c - 1;
                    Vec::new()
                }
            },
            _ => Vec::new(),
        };
        proof {
            assert(cmds_view(r@) =~= pre_tick_spec(*old(self)).1);
        }
        r
    }

    /// Runs the tick hook: idle walks, jumps, or rests by the direction held
    /// as of the given frame; every other state coasts.
    pub fn tick(&self, frame: Frame, input_history: &InputHistory) -> (r: Vec<Command>)
        ensures
            cmds_view(r@) == tick_cmds(*self, input_history.events@),
    {
        let r: Vec<Command> = match self {
            CharacterState::Idle(_) => {
                let it = input_history.iter(0, frame);
                let dir = it.input_dir_as_of_here();
                proof {
                    assert(input_history.events@.take(input_history.events@.len() as int)
                        =~= input_history.events@);
                }
                match dir {
                    InputDirection::Right => vec![
                        Command::SetVelocityX(FixedPoint(WALK_SPEED_RAW)),
                        Command::MakeSureAnimation(AnimationName::Walking, None),
                    ],
                    InputDirection::Left => vec![
                        Command::SetVelocityX(FixedPoint(WALK_SPEED_LEFT_RAW)),
                        Command::MakeSureAnimation(AnimationName::Walking, None),
                    ],
                    InputDirection::Neutral => vec![
                        Command::SetVelocityX(FixedPoint(0)),
                        Command::MakeSureAnimation(AnimationName::Idle, None),
                    ],
                    InputDirection::Up => vec![
                        Command::SetVelocityY(FixedPoint(JUMP_VELOCITY_RAW)),
                        Command::AddTransitionRequest(
                            StateTransitionRequest {
                                state: CharacterState::Airborne(AirborneState(JumpDirection::Up)),
                                insert_priority: 1000,
                            },
                        ),
                    ],
                    InputDirection::UpRight => vec![
                        Command::SetVelocityY(FixedPoint(JUMP_VELOCITY_RAW)),
                        Command::AddTransitionRequest(
                            StateTransitionRequest {
                                state: CharacterState::Airborne(AirborneState(JumpDirection::Right)),
                                insert_priority: 1000,
                            },
                        ),
                    ],
                    InputDirection::UpLeft => vec![
                        Command::SetVelocityY(FixedPoint(JUMP_VELOCITY_RAW)),
                        Command::AddTransitionRequest(
                            StateTransitionRequest {
                                state: CharacterState::Airborne(AirborneState(JumpDirection::Left)),
                                insert_priority: 1000,
                            },
                        ),
                    ],
                    _ => Vec::new(),
                }
            },
            _ => Vec::new(),
        };
        proof {
            assert(cmds_view(r@) =~= tick_cmds(*self, input_history.events@));
        }
        r
    }
}

/// Arbitration idempotence: an empty phase leaves the state alone; a single
/// request at or below the current priority is discarded; a single stronger
/// request, and only such a request, switches to its target.
pub proof fn lemma_arbitration_idempotence(
    current_priority: usize,
    req: StateTransitionRequest,
)
    ensures
        spec_arbitrate(current_priority, Seq::<StateTransitionRequest>::empty()) is None,
        req.insert_priority <= current_priority ==> spec_arbitrate(
            current_priority,
            seq![req],
        ) is None,
        req.insert_priority > current_priority ==> spec_arbitrate(current_priority, seq![req])
            == Some(req.state),
{
    assert(seq![req].drop_last() =~= Seq::<StateTransitionRequest>::empty());
    assert(seq![req].last() == req);
}

} // verus!
