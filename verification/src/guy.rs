//! The character "Guy": his action states and declared movelist.

use vstd::prelude::*;

verus! {

use crate::animation::AnimationName;
use crate::character::{CharacterState, CharacterSpecificState, Command, CommandV, IdleState, cmds_view};
use crate::fixed_point::FixedPoint;
use crate::input::Button;
use crate::movelist::{
    Attack,
    AttackV,
    Effect,
    HitEffect,
    HitEffectV,
    InputMatcher,
    InputPredicate,
    Move,
    Movelist,
    StateMatcher,
    StatePredicate,
};

/// Guy's character-specific states.
#[derive(Debug, Clone, Copy, PartialEq, Eq, Structural)]
pub enum GuyState {
    Normal(Normal),
}

/// Guy's normal attacks.
#[derive(Debug, Clone, Copy, PartialEq, Eq, Structural)]
pub enum Normal {
    NeutralPunch,
}

impl GuyState {
    /// Wraps the state into the character-specific sum.
    pub fn wrap(self) -> (r: CharacterSpecificState)
        ensures
            r == CharacterSpecificState::Guy(self),
    {
        CharacterSpecificState::Guy(self)
    }
}

impl Normal {
    /// Wraps the normal into Guy's state sum.
    pub fn wrap(self) -> (r: GuyState)
        ensures
            r == GuyState::Normal(self),
    {
        GuyState::Normal(self)
    }
}

/// Author-assigned priority of Guy's states.
pub open spec fn guy_priority(g: GuyState) -> usize {
    match g {
        GuyState::Normal(Normal::NeutralPunch) => 10,
    }
}

impl Normal {
    /// Author-assigned priority of the normal.
    pub fn priority(self) -> (r: usize)
        ensures
            r == guy_priority(GuyState::Normal(self)),
    {
        match self {
            Normal::NeutralPunch => 10,
        }
    }
}

/// Guy's punch action state, fully wrapped.
pub open spec fn punch_state() -> CharacterState {
    CharacterState::CharacterSpecific(CharacterSpecificState::Guy(GuyState::Normal(Normal::NeutralPunch)))
}

/// Frames of hitstun or blockstun Guy's punch inflicts.
pub const PUNCH_STUN_FRAMES: usize = 14;

/// Knockback speed of Guy's punch in raw fixed-point units: 30 units per
/// second.
pub const PUNCH_KNOCKBACK_RAW: i32 = 7680;

/// Damage of Guy's punch in raw fixed-point units: 2 whole units.
pub const PUNCH_DAMAGE_RAW: i32 = 512;

/// The attack Guy's punch arms: blockable; on hit it stuns, knocks back and
/// damages, in that order; on block it stuns and knocks back.
pub open spec fn punch_attack() -> AttackV {
    AttackV {
        has_hit_player: false,
        hit_effect: HitEffectV {
            unblockable: false,
            effects_on_hit: seq![
                Effect::Hitstun(PUNCH_STUN_FRAMES),
                Effect::Knockback(FixedPoint(PUNCH_KNOCKBACK_RAW)),
                Effect::Damage(FixedPoint(PUNCH_DAMAGE_RAW)),
            ],
            effects_on_block: seq![
                Effect::Blockstun(PUNCH_STUN_FRAMES),
                Effect::Knockback(FixedPoint(PUNCH_KNOCKBACK_RAW)),
            ],
        },
    }
}

/// What entering one of Guy's states does: the punch shows its animation,
/// with idle to follow when it completes, and arms its attack.
pub open spec fn guy_on_enter_cmds(g: GuyState) -> Seq<CommandV> {
    match g {
        GuyState::Normal(Normal::NeutralPunch) => seq![
            CommandV::MakeSureAnimation(
                AnimationName::Punch,
                Some(CharacterState::Idle(IdleState)),
            ),
            CommandV::SetAttack(punch_attack()),
        ],
    }
}

/// What leaving one of Guy's states does: the punch disarms its attack.
pub open spec fn guy_on_exit_cmds(g: GuyState) -> Seq<CommandV> {
    match g {
        GuyState::Normal(Normal::NeutralPunch) => seq![CommandV::ClearAttack],
    }
}

/// Runs the enter hook of one of Guy's states, as deferred commands.
pub fn guy_on_enter(g: GuyState) -> (r: Vec<Command>)
    ensures
        cmds_view(r@) == guy_on_enter_cmds(g),
{
    let r: Vec<Command> = match g {
        GuyState::Normal(Normal::NeutralPunch) => vec![
            Command::MakeSureAnimation(AnimationName::Punch, Some(IdleState.wrap())),
            Command::SetAttack(
                Attack {
                    has_hit_player: false,
                    hit_effect: HitEffect {
                        unblockable: false,
                        effects_on_hit: vec![
                            Effect::Hitstun(PUNCH_STUN_FRAMES),
                            Effect::Knockback(FixedPoint(PUNCH_KNOCKBACK_RAW)),
                            Effect::Damage(FixedPoint(PUNCH_DAMAGE_RAW)),
                        ],
                        effects_on_block: vec![
                            Effect::Blockstun(PUNCH_STUN_FRAMES),
                            Effect::Knockback(FixedPoint(PUNCH_KNOCKBACK_RAW)),
                        ],
                    },
                },
            ),
        ],
    };
    proof {
        assert(r@[1]@->SetAttack_0.hit_effect.effects_on_hit =~= punch_attack().hit_effect.effects_on_hit);
        assert(r@[1]@->SetAttack_0.hit_effect.effects_on_block =~= punch_attack().hit_effect.effects_on_block);
        assert(cmds_view(r@) =~= guy_on_enter_cmds(g));
    }
    r
}

/// Runs the exit hook of one of Guy's states, as deferred commands.
pub fn guy_on_exit(g: GuyState) -> (r: Vec<Command>)
    ensures
        cmds_view(r@) == guy_on_exit_cmds(g),
{
    let r: Vec<Command> = match g {
        GuyState::Normal(Normal::NeutralPunch) => vec![Command::ClearAttack],
    };
    proof {
        assert(cmds_view(r@) =~= guy_on_exit_cmds(g));
    }
    r
}

/// Guy's declared moves: a single neutral punch, buffered on the punch
/// button from idle, priority 10, stopping momentum.
pub fn movelist() -> (r: Movelist)
    ensures
        r.moves@.len() == 1,
        r.moves@[0].name@ == "Punch"@,
        r.moves@[0].input_matcher.pred == InputPredicate::NeutralNormal(Button::Punch),
        r.moves@[0].state_matcher.pred == StatePredicate::Idle,
        r.moves@[0].priority == 10,
        r.moves@[0].new_state == punch_state(),
        r.moves@[0].stops_momentum,
{
    let moves = vec![
        Move {
            name: "Punch".to_string(),
            input_matcher: InputMatcher::neutral_normal(Button::Punch),
            state_matcher: StateMatcher::idle(),
            priority: 10,
            new_state: Normal::NeutralPunch.wrap().wrap().wrap(),
            stops_momentum: true,
        },
    ];
    Movelist::new(moves)
}

} // verus!
