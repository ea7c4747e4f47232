//! Declarative move matching and hit effects.
//!
//! A [`Move`] pairs a predicate over the input history with a predicate over
//! the character state; each frame, [`Movelist::perform`] selects among the
//! applicable moves the one with maximal declared priority, the later
//! declaration winning an exact tie (a stable maximum, so both peers of a
//! rollback session resolve ties identically).
//!
//! A [`HitEffect`] is the declarative payload of an attack: ordered effect
//! lists for a clean hit and for a blocked one.

use vstd::prelude::*;

verus! {

use crate::character::CharacterState;
use crate::fixed_point::FixedPoint;
use crate::input::{
    Button,
    InputHistory,
    InputEvent,
    InputKind,
    button_pressed_within,
    event_visible,
    history_wf,
    iter_wf,
    INPUT_BUFFER,
};
use crate::time::Frame;

/// One consequence of a landed or blocked attack, applied to the target.
#[derive(Debug, Clone, Copy, PartialEq, Eq, Structural)]
pub enum Effect {
    /// Subtract the amount from the target's health.
    Damage(FixedPoint),
    /// Force the target into hitstun for the given frame count.
    Hitstun(usize),
    /// Force the target into blockstun for the given frame count.
    Blockstun(usize),
    /// Push the target away from its facing at the given horizontal speed.
    Knockback(FixedPoint),
    /// Force the target into the given state.
    StateChange(CharacterState),
}

/// The declarative payload of an attack.
#[derive(Debug, PartialEq, Eq)]
pub struct HitEffect {
    /// A blocking target still suffers the on-hit list when this is set.
    pub unblockable: bool,
    /// Effects applied, in order, to a target that did not block.
    pub effects_on_hit: Vec<Effect>,
    /// Effects applied, in order, to a target that blocked.
    pub effects_on_block: Vec<Effect>,
}

/// Mathematical image of a [`HitEffect`].
pub struct HitEffectV {
    pub unblockable: bool,
    pub effects_on_hit: Seq<Effect>,
    pub effects_on_block: Seq<Effect>,
}

impl View for HitEffect {
    type V = HitEffectV;

    open spec fn view(&self) -> HitEffectV {
        HitEffectV {
            unblockable: self.unblockable,
            effects_on_hit: self.effects_on_hit@,
            effects_on_block: self.effects_on_block@,
        }
    }
}

/// An attack in progress: its effect payload and whether it already landed
/// once during this activation.
#[derive(Debug, PartialEq, Eq)]
pub struct Attack {
    pub has_hit_player: bool,
    pub hit_effect: HitEffect,
}

/// Mathematical image of an [`Attack`].
pub struct AttackV {
    pub has_hit_player: bool,
    pub hit_effect: HitEffectV,
}

impl View for Attack {
    type V = AttackV;

    open spec fn view(&self) -> AttackV {
        AttackV { has_hit_player: self.has_hit_player, hit_effect: self.hit_effect@ }
    }
}

/// An exact copy of an effect list.
fn copy_effects(v: &Vec<Effect>) -> (r: Vec<Effect>)
    ensures
        r@ == v@,
{
    let mut r: Vec<Effect> = Vec::new();
    let n = v.len();
    let mut i: usize = 0;
    while i < n
        invariant
            i <= n == v@.len(),
            r@ == v@.take(i as int),
        decreases n - i,
    {
        r.push(v[i]);
        proof {
            assert(r@ =~= v@.take(i + 1));
        }
        i = i + 1;
    }
    proof {
        assert(v@.take(n as int) =~= v@);
    }
    r
}

impl Clone for HitEffect {
    /// An exact copy, effect lists included.
    fn clone(&self) -> (res: Self)
        ensures
            res@ == self@,
    {
        HitEffect {
            unblockable: self.unblockable,
            effects_on_hit: copy_effects(&self.effects_on_hit),
            effects_on_block: copy_effects(&self.effects_on_block),
        }
    }
}

impl Clone for Attack {
    /// An exact copy, latch included.
    fn clone(&self) -> (res: Self)
        ensures
            res@ == self@,
    {
        Attack { has_hit_player: self.has_hit_player, hit_effect: self.hit_effect.clone() }
    }
}

/// The closed set of input predicates a move can ask for.
#[derive(Debug, Clone, Copy, PartialEq, Eq, Structural)]
pub enum InputPredicate {
    /// The button was pressed within the buffered-input window.
    NeutralNormal(Button),
}

/// A predicate over (reference frame, input history).
#[derive(Debug, Clone, Copy, PartialEq, Eq, Structural)]
pub struct InputMatcher {
    pub pred: InputPredicate,
}

/// Whether an input matcher holds of a history at a reference frame.
pub open spec fn input_matches(m: InputMatcher, frame: Frame, events: Seq<InputEvent>) -> bool {
    match m.pred {
        InputPredicate::NeutralNormal(button) => button_pressed_within(
            events,
            button,
            frame,
            INPUT_BUFFER as nat,
        ),
    }
}

/// All history events lie at or before the reference frame on the
/// with-freeze counter.
pub open spec fn history_before(events: Seq<InputEvent>, frame: Frame) -> bool {
    forall|i: int|
        0 <= i < events.len() ==> #[trigger] events[i].frame.frame_with_freeze
            <= frame.frame_with_freeze
}

impl InputMatcher {
    /// Wraps a predicate.
    pub fn new(pred: InputPredicate) -> (r: InputMatcher)
        ensures
            r.pred == pred,
    {
        InputMatcher { pred }
    }

    /// The predicate "this button was pressed within the buffered-input
    /// window".
    pub fn neutral_normal(button: Button) -> (r: InputMatcher)
        ensures
            r.pred == InputPredicate::NeutralNormal(button),
    {
        InputMatcher { pred: InputPredicate::NeutralNormal(button) }
    }

    /// Evaluates the predicate on a history at a reference frame, walking
    /// newest-first and stopping at the recency window's edge.
    pub fn matches(&self, frame: Frame, input: &InputHistory) -> (r: bool)
        requires
            history_wf(input.events@),
            history_before(input.events@, frame),
        ensures
            r == input_matches(*self, frame, input.events@),
    {
        match self.pred {
            InputPredicate::NeutralNormal(button) => {
                let mut it = input.iter(INPUT_BUFFER, frame);
                loop
                    invariant
                        iter_wf(it),
                        it.events@ == input.events@,
                        it.allowed_diff == INPUT_BUFFER,
                        it.current_frame == frame,
                        history_wf(it.events@),
                        self.pred == InputPredicate::NeutralNormal(button),
                        forall|i: int|
                            it.pos <= i < it.events@.len() ==> !(#[trigger] it.events@[i].pressed
                                && it.events@[i].kind == InputKind::Button(button) && event_visible(
                                it.events@[i],
                                frame,
                                INPUT_BUFFER as nat,
                            )),
                    decreases it.pos,
                {
                    let ghost prev = it;
                    match it.next() {
                        None => {
                            proof {
                                if prev.pos > 0 {
                                    let stopped = prev.events@[prev.pos - 1];
                                    assert(!event_visible(stopped, frame, INPUT_BUFFER as nat));
                                    assert forall|i: int|
                                        0 <= i < prev.events@.len() implies !(
                                    #[trigger] prev.events@[i].pressed && prev.events@[i].kind
                                        == InputKind::Button(button) && event_visible(
                                        prev.events@[i],
                                        frame,
                                        INPUT_BUFFER as nat,
                                    )) by {
                                        if i <= prev.pos - 1 {
                                            assert(prev.events@[i].frame.frame_with_freeze
                                                <= prev.events@[prev.pos - 1].frame.frame_with_freeze);
                                            assert(!event_visible(
                                                prev.events@[i],
                                                frame,
                                                INPUT_BUFFER as nat,
                                            ));
                                        }
                                    }
                                }
                                assert(!input_matches(*self, frame, input.events@));
                            }
                            return false;
                        },
                        Some(e) => {
                            let is_button_press = e.pressed && match e.kind {
                                InputKind::Button(b) => b == button,
                                _ => false,
                            };
                            if is_button_press {
                                proof {
                                    let i = prev.pos - 1;
                                    assert(prev.events@[i].pressed && prev.events@[i].kind
                                        == InputKind::Button(button) && event_visible(
                                        prev.events@[i],
                                        frame,
                                        INPUT_BUFFER as nat,
                                    ));
                                }
                                return true;
                            }
                        },
                    }
                }
            },
        }
    }
}

/// The closed set of state predicates a move can ask for.
#[derive(Debug, Clone, Copy, PartialEq, Eq, Structural)]
pub enum StatePredicate {
    Any,
    Idle,
    Airborne,
    Blockstun,
    Hitstun,
    Specific(CharacterState),
}

/// A predicate over the active character state.
#[derive(Debug, Clone, Copy, PartialEq, Eq, Structural)]
pub struct StateMatcher {
    pub pred: StatePredicate,
}

/// Whether a state matcher holds of a character state.
pub open spec fn state_matches(m: StateMatcher, s: CharacterState) -> bool {
    match m.pred {
        StatePredicate::Any => true,
        StatePredicate::Idle => s is Idle,
        StatePredicate::Airborne => s is Airborne,
        StatePredicate::Blockstun => s is Blockstun,
        StatePredicate::Hitstun => s is Hitstun,
        StatePredicate::Specific(t) => s == t,
    }
}

impl StateMatcher {
    /// Wraps a predicate.
    pub fn new(pred: StatePredicate) -> (r: StateMatcher)
        ensures
            r.pred == pred,
    {
        StateMatcher { pred }
    }

    /// Matches every state.
    pub fn any() -> (r: StateMatcher)
        ensures
            r.pred == StatePredicate::Any,
    {
        StateMatcher { pred: StatePredicate::Any }
    }

    /// Matches the idle state.
    pub fn idle() -> (r: StateMatcher)
        ensures
            r.pred == StatePredicate::Idle,
    {
        StateMatcher { pred: StatePredicate::Idle }
    }

    /// Matches any airborne state.
    pub fn airborne() -> (r: StateMatcher)
        ensures
            r.pred == StatePredicate::Airborne,
    {
        StateMatcher { pred: StatePredicate::Airborne }
    }

    /// Matches any blockstun state.
    pub fn blockstun() -> (r: StateMatcher)
        ensures
            r.pred == StatePredicate::Blockstun,
    {
        StateMatcher { pred: StatePredicate::Blockstun }
    }

    /// Matches any hitstun state.
    pub fn hitstun() -> (r: StateMatcher)
        ensures
            r.pred == StatePredicate::Hitstun,
    {
        StateMatcher { pred: StatePredicate::Hitstun }
    }

    /// Matches exactly the given state.
    pub fn specific(state: CharacterState) -> (r: StateMatcher)
        ensures
            r.pred == StatePredicate::Specific(state),
    {
        StateMatcher { pred: StatePredicate::Specific(state) }
    }

    /// Evaluates the predicate.
    pub fn matches(&self, state: &CharacterState) -> (r: bool)
        ensures
            r == state_matches(*self, *state),
    {
        match self.pred {
            StatePredicate::Any => true,
            StatePredicate::Idle => matches!(state, CharacterState::Idle(_)),
            StatePredicate::Airborne => matches!(state, CharacterState::Airborne(_)),
            StatePredicate::Blockstun => matches!(state, CharacterState::Blockstun(_)),
            StatePredicate::Hitstun => matches!(state, CharacterState::Hitstun(_)),
            StatePredicate::Specific(t) => *state == t,
        }
    }
}

/// One declarative character action.
#[derive(Debug, Clone, PartialEq, Eq)]
pub struct Move {
    /// Display name; carries no behavioral meaning.
    pub name: String,
    /// When the buffered inputs ask for this move.
    pub input_matcher: InputMatcher,
    /// From which states it may start.
    pub state_matcher: StateMatcher,
    /// Weight against other applicable moves this frame.
    pub priority: usize,
    /// State entered when the move is performed.
    pub new_state: CharacterState,
    /// Whether performing it zeroes the current velocity.
    pub stops_momentum: bool,
}

/// Whether a move's two predicates both hold.
pub open spec fn move_applicable(
    m: Move,
    frame: Frame,
    state: CharacterState,
    events: Seq<InputEvent>,
) -> bool {
    state_matches(m.state_matcher, state) && input_matches(m.input_matcher, frame, events)
}

/// Index of the selected move: among the applicable ones, the maximal
/// declared priority, the later declaration winning an exact tie.
pub open spec fn best_move_index(
    moves: Seq<Move>,
    frame: Frame,
    state: CharacterState,
    events: Seq<InputEvent>,
) -> Option<int>
    decreases moves.len(),
{
    if moves.len() == 0 {
        None
    } else {
        let i = moves.len() - 1;
        let prev = best_move_index(moves.drop_last(), frame, state, events);
        if move_applicable(moves[i], frame, state, events) {
            match prev {
                None => Some(i),
                Some(p) => if moves[i].priority >= moves[p].priority {
                    Some(i)
                } else {
                    prev
                },
            }
        } else {
            prev
        }
    }
}

/// A character's declared moves, in declaration order.
#[derive(Debug, Clone, PartialEq, Eq)]
pub struct Movelist {
    pub moves: Vec<Move>,
}

impl Movelist {
    /// Builds a movelist from its declarations.
    pub fn new(moves: Vec<Move>) -> (r: Movelist)
        ensures
            r.moves@ == moves@,
    {
        Movelist { moves }
    }

    /// Selects the move to perform this frame: both predicates must hold,
    /// and among those the maximal priority wins, the later declaration
    /// winning an exact tie.
    pub fn perform(&self, frame: Frame, state: &CharacterState, input: &InputHistory) -> (r: Option<
        &Move,
    >)
        requires
            history_wf(input.events@),
            history_before(input.events@, frame),
        ensures
            best_move_index(self.moves@, frame, *state, input.events@) is None ==> r is None,
            best_move_index(self.moves@, frame, *state, input.events@) matches Some(i) ==> (
            r matches Some(m) && *m == self.moves@[i]),
    {
        let n = self.moves.len();
        let mut best: Option<usize> = None;
        let mut i: usize = 0;
        while i < n
            invariant
                i <= n == self.moves@.len(),
                history_wf(input.events@),
                history_before(input.events@, frame),
                match best {
                    None => best_move_index(self.moves@.take(i as int), frame, *state, input.events@)
                        is None,
                    Some(b) => b < i && best_move_index(
                        self.moves@.take(i as int),
                        frame,
                        *state,
                        input.events@,
                    ) == Some(b as int),
                },
            decreases n - i,
        {
            proof {
                assert(self.moves@.take(i + 1).drop_last() =~= self.moves@.take(i as int));
                assert(self.moves@.take(i + 1).last() == self.moves@[i as int]);
            }
            let mov = &self.moves[i];
            if mov.state_matcher.matches(state) && mov.input_matcher.matches(frame, input) {
                best = match best {
                    None => Some(i),
                    Some(b) => {
                        if mov.priority >= self.moves[b].priority {
                            Some(i)
                        } else {
                            Some(b)
                        }
                    },
                };
            }
            i = i + 1;
        }
        proof {
            assert(self.moves@.take(n as int) =~= self.moves@);
        }
        match best {
            None => None,
            Some(b) => Some(&self.moves[b]),
        }
    }
}

} // verus!
