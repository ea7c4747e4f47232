//! The match snapshot and the frame pipeline.
//!
//! A [`GameState`] holds both players and the frame clock and nothing else:
//! it is the entire unit an external rollback scheduler snapshots, restores
//! and re-simulates.  [`GameState::tick`] advances it by exactly one frame as
//! a pure function of the snapshot, the per-player raw inputs already
//! injected, and the immutable character data — so identical inputs always
//! reproduce identical states, bit for bit.
//!
//! Within one tick the phases run in a fixed order (ground friction on the
//! carried-over velocities, animator pre-tick, state pre-tick, arbitration,
//! move matching, arbitration, state tick, arbitration, animator tick,
//! arbitration, physics, arbitration, hit registration, arbitration, clock),
//! and wherever order matters player 1 is processed before player 2.
//! Friction runs before any of this frame's state hooks, so a player walking
//! under a held direction leaves the tick at the full configured walk speed.

use vstd::prelude::*;

verus! {

use crate::animation::{
    Animation,
    AnimationV,
    AnimationName,
    HitboxInfo,
    HitboxPosition,
    anim_wf,
    id_resolves,
    info_of,
};
use crate::character::{
    BlockstunState,
    Character,
    CharacterDirection,
    CharacterProto,
    CharacterProtoV,
    CharacterState,
    Command,
    CommandV,
    Facing,
    HitstunState,
    StateTransitionRequest,
    StateTransitionRequests,
    best_request,
    character_dir_of,
    cmds_view,
    dir_is_backward,
    on_enter_cmds,
    on_exit_cmds,
    pre_tick_spec,
    proto_animation,
    proto_wf,
    state_priority,
    tick_cmds,
};
use crate::movelist::best_move_index;
use crate::input::{
    Action,
    BoxedInput,
    Button,
    InputEvent,
    InputHistory,
    InputKind,
    effective_dir,
    history_wf,
    input_dir_spec,
    is_pressed_spec,
};
use crate::movelist::{Attack, AttackV, Effect, Movelist, history_before};
use crate::fixed_point::{
    ArithmeticError,
    FixedPoint,
    Rect,
    Vec2,
    fp_add,
    fp_add_ok,
    fp_magnitude,
    fp_neg,
    fp_neg_ok,
    fp_sub,
    fp_sub_ok,
    vec2_scale,
    vec2_scale_ok,
    rect_offset,
    rect_offset_ok,
    rect_overlaps,
    vec2_add,
    vec2_add_ok,
};
use crate::time::{Frame, frame_ticked};

/// Which of the two players is meant.
#[derive(Debug, Clone, Copy, PartialEq, Eq, Structural)]
pub enum PlayerSide {
    Player1,
    Player2,
}

impl PlayerSide {
    /// The other player.
    pub fn reverse(self) -> (r: PlayerSide)
        ensures
            r == side_reverse(self),
    {
        match self {
            PlayerSide::Player1 => PlayerSide::Player2,
            PlayerSide::Player2 => PlayerSide::Player1,
        }
    }
}

/// The other player.
pub open spec fn side_reverse(s: PlayerSide) -> PlayerSide {
    match s {
        PlayerSide::Player1 => PlayerSide::Player2,
        PlayerSide::Player2 => PlayerSide::Player1,
    }
}

/// A region that deals damage while active, in character-local space.
#[derive(Debug, Clone, Copy, PartialEq, Eq, Structural)]
pub struct Hitbox {
    pub rect: Rect,
    /// Descriptive label from the animation's box declaration.
    pub tag: u32,
}

/// A region that receives damage while active, in character-local space.
#[derive(Debug, Clone, Copy, PartialEq, Eq, Structural)]
pub struct Hurtbox {
    pub rect: Rect,
    /// Descriptive label from the animation's box declaration.
    pub tag: u32,
}

/// One candidate contact found by hit registration: which side attacked,
/// which was hit, and the labels of the boxes that met.
#[derive(Debug, Clone, Copy, PartialEq, Eq, Structural)]
pub struct Hit {
    pub attacker: PlayerSide,
    pub target: PlayerSide,
    pub attacker_tag: u32,
    pub target_tag: u32,
}

/// Frame-accurate stepping through an animation: which animation plays (by
/// handle), the index of its current frame, when that frame began, an
/// optional state to request when the animation completes, and whether the
/// box geometry must be rebuilt.
#[derive(Debug, Clone, Copy, PartialEq, Eq, Structural)]
pub struct Animator {
    pub current_animation: AnimationName,
    pub current_frame: usize,
    pub last_change_frame: Frame,
    pub state_after_animation: Option<CharacterState>,
    pub update_hitboxes: bool,
}

/// The animator value right after switching to an animation.
pub open spec fn animator_switched(
    frame: Frame,
    name: AnimationName,
    state_after: Option<CharacterState>,
) -> Animator {
    Animator {
        current_animation: name,
        current_frame: 0,
        last_change_frame: frame,
        state_after_animation: state_after,
        update_hitboxes: true,
    }
}

/// An animator is well formed against a prototype at a clock value: its
/// frame index is inside its animation's table and its origin frame does not
/// lie ahead of the clock.
pub open spec fn animator_wf(a: Animator, proto: CharacterProtoV, now: Frame) -> bool {
    &&& a.current_frame < proto_animation(proto, a.current_animation).frame_data.len()
    &&& a.last_change_frame.frame_without_freeze <= now.frame_without_freeze
    &&& a.last_change_frame.frame_with_freeze <= now.frame_with_freeze
}

/// The animator's pre-tick: on the last frame of a finished animation with a
/// registered follow-up state, hand that state out as a forced-priority
/// request (and forget it); otherwise change nothing.
pub open spec fn animator_pre_tick_spec(a: Animator, anim: AnimationV, now: Frame) -> (
    Animator,
    Option<StateTransitionRequest>,
) {
    if a.current_frame + 1 >= anim.frame_data.len() && now.frame_without_freeze
        - a.last_change_frame.frame_without_freeze >= anim.frame_data[a.current_frame as int].delay {
        match a.state_after_animation {
            Some(s) => (
                Animator { state_after_animation: None, ..a },
                Some(StateTransitionRequest { state: s, insert_priority: usize::MAX }),
            ),
            None => (a, None),
        }
    } else {
        (a, None)
    }
}

/// The animator after one tick: once the current frame's delay has elapsed
/// in unfrozen frames, advance to the next frame (wrapping to the start) and
/// mark the geometry dirty.
pub open spec fn animator_advanced(a: Animator, anim: AnimationV, now: Frame) -> Animator {
    if now.frame_without_freeze - a.last_change_frame.frame_without_freeze >= anim.frame_data[a.current_frame as int].delay {
        Animator {
            current_frame: if a.current_frame + 1 >= anim.frame_data.len() {
                0
            } else {
                (a.current_frame + 1) as usize
            },
            last_change_frame: now,
            update_hitboxes: true,
            ..a
        }
    } else {
        a
    }
}

/// A box rectangle mirrored across the character's vertical axis.
pub open spec fn flip_rect(r: Rect) -> Rect {
    Rect {
        min: Vec2 { x: FixedPoint((-r.max.x.0) as i32), y: r.min.y },
        max: Vec2 { x: FixedPoint((-r.min.x.0) as i32), y: r.max.y },
    }
}

/// The character-local rectangle of one box placement under a facing.
pub open spec fn placed_rect(b: HitboxPosition, facing: Facing) -> Rect {
    let r = Rect { min: b.pos, max: vec2_add(b.pos, b.size) };
    if facing == Facing::Left {
        flip_rect(r)
    } else {
        r
    }
}

/// The hitboxes and hurtboxes an animation frame activates, in placement
/// order: each enabled placement becomes one box, sorted to the hurtbox or
/// hitbox list by its declaration.
pub open spec fn built_boxes(
    boxes: Seq<HitboxPosition>,
    infos: Seq<HitboxInfo>,
    facing: Facing,
) -> (Seq<Hitbox>, Seq<Hurtbox>)
    decreases boxes.len(),
{
    if boxes.len() == 0 {
        (Seq::empty(), Seq::empty())
    } else {
        let (hit, hurt) = built_boxes(boxes.drop_last(), infos, facing);
        let b = boxes.last();
        if !b.enabled {
            (hit, hurt)
        } else {
            let info = info_of(infos, b.id);
            let rect = placed_rect(b, facing);
            if info.is_hurtbox {
                (hit, hurt.push(Hurtbox { rect, tag: info.tag }))
            } else {
                (hit.push(Hitbox { rect, tag: info.tag }), hurt)
            }
        }
    }
}

/// The animator and box lists after a full animator tick: advance if due,
/// then rebuild the geometry if it is dirty (clearing the dirty flag), else
/// keep the lists.
pub open spec fn animator_tick_spec(
    a: Animator,
    anim: AnimationV,
    facing: Facing,
    hitboxes: Seq<Hitbox>,
    hurtboxes: Seq<Hurtbox>,
    now: Frame,
) -> (Animator, Seq<Hitbox>, Seq<Hurtbox>) {
    let a2 = animator_advanced(a, anim, now);
    if a2.update_hitboxes {
        let (hit, hurt) = built_boxes(
            anim.frame_data[a2.current_frame as int].hitboxes,
            anim.hitboxes,
            facing,
        );
        (Animator { update_hitboxes: false, ..a2 }, hit, hurt)
    } else {
        (a2, hitboxes, hurtboxes)
    }
}

/// In a duplicate-free declaration table, any entry carrying an identifier
/// is the entry that identifier resolves to.
proof fn lemma_info_of_unique(infos: Seq<HitboxInfo>, j: int)
    requires
        crate::animation::ids_unique(infos),
        0 <= j < infos.len(),
    ensures
        info_of(infos, infos[j].id) == infos[j],
{
    let id = infos[j].id;
    assert(id_resolves(infos, id));
    let j2 = choose|j2: int| 0 <= j2 < infos.len() && #[trigger] infos[j2].id == id;
    if j2 < j {
        assert(infos[j2].id != infos[j].id);
    } else if j < j2 {
        assert(infos[j].id != infos[j2].id);
    }
}

impl Animator {
    /// The animator at match start or right after an animation switch.
    pub fn new(current_frame: Frame, initial_animation: AnimationName) -> (r: Animator)
        ensures
            r == animator_switched(current_frame, initial_animation, None),
    {
        Animator {
            current_animation: initial_animation,
            current_frame: 0,
            last_change_frame: current_frame,
            state_after_animation: None,
            update_hitboxes: true,
        }
    }

    /// Switches to an animation: frame index back to the start, origin frame
    /// now, geometry dirty, and the follow-up state replaced.
    pub fn switch_animation(
        &mut self,
        frame: Frame,
        new_animation: AnimationName,
        state_after: Option<CharacterState>,
    )
        ensures
            *final(self) == animator_switched(frame, new_animation, state_after),
    {
        self.current_animation = new_animation;
        self.current_frame = 0;
        self.last_change_frame = frame;
        self.state_after_animation = state_after;
        self.update_hitboxes = true;
    }

    /// Switches only when that animation is not already the one playing.
    pub fn make_sure_animation(
        &mut self,
        frame: Frame,
        animation: AnimationName,
        state_after: Option<CharacterState>,
    )
        ensures
            old(self).current_animation == animation ==> *final(self) == *old(self),
            old(self).current_animation != animation ==> *final(self) == animator_switched(
                frame,
                animation,
                state_after,
            ),
    {
        if self.current_animation != animation {
            self.switch_animation(frame, animation, state_after);
        }
    }

    /// Emits the end-of-animation transition request, if one is due now.
    pub fn pre_tick(&mut self, anim: &Animation, current_frame: Frame) -> (r: Option<
        StateTransitionRequest,
    >)
        requires
            old(self).current_frame < anim@.frame_data.len(),
            old(self).last_change_frame.frame_without_freeze
                <= current_frame.frame_without_freeze,
        ensures
            *final(self) == animator_pre_tick_spec(*old(self), anim@, current_frame).0,
            r == animator_pre_tick_spec(*old(self), anim@, current_frame).1,
    {
        let n_frames = anim.frame_data.len();
        if self.current_frame + 1 >= n_frames && current_frame.since_without_freeze(
            self.last_change_frame,
        ) >= anim.frame_data[self.current_frame].delay {
            match self.state_after_animation {
                Some(s) => {
                    self.state_after_animation = None;
                    Some(StateTransitionRequest { state: s, insert_priority: usize::MAX })
                },
                None => None,
            }
        } else {
            None
        }
    }

    /// Advances the animation if its current frame's delay has elapsed, and
    /// rebuilds the owning player's box geometry when it is dirty.
    pub fn tick(
        &mut self,
        facing: Facing,
        hitboxes: &mut Vec<Hitbox>,
        hurtboxes: &mut Vec<Hurtbox>,
        anim: &Animation,
        current_frame: Frame,
    )
        requires
            anim_wf(anim@),
            old(self).current_frame < anim@.frame_data.len(),
            old(self).last_change_frame.frame_without_freeze
                <= current_frame.frame_without_freeze,
        ensures
            ({
                let (a2, hit, hurt) = animator_tick_spec(
                    *old(self),
                    anim@,
                    facing,
                    old(hitboxes)@,
                    old(hurtboxes)@,
                    current_frame,
                );
                *final(self) == a2 && final(hitboxes)@ == hit && final(hurtboxes)@ == hurt
            }),
            final(self).current_frame < anim@.frame_data.len(),
            final(self).last_change_frame.frame_without_freeze
                <= current_frame.frame_without_freeze,
    {
        let n_frames = anim.frame_data.len();
        if current_frame.since_without_freeze(self.last_change_frame) >= anim.frame_data[self.current_frame].delay {
            self.last_change_frame = current_frame;
            if self.current_frame + 1 >= n_frames {
                self.current_frame = 0;
            } else {
                self.current_frame = self.current_frame + 1;
            }
            self.update_hitboxes = true;
        }
        if self.update_hitboxes {
            let ghost a2 = *self;
            hitboxes.clear();
            hurtboxes.clear();
            let frame = &anim.frame_data[self.current_frame];
            let n = frame.hitboxes.len();
            let mut k: usize = 0;
            while k < n
                invariant
                    k <= n == frame.hitboxes@.len(),
                    anim_wf(anim@),
                    a2.current_frame < anim@.frame_data.len(),
                    frame == &anim.frame_data@[a2.current_frame as int],
                    frame@ == anim@.frame_data[a2.current_frame as int],
                    ({
                        let (hit, hurt) = built_boxes(
                            frame.hitboxes@.take(k as int),
                            anim@.hitboxes,
                            facing,
                        );
                        hitboxes@ == hit && hurtboxes@ == hurt
                    }),
                decreases n - k,
            {
                proof {
                    assert(frame.hitboxes@.take(k + 1).drop_last() =~= frame.hitboxes@.take(
                        k as int,
                    ));
                    assert(frame.hitboxes@.take(k + 1).last() == frame.hitboxes@[k as int]);
                    assert(anim@.frame_data[a2.current_frame as int].hitboxes[k as int]
                        == frame.hitboxes@[k as int]);
                }
                let b = frame.hitboxes[k];
                if b.enabled {
                    let far_x = match b.pos.x.checked_add(b.size.x) {
                        Ok(v) => v,
                        Err(_) => FixedPoint(0),
                    };
                    let far_y = match b.pos.y.checked_add(b.size.y) {
                        Ok(v) => v,
                        Err(_) => FixedPoint(0),
                    };
                    let mut rect = Rect {
                        min: b.pos,
                        max: Vec2 { x: far_x, y: far_y },
                    };
                    if matches!(facing, Facing::Left) {
                        let min_x = rect.min.x;
                        let max_x = rect.max.x;
                        rect.min.x = FixedPoint(-max_x.0);
                        rect.max.x = FixedPoint(-min_x.0);
                    }
                    let mut j: usize = 0;
                    let n_info = anim.hitboxes.len();
                    let mut found: Option<HitboxInfo> = None;
                    while j < n_info
                        invariant
                            j <= n_info == anim.hitboxes@.len(),
                            anim_wf(anim@),
                            match found {
                                None => forall|j2: int|
                                    0 <= j2 < j ==> #[trigger] anim.hitboxes@[j2].id != b.id,
                                Some(info) => exists|j2: int|
                                    0 <= j2 < j && #[trigger] anim.hitboxes@[j2] == info
                                        && info.id == b.id,
                            },
                        decreases n_info - j,
                    {
                        if found.is_none() && anim.hitboxes[j].id == b.id {
                            found = Some(anim.hitboxes[j]);
                        }
                        j = j + 1;
                    }
                    match found {
                        Some(info) => {
                            proof {
                                let j2 = choose|j2: int|
                                    0 <= j2 < anim.hitboxes@.len() && #[trigger] anim.hitboxes@[j2]
                                        == info && info.id == b.id;
                                lemma_info_of_unique(anim@.hitboxes, j2);
                                assert(info_of(anim@.hitboxes, b.id) == info);
                                assert(rect == placed_rect(b, facing));
                            }
                            if info.is_hurtbox {
                                hurtboxes.push(Hurtbox { rect, tag: info.tag });
                            } else {
                                hitboxes.push(Hitbox { rect, tag: info.tag });
                            }
                        },
                        None => {
                            proof {
                                assert(id_resolves(anim@.hitboxes, b.id));
                                let j2 = choose|j2: int|
                                    0 <= j2 < anim@.hitboxes.len() && #[trigger] anim@.hitboxes[j2].id
                                        == b.id;
                                assert(anim.hitboxes@[j2].id == b.id);
                                assert(false);
                            }
                        },
                    }
                }
                k = k + 1;
            }
            proof {
                assert(frame.hitboxes@.take(n as int) =~= frame.hitboxes@);
            }
            self.update_hitboxes = false;
        }
    }
}

/// The static data of a match: the character prototypes.  Read-only for the
/// match's whole duration and deliberately outside the snapshot.
#[derive(Debug)]
pub struct GameInfo {
    pub guy: CharacterProto,
}

/// Mathematical image of a [`GameInfo`].
pub struct GameInfoV {
    pub guy: CharacterProtoV,
}

impl View for GameInfo {
    type V = GameInfoV;

    open spec fn view(&self) -> GameInfoV {
        GameInfoV { guy: self.guy@ }
    }
}

/// The prototype of a character.
pub open spec fn proto_of(info: GameInfoV, c: Character) -> CharacterProtoV {
    match c {
        Character::Guy => info.guy,
    }
}

/// Well-formedness of the static data: every prototype is well formed.
pub open spec fn info_wf(info: GameInfoV) -> bool {
    proto_wf(info.guy)
}

impl GameInfo {
    /// Bundles the static character data of a match.
    pub fn new(guy: CharacterProto) -> (r: GameInfo)
        ensures
            r@ == (GameInfoV { guy: guy@ }),
    {
        GameInfo { guy }
    }

    /// Looks a character's prototype up.
    pub fn proto(&self, c: Character) -> (r: &CharacterProto)
        ensures
            r@ == proto_of(self@, c),
    {
        match c {
            Character::Guy => &self.guy,
        }
    }
}


/// One fighter's complete, self-contained simulation state.
#[derive(Debug, PartialEq)]
pub struct Player {
    pub health: FixedPoint,
    pub position: Vec2,
    pub velocity: Vec2,
    pub character: Character,
    /// Raw input of the previous frame, for edge detection.
    pub last_input: BoxedInput,
    pub input_history: InputHistory,
    pub animator: Animator,
    pub current_state: CharacterState,
    pub state_transition_requests: StateTransitionRequests,
    /// Frame-local geometry derived from the active animation frame.
    pub hurtboxes: Vec<Hurtbox>,
    /// Frame-local geometry derived from the active animation frame.
    pub hitboxes: Vec<Hitbox>,
    pub current_attack: Option<Attack>,
    pub facing: Facing,
    pub grounded: bool,
}

/// Mathematical image of a [`Player`].
pub struct PlayerV {
    pub health: FixedPoint,
    pub position: Vec2,
    pub velocity: Vec2,
    pub character: Character,
    pub last_input: BoxedInput,
    pub input_history: Seq<InputEvent>,
    pub animator: Animator,
    pub current_state: CharacterState,
    pub state_transition_requests: Seq<StateTransitionRequest>,
    pub hurtboxes: Seq<Hurtbox>,
    pub hitboxes: Seq<Hitbox>,
    pub current_attack: Option<AttackV>,
    pub facing: Facing,
    pub grounded: bool,
}

impl View for Player {
    type V = PlayerV;

    open spec fn view(&self) -> PlayerV {
        PlayerV {
            health: self.health,
            position: self.position,
            velocity: self.velocity,
            character: self.character,
            last_input: self.last_input,
            input_history: self.input_history.events@,
            animator: self.animator,
            current_state: self.current_state,
            state_transition_requests: self.state_transition_requests.requests@,
            hurtboxes: self.hurtboxes@,
            hitboxes: self.hitboxes@,
            current_attack: match self.current_attack {
                Some(a) => Some(a@),
                None => None,
            },
            facing: self.facing,
            grounded: self.grounded,
        }
    }
}

/// A player is well formed against its prototype at a clock value: animator
/// inside its animation, input history ordered and not ahead of the clock.
pub open spec fn player_wf(p: PlayerV, proto: CharacterProtoV, now: Frame) -> bool {
    &&& animator_wf(p.animator, proto, now)
    &&& history_wf(p.input_history)
    &&& history_before(p.input_history, now)
}

/// One deferred command applied to a player at the current frame.
pub open spec fn apply_command(p: PlayerV, c: CommandV, now: Frame) -> PlayerV {
    match c {
        CommandV::SetVelocityX(v) => PlayerV { velocity: Vec2 { x: v, y: p.velocity.y }, ..p },
        CommandV::SetVelocityY(v) => PlayerV { velocity: Vec2 { x: p.velocity.x, y: v }, ..p },
        CommandV::SwitchAnimation(name, after) => PlayerV {
            animator: animator_switched(now, name, after),
            ..p
        },
        CommandV::MakeSureAnimation(name, after) => if p.animator.current_animation == name {
            p
        } else {
            PlayerV { animator: animator_switched(now, name, after), ..p }
        },
        CommandV::AddTransitionRequest(req) => PlayerV {
            state_transition_requests: p.state_transition_requests.push(req),
            ..p
        },
        CommandV::SetAttack(a) => PlayerV { current_attack: Some(a), ..p },
        CommandV::ClearAttack => PlayerV { current_attack: None, ..p },
    }
}

/// A command list applied to a player in order.
pub open spec fn apply_commands(p: PlayerV, cs: Seq<CommandV>, now: Frame) -> PlayerV
    decreases cs.len(),
{
    if cs.len() == 0 {
        p
    } else {
        apply_commands(apply_command(p, cs.first(), now), cs.drop_first(), now)
    }
}

/// Applying commands keeps a player well formed, since an animation switch
/// lands on frame index zero of a well-formed animation at the current
/// frame.
pub proof fn lemma_apply_commands_wf(p: PlayerV, cs: Seq<CommandV>, proto: CharacterProtoV, now: Frame)
    requires
        proto_wf(proto),
        animator_wf(p.animator, proto, now),
    ensures
        animator_wf(apply_commands(p, cs, now).animator, proto, now),
        apply_commands(p, cs, now).input_history == p.input_history,
        apply_commands(p, cs, now).current_state == p.current_state,
    decreases cs.len(),
{
    if cs.len() > 0 {
        lemma_apply_commands_wf(apply_command(p, cs.first(), now), cs.drop_first(), proto, now);
    }
}

/// Applies a hook's command list to the player that owns the hook.
fn apply_commands_to(player: &mut Player, cmds: &Vec<Command>, now: Frame)
    ensures
        final(player)@ == apply_commands(old(player)@, cmds_view(cmds@), now),
{
    let n = cmds.len();
    let mut i: usize = 0;
    proof {
        assert(cmds_view(cmds@).skip(0) =~= cmds_view(cmds@));
    }
    while i < n
        invariant
            i <= n == cmds@.len(),
            apply_commands(old(player)@, cmds_view(cmds@), now) == apply_commands(
                player@,
                cmds_view(cmds@).skip(i as int),
                now,
            ),
        decreases n - i,
    {
        proof {
            let rest = cmds_view(cmds@).skip(i as int);
            assert(rest.first() == cmds@[i as int]@);
            assert(rest.drop_first() =~= cmds_view(cmds@).skip(i + 1));
        }
        match &cmds[i] {
            Command::SetVelocityX(v) => {
                player.velocity.x = *v;
            },
            Command::SetVelocityY(v) => {
                player.velocity.y = *v;
            },
            Command::SwitchAnimation(name, after) => {
                player.animator.switch_animation(now, *name, *after);
            },
            Command::MakeSureAnimation(name, after) => {
                player.animator.make_sure_animation(now, *name, *after);
            },
            Command::AddTransitionRequest(req) => {
                player.state_transition_requests.add(*req);
            },
            Command::SetAttack(a) => {
                player.current_attack = Some(a.clone());
            },
            Command::ClearAttack => {
                player.current_attack = None;
            },
        }
        i = i + 1;
    }
    proof {
        assert(cmds_view(cmds@).skip(n as int) =~= Seq::<CommandV>::empty());
    }
}

/// The input edges one frame of raw input produces against the previous
/// frame's raw input: a direction-class change logs the old class released
/// and the new one pressed; each attack button logs its press or release
/// transition.
pub open spec fn input_edge_events(last: BoxedInput, new: BoxedInput, now: Frame) -> Seq<InputEvent> {
    let dir_events: Seq<InputEvent> = if input_dir_spec(last) != input_dir_spec(new) {
        seq![
            InputEvent {
                frame: now,
                kind: InputKind::Direction(input_dir_spec(last)),
                pressed: false,
            },
            InputEvent { frame: now, kind: InputKind::Direction(input_dir_spec(new)), pressed: true },
        ]
    } else {
        seq![]
    };
    let punch_events: Seq<InputEvent> = if is_pressed_spec(last, Action::Punch) != is_pressed_spec(
        new,
        Action::Punch,
    ) {
        seq![
            InputEvent {
                frame: now,
                kind: InputKind::Button(Button::Punch),
                pressed: is_pressed_spec(new, Action::Punch),
            },
        ]
    } else {
        seq![]
    };
    let kick_events: Seq<InputEvent> = if is_pressed_spec(last, Action::Kick) != is_pressed_spec(
        new,
        Action::Kick,
    ) {
        seq![
            InputEvent {
                frame: now,
                kind: InputKind::Button(Button::Kick),
                pressed: is_pressed_spec(new, Action::Kick),
            },
        ]
    } else {
        seq![]
    };
    dir_events + punch_events + kick_events
}

/// Whether a player is currently judged blocking: in blockstun, or idle
/// while effectively holding a backward direction relative to facing.
pub open spec fn is_blocking_spec(p: PlayerV) -> bool {
    ||| p.current_state is Blockstun
    ||| (p.current_state is Idle && dir_is_backward(
        character_dir_of(effective_dir(p.input_history), p.facing),
    ))
}

/// One effect of a hit applied to the target player: damage subtracts
/// health (which may go negative; there is no defeat rule in the core),
/// stun effects and a forced state change submit forced-priority transition
/// requests, and knockback points the horizontal velocity away from the
/// target's own facing.  `None` means the arithmetic left the fixed-point
/// range.
pub open spec fn apply_effect_spec(p: PlayerV, e: Effect) -> Option<PlayerV> {
    match e {
        Effect::Damage(amt) => if fp_sub_ok(p.health, amt) {
            Some(PlayerV { health: fp_sub(p.health, amt), ..p })
        } else {
            None
        },
        Effect::Hitstun(amt) => Some(
            PlayerV {
                state_transition_requests: p.state_transition_requests.push(
                    StateTransitionRequest {
                        state: CharacterState::Hitstun(HitstunState(amt)),
                        insert_priority: usize::MAX,
                    },
                ),
                ..p
            },
        ),
        Effect::Blockstun(amt) => Some(
            PlayerV {
                state_transition_requests: p.state_transition_requests.push(
                    StateTransitionRequest {
                        state: CharacterState::Blockstun(BlockstunState(amt)),
                        insert_priority: usize::MAX,
                    },
                ),
                ..p
            },
        ),
        Effect::Knockback(amount) => match p.facing {
            Facing::Left => Some(PlayerV { velocity: Vec2 { x: amount, y: p.velocity.y }, ..p }),
            Facing::Right => if fp_neg_ok(amount) {
                Some(PlayerV { velocity: Vec2 { x: fp_neg(amount), y: p.velocity.y }, ..p })
            } else {
                None
            },
        },
        Effect::StateChange(s) => Some(
            PlayerV {
                state_transition_requests: p.state_transition_requests.push(
                    StateTransitionRequest { state: s, insert_priority: usize::MAX },
                ),
                ..p
            },
        ),
    }
}

impl Player {
    /// Feeds one frame of raw input: logs the edges against the previous
    /// frame's raw input and remembers the new input for the next edge
    /// detection.
    pub fn input(&mut self, frame: Frame, input: BoxedInput)
        requires
            history_wf(old(self).input_history.events@),
            history_before(old(self).input_history.events@, frame),
        ensures
            final(self)@ == (PlayerV {
                last_input: input,
                input_history: old(self)@.input_history + input_edge_events(
                    old(self).last_input,
                    input,
                    frame,
                ),
                ..old(self)@
            }),
            history_wf(final(self).input_history.events@),
            history_before(final(self).input_history.events@, frame),
    {
        let last_input = self.last_input;
        let last_dir = last_input.input_dir();
        let new_dir = input.input_dir();
        if last_dir != new_dir {
            self.input_history.add(
                InputEvent { frame, kind: InputKind::Direction(last_dir), pressed: false },
            );
            self.input_history.add(
                InputEvent { frame, kind: InputKind::Direction(new_dir), pressed: true },
            );
        }
        let last_punch = self.last_input.is_pressed(Action::Punch);
        let new_punch = input.is_pressed(Action::Punch);
        let last_kick = self.last_input.is_pressed(Action::Kick);
        let new_kick = input.is_pressed(Action::Kick);
        if last_punch != new_punch {
            self.input_history.add(
                InputEvent { frame, kind: InputKind::Button(Button::Punch), pressed: new_punch },
            );
        }
        if last_kick != new_kick {
            self.input_history.add(
                InputEvent { frame, kind: InputKind::Button(Button::Kick), pressed: new_kick },
            );
        }
        self.last_input = input;
        proof {
            assert(self.input_history.events@ =~= old(self)@.input_history + input_edge_events(
                old(self).last_input,
                input,
                frame,
            ));
        }
    }

    /// Whether this player is currently judged blocking: in blockstun, or
    /// idle while effectively holding backward relative to facing.
    pub fn is_blocking(&self, frame: Frame) -> (r: bool)
        ensures
            r == is_blocking_spec(self@),
    {
        if matches!(&self.current_state, CharacterState::Blockstun(_)) {
            return true;
        }
        if matches!(&self.current_state, CharacterState::Idle(_)) {
            let it = self.input_history.iter(0, frame);
            let dir = it.input_dir_as_of_here();
            proof {
                assert(self.input_history.events@.take(self.input_history.events@.len() as int)
                    =~= self.input_history.events@);
            }
            if CharacterDirection::from_input_dir(dir, self.facing).is_backward() {
                return true;
            }
        }
        false
    }

    /// Applies one effect of a hit to this player, or reports the
    /// fixed-point overflow; on an error the player is unchanged.
    pub fn apply_effect(&mut self, effect: &Effect) -> (r: Result<(), ArithmeticError>)
        ensures
            match apply_effect_spec(old(self)@, *effect) {
                Some(p2) => r is Ok && final(self)@ == p2,
                None => r == Err::<(), ArithmeticError>(ArithmeticError::Overflow) && *final(self)
                    == *old(self),
            },
    {
        match effect {
            Effect::Damage(amt) => {
                match self.health.checked_sub(*amt) {
                    Ok(h) => {
                        self.health = h;
                        Ok(())
                    },
                    Err(e) => Err(e),
                }
            },
            Effect::Hitstun(amt) => {
                self.state_transition_requests.add(
                    StateTransitionRequest {
                        state: HitstunState(*amt).wrap(),
                        insert_priority: usize::MAX,
                    },
                );
                Ok(())
            },
            Effect::Blockstun(amt) => {
                self.state_transition_requests.add(
                    StateTransitionRequest {
                        state: BlockstunState(*amt).wrap(),
                        insert_priority: usize::MAX,
                    },
                );
                Ok(())
            },
            Effect::Knockback(amount) => {
                match self.facing {
                    Facing::Left => {
                        self.velocity.x = *amount;
                        Ok(())
                    },
                    Facing::Right => {
                        match amount.checked_neg() {
                            Ok(v) => {
                                self.velocity.x = v;
                                Ok(())
                            },
                            Err(e) => Err(e),
                        }
                    },
                }
            },
            Effect::StateChange(s) => {
                self.state_transition_requests.add(
                    StateTransitionRequest { state: *s, insert_priority: usize::MAX },
                );
                Ok(())
            },
        }
    }
}

impl Clone for Player {
    /// An exact deep copy, suitable as a rollback snapshot.
    fn clone(&self) -> (res: Self)
        ensures
            res@ == self@,
    {
        Player {
            health: self.health,
            position: self.position,
            velocity: self.velocity,
            character: self.character,
            last_input: self.last_input,
            input_history: self.input_history.clone(),
            animator: self.animator,
            current_state: self.current_state,
            state_transition_requests: StateTransitionRequests {
                requests: copy_requests(&self.state_transition_requests.requests),
            },
            hurtboxes: copy_hurtboxes(&self.hurtboxes),
            hitboxes: copy_hitboxes(&self.hitboxes),
            current_attack: match &self.current_attack {
                Some(a) => Some(a.clone()),
                None => None,
            },
            facing: self.facing,
            grounded: self.grounded,
        }
    }
}

/// An exact copy of a request list.
fn copy_requests(v: &Vec<StateTransitionRequest>) -> (r: Vec<StateTransitionRequest>)
    ensures
        r@ == v@,
{
    let mut r: Vec<StateTransitionRequest> = Vec::new();
    let n = v.len();
    let mut i: usize = 0;
    while i < n
        invariant
            i <= n == v@.len(),
            r@ == v@.take(i as int),
        decreases n - i,
    {
        r.push(v[i]);
        proof {
            assert(r@ =~= v@.take(i + 1));
        }
        i = i + 1;
    }
    proof {
        assert(v@.take(n as int) =~= v@);
    }
    r
}

/// An exact copy of a hurtbox list.
fn copy_hurtboxes(v: &Vec<Hurtbox>) -> (r: Vec<Hurtbox>)
    ensures
        r@ == v@,
{
    let mut r: Vec<Hurtbox> = Vec::new();
    let n = v.len();
    let mut i: usize = 0;
    while i < n
        invariant
            i <= n == v@.len(),
            r@ == v@.take(i as int),
        decreases n - i,
    {
        r.push(v[i]);
        proof {
            assert(r@ =~= v@.take(i + 1));
        }
        i = i + 1;
    }
    proof {
        assert(v@.take(n as int) =~= v@);
    }
    r
}

/// An exact copy of a hitbox list.
fn copy_hitboxes(v: &Vec<Hitbox>) -> (r: Vec<Hitbox>)
    ensures
        r@ == v@,
{
    let mut r: Vec<Hitbox> = Vec::new();
    let n = v.len();
    let mut i: usize = 0;
    while i < n
        invariant
            i <= n == v@.len(),
            r@ == v@.take(i as int),
        decreases n - i,
    {
        r.push(v[i]);
        proof {
            assert(r@ =~= v@.take(i + 1));
        }
        i = i + 1;
    }
    proof {
        assert(v@.take(n as int) =~= v@);
    }
    r
}


/// The whole rollback snapshot: both players and the frame clock.
#[derive(Debug, PartialEq)]
pub struct GameState {
    pub player_1: Player,
    pub player_2: Player,
    pub current_frame: Frame,
}

/// Mathematical image of a [`GameState`].
pub struct GameStateV {
    pub player_1: PlayerV,
    pub player_2: PlayerV,
    pub current_frame: Frame,
}

impl View for GameState {
    type V = GameStateV;

    open spec fn view(&self) -> GameStateV {
        GameStateV {
            player_1: self.player_1@,
            player_2: self.player_2@,
            current_frame: self.current_frame,
        }
    }
}

/// The player on a side.
pub open spec fn get_player(g: GameStateV, side: PlayerSide) -> PlayerV {
    match side {
        PlayerSide::Player1 => g.player_1,
        PlayerSide::Player2 => g.player_2,
    }
}

/// The snapshot with the player on a side replaced.
pub open spec fn set_player(g: GameStateV, side: PlayerSide, p: PlayerV) -> GameStateV {
    match side {
        PlayerSide::Player1 => GameStateV { player_1: p, ..g },
        PlayerSide::Player2 => GameStateV { player_2: p, ..g },
    }
}

/// A snapshot is well formed against the static data: the data validates
/// and both players are well formed at the current frame.
pub open spec fn game_wf(g: GameStateV, info: GameInfoV) -> bool {
    &&& info_wf(info)
    &&& player_wf(g.player_1, proto_of(info, g.player_1.character), g.current_frame)
    &&& player_wf(g.player_2, proto_of(info, g.player_2.character), g.current_frame)
}

/// Animator pre-tick phase of one player: an end-of-animation follow-up
/// state becomes a forced-priority transition request.
pub open spec fn spec_animator_pre(p: PlayerV, proto: CharacterProtoV, now: Frame) -> PlayerV {
    let pair = animator_pre_tick_spec(
        p.animator,
        proto_animation(proto, p.animator.current_animation),
        now,
    );
    match pair.1 {
        Some(req) => PlayerV {
            animator: pair.0,
            state_transition_requests: p.state_transition_requests.push(req),
            ..p
        },
        None => PlayerV { animator: pair.0, ..p },
    }
}

/// State pre-tick phase of one player: the state's pre-tick hook runs and
/// its commands are applied.
pub open spec fn spec_player_pre_tick(p: PlayerV, now: Frame) -> PlayerV {
    let pair = pre_tick_spec(p.current_state);
    apply_commands(PlayerV { current_state: pair.0, ..p }, pair.1, now)
}

/// Transition arbitration of one player: the accumulator is emptied, and
/// only a request strictly beating the active state's priority is applied —
/// running the old state's exit hook, swapping states, then the new state's
/// enter hook, each hook's commands applied immediately.
pub open spec fn spec_player_transition(p: PlayerV, now: Frame) -> PlayerV {
    let best = best_request(p.state_transition_requests);
    let drained = PlayerV { state_transition_requests: Seq::empty(), ..p };
    match best {
        None => drained,
        Some(req) => if req.insert_priority > state_priority(drained.current_state) {
            let exited = apply_commands(drained, on_exit_cmds(drained.current_state), now);
            let swapped = PlayerV { current_state: req.state, ..exited };
            apply_commands(swapped, on_enter_cmds(req.state), now)
        } else {
            drained
        },
    }
}

/// Move-matching phase of one player: the selected move requests its
/// resulting state at that state's own priority, and zeroes the velocity if
/// it stops momentum.
pub open spec fn spec_player_moves(p: PlayerV, moves: Seq<crate::movelist::Move>, now: Frame) -> PlayerV {
    match best_move_index(moves, now, p.current_state, p.input_history) {
        None => p,
        Some(i) => {
            let m = moves[i];
            let requested = PlayerV {
                state_transition_requests: p.state_transition_requests.push(
                    StateTransitionRequest {
                        state: m.new_state,
                        insert_priority: state_priority(m.new_state),
                    },
                ),
                ..p
            };
            if m.stops_momentum {
                PlayerV { velocity: Vec2 { x: FixedPoint(0), y: FixedPoint(0) }, ..requested }
            } else {
                requested
            }
        },
    }
}

/// State tick phase of one player: the state's tick hook runs against the
/// input history and its commands are applied.
pub open spec fn spec_player_tick(p: PlayerV, now: Frame) -> PlayerV {
    apply_commands(p, tick_cmds(p.current_state, p.input_history), now)
}

/// Animator tick phase of one player: timing advances and the frame-local
/// box geometry is rebuilt when dirty.
pub open spec fn spec_player_animator_tick(p: PlayerV, proto: CharacterProtoV, now: Frame) -> PlayerV {
    let triple = animator_tick_spec(
        p.animator,
        proto_animation(proto, p.animator.current_animation),
        p.facing,
        p.hitboxes,
        p.hurtboxes,
        now,
    );
    PlayerV { animator: triple.0, hitboxes: triple.1, hurtboxes: triple.2, ..p }
}

/// Friction phase of one player: a grounded player's horizontal velocity
/// decays one step toward rest.  This runs at the start of a tick, on the
/// velocity carried over from the previous frame, before any of this frame's
/// state hooks set new velocities — so a held walk direction leaves the tick
/// at the full configured walk speed.  `None` means the one unrepresentable
/// magnitude was met.
pub open spec fn spec_player_friction(p: PlayerV) -> Option<PlayerV> {
    if p.grounded {
        let vx = p.velocity.x;
        if vx.0 == i32::MIN {
            None
        } else {
            let vx2 = if fp_magnitude(vx) <= DECCEL_RAW {
                FixedPoint(0)
            } else if vx.0 > 0 {
                fp_sub(vx, FixedPoint(DECCEL_RAW))
            } else {
                fp_add(vx, FixedPoint(DECCEL_RAW))
            };
            Some(PlayerV { velocity: Vec2 { x: vx2, y: p.velocity.y }, ..p })
        }
    } else {
        Some(p)
    }
}

/// Physics phase of one player: integrate position by the fixed step, apply
/// gravity, and clamp to the ground (landing forces idle over an airborne
/// state).  `None` means the fixed-point arithmetic left the representable
/// range.
pub open spec fn spec_player_physics(p: PlayerV) -> Option<PlayerV> {
    let delta = FixedPoint(PHYSICS_DELTA_RAW);
    if !vec2_scale_ok(p.velocity, delta) {
        None
    } else if !vec2_add_ok(p.position, vec2_scale(p.velocity, delta)) {
        None
    } else if !fp_add_ok(p.velocity.y, FixedPoint(GRAVITY_STEP_RAW)) {
        None
    } else {
        let moved = vec2_add(p.position, vec2_scale(p.velocity, delta));
        let vy = fp_add(p.velocity.y, FixedPoint(GRAVITY_STEP_RAW));
        let landed = moved.y.0 > 0;
        let position = if landed {
            Vec2 { x: moved.x, y: FixedPoint(0) }
        } else {
            moved
        };
        let vy2 = if landed {
            FixedPoint(0)
        } else {
            vy
        };
        let grounded = if landed {
            true
        } else if moved.y.0 < 0 {
            false
        } else {
            p.grounded
        };
        let requests = if landed && p.current_state is Airborne {
            p.state_transition_requests.push(
                StateTransitionRequest {
                    state: CharacterState::Idle(crate::character::IdleState),
                    insert_priority: LANDING_PRIORITY,
                },
            )
        } else {
            p.state_transition_requests
        };
        Some(
            PlayerV {
                position,
                velocity: Vec2 { x: p.velocity.x, y: vy2 },
                grounded,
                state_transition_requests: requests,
                ..p
            },
        )
    }
}

/// Fixed integration step in raw fixed-point units: one 60th of a second.
pub const PHYSICS_DELTA_RAW: i32 = 4;

/// Gravity per step in raw fixed-point units: 400 units per second, scaled
/// by the step.
pub const GRAVITY_STEP_RAW: i32 = 1600;

/// Grounded deceleration per step in raw fixed-point units: 100 units per
/// second, scaled by the step.
pub const DECCEL_RAW: i32 = 400;

/// Insertion priority of the forced idle transition on landing.
pub const LANDING_PRIORITY: usize = 10000;

/// Every hitbox of the attacker and hurtbox of the target can be translated
/// to world space, whenever there is at least one of each (with either list
/// empty no translation is attempted).
pub open spec fn boxes_offsets_ok(attacker: PlayerV, target: PlayerV) -> bool {
    (attacker.hitboxes.len() > 0 && target.hurtboxes.len() > 0) ==> {
        &&& forall|i: int|
            0 <= i < attacker.hitboxes.len() ==> rect_offset_ok(
                #[trigger] attacker.hitboxes[i].rect,
                attacker.position,
            )
        &&& forall|j: int|
            0 <= j < target.hurtboxes.len() ==> rect_offset_ok(
                #[trigger] target.hurtboxes[j].rect,
                target.position,
            )
    }
}

/// The hits one attacker hitbox scores against a list of target hurtboxes,
/// in hurtbox order.
pub open spec fn hits_row(
    hb: Hitbox,
    hurtboxes: Seq<Hurtbox>,
    apos: Vec2,
    tpos: Vec2,
    aside: PlayerSide,
) -> Seq<Hit>
    decreases hurtboxes.len(),
{
    if hurtboxes.len() == 0 {
        Seq::empty()
    } else {
        let prev = hits_row(hb, hurtboxes.drop_last(), apos, tpos, aside);
        let ub = hurtboxes.last();
        if rect_overlaps(rect_offset(hb.rect, apos), rect_offset(ub.rect, tpos)) {
            prev.push(
                Hit {
                    attacker: aside,
                    target: side_reverse(aside),
                    attacker_tag: hb.tag,
                    target_tag: ub.tag,
                },
            )
        } else {
            prev
        }
    }
}

/// All hits an attacker's hitboxes score against a target's hurtboxes, in
/// hitbox-major order.
pub open spec fn hits_between(
    hitboxes: Seq<Hitbox>,
    hurtboxes: Seq<Hurtbox>,
    apos: Vec2,
    tpos: Vec2,
    aside: PlayerSide,
) -> Seq<Hit>
    decreases hitboxes.len(),
{
    if hitboxes.len() == 0 {
        Seq::empty()
    } else {
        hits_between(hitboxes.drop_last(), hurtboxes, apos, tpos, aside) + hits_row(
            hitboxes.last(),
            hurtboxes,
            apos,
            tpos,
            aside,
        )
    }
}

/// An effect list applied to a player in order; `None` as soon as one
/// effect's arithmetic fails.
pub open spec fn apply_effects_spec(p: PlayerV, effects: Seq<Effect>) -> Option<PlayerV>
    decreases effects.len(),
{
    if effects.len() == 0 {
        Some(p)
    } else {
        match apply_effect_spec(p, effects.first()) {
            None => None,
            Some(p2) => apply_effects_spec(p2, effects.drop_first()),
        }
    }
}

/// One hit candidate resolved: skipped unless the attacker has an attack
/// that has not yet landed this activation; otherwise the attack latches,
/// the target's blocking is judged, and the matching effect list is applied
/// to the target in order.
pub open spec fn apply_hit_spec(g: GameStateV, hit: Hit) -> Option<GameStateV> {
    let attacker = get_player(g, hit.attacker);
    match attacker.current_attack {
        None => Some(g),
        Some(att) => if att.has_hit_player {
            Some(g)
        } else {
            let latched = AttackV { has_hit_player: true, ..att };
            let g1 = set_player(
                g,
                hit.attacker,
                PlayerV { current_attack: Some(latched), ..attacker },
            );
            let target = get_player(g1, hit.target);
            let blocked = !att.hit_effect.unblockable && is_blocking_spec(target);
            let effects = if blocked {
                att.hit_effect.effects_on_block
            } else {
                att.hit_effect.effects_on_hit
            };
            match apply_effects_spec(target, effects) {
                None => None,
                Some(t2) => Some(set_player(g1, hit.target, t2)),
            }
        },
    }
}

/// A list of hit candidates resolved in order.
pub open spec fn apply_hits_spec(g: GameStateV, hits: Seq<Hit>) -> Option<GameStateV>
    decreases hits.len(),
{
    if hits.len() == 0 {
        Some(g)
    } else {
        match apply_hit_spec(g, hits.first()) {
            None => None,
            Some(g2) => apply_hits_spec(g2, hits.drop_first()),
        }
    }
}

/// Hit registration of a whole frame: candidates are collected for both
/// directions, player 1 attacking first, before any effect is applied; then
/// every candidate is resolved in collection order.
pub open spec fn spec_hitreg(g: GameStateV) -> Option<GameStateV> {
    if !boxes_offsets_ok(g.player_1, g.player_2) {
        None
    } else if !boxes_offsets_ok(g.player_2, g.player_1) {
        None
    } else {
        let hits1 = hits_between(
            g.player_1.hitboxes,
            g.player_2.hurtboxes,
            g.player_1.position,
            g.player_2.position,
            PlayerSide::Player1,
        );
        let hits2 = hits_between(
            g.player_2.hitboxes,
            g.player_1.hurtboxes,
            g.player_2.position,
            g.player_1.position,
            PlayerSide::Player2,
        );
        apply_hits_spec(g, hits1 + hits2)
    }
}


/// Applying a command list never touches the input history or the active
/// state, and the result of the per-state hooks' commands keeps the
/// animator well formed (a switch lands on frame zero of a well-formed
/// animation at the current frame).
pub proof fn lemma_apply_commands_fields(p: PlayerV, cs: Seq<CommandV>, now: Frame)
    ensures
        apply_commands(p, cs, now).input_history == p.input_history,
        apply_commands(p, cs, now).current_state == p.current_state,
        apply_commands(p, cs, now).character == p.character,
    decreases cs.len(),
{
    if cs.len() > 0 {
        lemma_apply_commands_fields(apply_command(p, cs.first(), now), cs.drop_first(), now);
    }
}

/// Animator pre-tick phase of one player, executable.
fn phase_animator_pre(p: &mut Player, proto: &CharacterProto, now: Frame)
    requires
        animator_wf(old(p)@.animator, proto@, now),
    ensures
        final(p)@ == spec_animator_pre(old(p)@, proto@, now),
        animator_wf(final(p)@.animator, proto@, now),
        final(p)@.character == old(p)@.character,
        final(p)@.input_history == old(p)@.input_history,
{
    let anim = proto.animation(p.animator.current_animation);
    match p.animator.pre_tick(anim, now) {
        Some(req) => {
            p.state_transition_requests.add(req);
        },
        None => {},
    }
}

/// State pre-tick phase of one player, executable.
fn phase_pre_tick(p: &mut Player, now: Frame, Ghost(proto): Ghost<CharacterProtoV>)
    requires
        proto_wf(proto),
        animator_wf(old(p)@.animator, proto, now),
    ensures
        final(p)@ == spec_player_pre_tick(old(p)@, now),
        animator_wf(final(p)@.animator, proto, now),
        final(p)@.character == old(p)@.character,
        final(p)@.input_history == old(p)@.input_history,
{
    let cmds = p.current_state.pre_tick();
    apply_commands_to(p, &cmds, now);
    proof {
        let mid = PlayerV { current_state: pre_tick_spec(old(p)@.current_state).0, ..old(p)@ };
        lemma_apply_commands_wf(mid, cmds_view(cmds@), proto, now);
        lemma_apply_commands_fields(mid, cmds_view(cmds@), now);
    }
}

/// Transition arbitration of one player, executable.
fn phase_transition(p: &mut Player, now: Frame, Ghost(proto): Ghost<CharacterProtoV>)
    requires
        proto_wf(proto),
        animator_wf(old(p)@.animator, proto, now),
    ensures
        final(p)@ == spec_player_transition(old(p)@, now),
        animator_wf(final(p)@.animator, proto, now),
        final(p)@.character == old(p)@.character,
        final(p)@.input_history == old(p)@.input_history,
{
    let req = p.state_transition_requests.take();
    match req {
        None => {},
        Some(req) => {
            if req.insert_priority > p.current_state.priority() {
                let ghost drained = PlayerV {
                    state_transition_requests: Seq::empty(),
                    ..old(p)@
                };
                let exit_cmds = p.current_state.on_exit();
                apply_commands_to(p, &exit_cmds, now);
                proof {
                    lemma_apply_commands_wf(drained, cmds_view(exit_cmds@), proto, now);
                    lemma_apply_commands_fields(drained, cmds_view(exit_cmds@), now);
                }
                let ghost exited = p@;
                p.current_state = req.state;
                let enter_cmds = p.current_state.on_enter();
                apply_commands_to(p, &enter_cmds, now);
                proof {
                    let swapped = PlayerV { current_state: req.state, ..exited };
                    lemma_apply_commands_wf(swapped, cmds_view(enter_cmds@), proto, now);
                    lemma_apply_commands_fields(swapped, cmds_view(enter_cmds@), now);
                }
            }
        },
    }
}

/// Move-matching phase of one player, executable.
fn phase_moves(p: &mut Player, movelist: &Movelist, now: Frame)
    requires
        history_wf(old(p)@.input_history),
        history_before(old(p)@.input_history, now),
    ensures
        final(p)@ == spec_player_moves(old(p)@, movelist.moves@, now),
        final(p)@.animator == old(p)@.animator,
        final(p)@.character == old(p)@.character,
        final(p)@.input_history == old(p)@.input_history,
{
    match movelist.perform(now, &p.current_state, &p.input_history) {
        Some(mov) => {
            let req = StateTransitionRequest::new(mov.new_state, None);
            p.state_transition_requests.add(req);
            if mov.stops_momentum {
                p.velocity = Vec2 { x: FixedPoint(0), y: FixedPoint(0) };
            }
        },
        None => {},
    }
}

/// State tick phase of one player, executable.
fn phase_tick(p: &mut Player, now: Frame, Ghost(proto): Ghost<CharacterProtoV>)
    requires
        proto_wf(proto),
        animator_wf(old(p)@.animator, proto, now),
    ensures
        final(p)@ == spec_player_tick(old(p)@, now),
        animator_wf(final(p)@.animator, proto, now),
        final(p)@.character == old(p)@.character,
        final(p)@.input_history == old(p)@.input_history,
{
    let cmds = p.current_state.tick(now, &p.input_history);
    apply_commands_to(p, &cmds, now);
    proof {
        lemma_apply_commands_wf(old(p)@, cmds_view(cmds@), proto, now);
        lemma_apply_commands_fields(old(p)@, cmds_view(cmds@), now);
    }
}

/// Animator tick phase of one player, executable.
fn phase_animator_tick(p: &mut Player, proto: &CharacterProto, now: Frame)
    requires
        proto_wf(proto@),
        animator_wf(old(p)@.animator, proto@, now),
    ensures
        final(p)@ == spec_player_animator_tick(old(p)@, proto@, now),
        animator_wf(final(p)@.animator, proto@, now),
        final(p)@.character == old(p)@.character,
        final(p)@.input_history == old(p)@.input_history,
{
    let anim = proto.animation(p.animator.current_animation);
    let facing = p.facing;
    p.animator.tick(facing, &mut p.hitboxes, &mut p.hurtboxes, anim, now);
}

/// Physics phase of one player, executable; on an arithmetic error the
/// player is unchanged.
fn phase_physics(p: &mut Player) -> (r: Result<(), ArithmeticError>)
    ensures
        match spec_player_physics(old(p)@) {
            Some(p2) => r is Ok && final(p)@ == p2,
            None => r == Err::<(), ArithmeticError>(ArithmeticError::Overflow) && *final(p) == *old(
                p,
            ),
        },
        final(p)@.animator == old(p)@.animator,
        final(p)@.character == old(p)@.character,
        final(p)@.input_history == old(p)@.input_history,
{
    let delta = FixedPoint(PHYSICS_DELTA_RAW);
    let scaled = match p.velocity.checked_mul(delta) {
        Ok(v) => v,
        Err(_) => {
            return Err(ArithmeticError::Overflow);
        },
    };
    let moved = match p.position.checked_add(scaled) {
        Ok(v) => v,
        Err(_) => {
            return Err(ArithmeticError::Overflow);
        },
    };
    let vy = match p.velocity.y.checked_add(FixedPoint(GRAVITY_STEP_RAW)) {
        Ok(v) => v,
        Err(_) => {
            return Err(ArithmeticError::Overflow);
        },
    };
    let mut position = moved;
    let mut velocity = Vec2 { x: p.velocity.x, y: vy };
    let mut grounded = p.grounded;
    let mut landing_request: bool = false;
    if position.y.0 > 0 {
        position.y = FixedPoint(0);
        velocity.y = FixedPoint(0);
        grounded = true;
        if matches!(p.current_state, CharacterState::Airborne(_)) {
            landing_request = true;
        }
    } else if position.y.0 < 0 {
        grounded = false;
    }
    p.position = position;
    p.velocity = velocity;
    p.grounded = grounded;
    if landing_request {
        p.state_transition_requests.add(
            StateTransitionRequest {
                state: CharacterState::Idle(crate::character::IdleState),
                insert_priority: LANDING_PRIORITY,
            },
        );
    }
    Ok(())
}

/// Friction phase of one player, executable; on the one unrepresentable
/// magnitude the player is unchanged.
fn phase_friction(p: &mut Player) -> (r: Result<(), ArithmeticError>)
    ensures
        match spec_player_friction(old(p)@) {
            Some(p2) => r is Ok && final(p)@ == p2,
            None => r == Err::<(), ArithmeticError>(ArithmeticError::Overflow) && *final(p) == *old(
                p,
            ),
        },
        final(p)@.animator == old(p)@.animator,
        final(p)@.character == old(p)@.character,
        final(p)@.input_history == old(p)@.input_history,
{
    if !p.grounded {
        return Ok(());
    }
    let vx = p.velocity.x;
    if vx.0 == i32::MIN {
        return Err(ArithmeticError::Overflow);
    }
    let deccel = FixedPoint(DECCEL_RAW);
    if vx.abs().0 <= DECCEL_RAW {
        p.velocity.x = FixedPoint(0);
    } else if vx.0 > 0 {
        p.velocity.x = match vx.checked_sub(deccel) {
            Ok(v) => v,
            Err(_) => {
                proof {
                    assert(false);
                }
                FixedPoint(0)
            },
        };
    } else {
        p.velocity.x = match vx.checked_add(deccel) {
            Ok(v) => v,
            Err(_) => {
                proof {
                    assert(false);
                }
                FixedPoint(0)
            },
        };
    }
    Ok(())
}


/// Resolving hits in sequence splits over concatenation.
proof fn lemma_apply_hits_append(g: GameStateV, a: Seq<Hit>, b: Seq<Hit>)
    ensures
        apply_hits_spec(g, a + b) == (match apply_hits_spec(g, a) {
            None => None::<GameStateV>,
            Some(g2) => apply_hits_spec(g2, b),
        }),
    decreases a.len(),
{
    if a.len() == 0 {
        assert(a + b =~= b);
    } else {
        assert((a + b).first() == a.first());
        assert((a + b).drop_first() =~= a.drop_first() + b);
        match apply_hit_spec(g, a.first()) {
            None => {},
            Some(g2) => {
                lemma_apply_hits_append(g2, a.drop_first(), b);
            },
        }
    }
}

/// Marks the attack in progress as having landed once.
fn latch_attack(p: &mut Player)
    requires
        old(p)@.current_attack is Some,
    ensures
        final(p)@ == (PlayerV {
            current_attack: Some(
                AttackV { has_hit_player: true, ..old(p)@.current_attack->Some_0 },
            ),
            ..old(p)@
        }),
{
    match &mut p.current_attack {
        Some(att) => {
            att.has_hit_player = true;
        },
        None => {
            proof {
                assert(false);
            }
        },
    }
}

/// Collects the hit candidates one attacker scores on one target this
/// frame: every enabled attacker hitbox against every enabled target
/// hurtbox, both translated to world space, with strict overlap.  An
/// overflow while translating is reported instead.
#[verifier::loop_isolation(false)]
fn collect_player_hits(attacker: &Player, target: &Player, aside: PlayerSide) -> (r: Result<
    Vec<Hit>,
    ArithmeticError,
>)
    ensures
        boxes_offsets_ok(attacker@, target@) ==> (r is Ok && r->Ok_0@ == hits_between(
            attacker@.hitboxes,
            target@.hurtboxes,
            attacker@.position,
            target@.position,
            aside,
        )),
        !boxes_offsets_ok(attacker@, target@) ==> r == Err::<Vec<Hit>, ArithmeticError>(
            ArithmeticError::Overflow,
        ),
{
    let mut hits: Vec<Hit> = Vec::new();
    let n_hit = attacker.hitboxes.len();
    let n_hurt = target.hurtboxes.len();
    let apos = attacker.position;
    let tpos = target.position;
    let mut i: usize = 0;
    while i < n_hit
        invariant
            i <= n_hit,
            hits@ == hits_between(
                attacker@.hitboxes.take(i as int),
                target@.hurtboxes,
                apos,
                tpos,
                aside,
            ),
            n_hurt > 0 ==> forall|k: int|
                0 <= k < i ==> rect_offset_ok(#[trigger] attacker@.hitboxes[k].rect, apos),
            i > 0 && n_hurt > 0 ==> forall|j2: int|
                0 <= j2 < n_hurt ==> rect_offset_ok(#[trigger] target@.hurtboxes[j2].rect, tpos),
        decreases n_hit - i,
    {
        let hb = attacker.hitboxes[i];
        let mut j: usize = 0;
        while j < n_hurt
            invariant
                j <= n_hurt,
                i < n_hit,
                hb == attacker@.hitboxes[i as int],
                hits@ == hits_between(
                    attacker@.hitboxes.take(i as int),
                    target@.hurtboxes,
                    apos,
                    tpos,
                    aside,
                ) + hits_row(hb, target@.hurtboxes.take(j as int), apos, tpos, aside),
                j > 0 ==> rect_offset_ok(hb.rect, apos),
                forall|j2: int|
                    0 <= j2 < j ==> rect_offset_ok(#[trigger] target@.hurtboxes[j2].rect, tpos),
            decreases n_hurt - j,
        {
            let ho = match hb.rect.offset(apos) {
                Ok(v) => v,
                Err(e) => {
                    return Err(e);
                },
            };
            let ub = target.hurtboxes[j];
            let uo = match ub.rect.offset(tpos) {
                Ok(v) => v,
                Err(e) => {
                    return Err(e);
                },
            };
            proof {
                assert(target@.hurtboxes.take(j + 1).drop_last() =~= target@.hurtboxes.take(
                    j as int,
                ));
                assert(target@.hurtboxes.take(j + 1).last() == ub);
            }
            if ho.overlaps(uo) {
                hits.push(
                    Hit {
                        attacker: aside,
                        target: aside.reverse(),
                        attacker_tag: hb.tag,
                        target_tag: ub.tag,
                    },
                );
            }
            j = j + 1;
        }
        proof {
            assert(target@.hurtboxes.take(n_hurt as int) =~= target@.hurtboxes);
            assert(attacker@.hitboxes.take(i + 1).drop_last() =~= attacker@.hitboxes.take(i as int));
            assert(attacker@.hitboxes.take(i + 1).last() == hb);
        }
        i = i + 1;
    }
    proof {
        assert(attacker@.hitboxes.take(n_hit as int) =~= attacker@.hitboxes);
    }
    Ok(hits)
}

/// Resolves a list of collected hit candidates in order against the
/// snapshot.
#[verifier::loop_isolation(false)]
#[verifier::rlimit(80)]
fn apply_hits(g: &mut GameState, hits: &Vec<Hit>) -> (r: Result<(), ArithmeticError>)
    ensures
        match apply_hits_spec(old(g)@, hits@) {
            Some(g2) => r is Ok && final(g)@ == g2,
            None => r == Err::<(), ArithmeticError>(ArithmeticError::Overflow),
        },
{
    let n = hits.len();
    let mut k: usize = 0;
    proof {
        assert(hits@.skip(0) =~= hits@);
    }
    while k < n
        invariant
            k <= n,
            apply_hits_spec(old(g)@, hits@) == apply_hits_spec(g@, hits@.skip(k as int)),
        decreases n - k,
    {
        let ghost gk = g@;
        proof {
            assert(hits@.skip(k as int).first() == hits@[k as int]);
            assert(hits@.skip(k as int).drop_first() =~= hits@.skip(k + 1));
        }
        let hit = hits[k];
        let skip_hit = match &g.player(hit.attacker).current_attack {
            None => true,
            Some(att) => att.has_hit_player,
        };
        if !skip_hit {
            let ghost att0 = get_player(gk, hit.attacker).current_attack->Some_0;
            match hit.attacker {
                PlayerSide::Player1 => latch_attack(&mut g.player_1),
                PlayerSide::Player2 => latch_attack(&mut g.player_2),
            }
            let ghost g1 = g@;
            proof {
                assert(g1 == set_player(
                    gk,
                    hit.attacker,
                    PlayerV {
                        current_attack: Some(AttackV { has_hit_player: true, ..att0 }),
                        ..get_player(gk, hit.attacker)
                    },
                ));
            }
            let unblockable = match &g.player(hit.attacker).current_attack {
                Some(a) => a.hit_effect.unblockable,
                None => {
                    proof {
                        assert(false);
                    }
                    false
                },
            };
            let now = g.current_frame;
            let blocked = !unblockable && g.player(hit.target).is_blocking(now);
            let ghost tgt1 = get_player(g1, hit.target);
            let ghost effects = if blocked {
                att0.hit_effect.effects_on_block
            } else {
                att0.hit_effect.effects_on_hit
            };
            let n_eff = match &g.player(hit.attacker).current_attack {
                Some(a) => if blocked {
                    a.hit_effect.effects_on_block.len()
                } else {
                    a.hit_effect.effects_on_hit.len()
                },
                None => {
                    proof {
                        assert(false);
                    }
                    0
                },
            };
            let mut e: usize = 0;
            proof {
                assert(effects.skip(0) =~= effects);
            }
            while e < n_eff
                invariant
                    e <= n_eff == effects.len(),
                    get_player(g@, hit.attacker).current_attack == Some(
                        AttackV { has_hit_player: true, ..att0 },
                    ),
                    g@ == set_player(g1, hit.target, get_player(g@, hit.target)),
                    apply_effects_spec(tgt1, effects) == apply_effects_spec(
                        get_player(g@, hit.target),
                        effects.skip(e as int),
                    ),
                decreases n_eff - e,
            {
                proof {
                    assert(effects.skip(e as int).first() == effects[e as int]);
                    assert(effects.skip(e as int).drop_first() =~= effects.skip(e + 1));
                }
                let eff: Effect = match &g.player(hit.attacker).current_attack {
                    Some(a) => if blocked {
                        a.hit_effect.effects_on_block[e]
                    } else {
                        a.hit_effect.effects_on_hit[e]
                    },
                    None => {
                        proof {
                            assert(false);
                        }
                        Effect::Hitstun(0)
                    },
                };
                let res = match hit.target {
                    PlayerSide::Player1 => g.player_1.apply_effect(&eff),
                    PlayerSide::Player2 => g.player_2.apply_effect(&eff),
                };
                match res {
                    Ok(()) => {},
                    Err(er) => {
                        return Err(er);
                    },
                }
                e = e + 1;
            }
        }
        k = k + 1;
    }
    proof {
        assert(hits@.skip(n as int) =~= Seq::<Hit>::empty());
    }
    Ok(())
}

impl GameState {
    /// Reads the player on a side.
    pub fn player(&self, player: PlayerSide) -> (r: &Player)
        ensures
            r@ == get_player(self@, player),
    {
        match player {
            PlayerSide::Player1 => &self.player_1,
            PlayerSide::Player2 => &self.player_2,
        }
    }

    /// Borrows the player on a side mutably.
    pub fn player_mut(&mut self, player: PlayerSide) -> (r: &mut Player)
        ensures
            *r == (match player {
                PlayerSide::Player1 => old(self).player_1,
                PlayerSide::Player2 => old(self).player_2,
            }),
            *final(self) == (match player {
                PlayerSide::Player1 => GameState { player_1: *final(r), ..*old(self) },
                PlayerSide::Player2 => GameState { player_2: *final(r), ..*old(self) },
            }),
    {
        match player {
            PlayerSide::Player1 => &mut self.player_1,
            PlayerSide::Player2 => &mut self.player_2,
        }
    }

    /// Feeds one frame of raw input to one player, logging its edges at the
    /// current frame.
    pub fn player_input(&mut self, player: PlayerSide, input: BoxedInput)
        requires
            history_wf(get_player(old(self)@, player).input_history),
            history_before(get_player(old(self)@, player).input_history, old(self)@.current_frame),
        ensures
            final(self)@ == set_player(
                old(self)@,
                player,
                PlayerV {
                    last_input: input,
                    input_history: get_player(old(self)@, player).input_history
                        + input_edge_events(
                        get_player(old(self)@, player).last_input,
                        input,
                        old(self)@.current_frame,
                    ),
                    ..get_player(old(self)@, player)
                },
            ),
    {
        let frame = self.current_frame;
        match player {
            PlayerSide::Player1 => self.player_1.input(frame, input),
            PlayerSide::Player2 => self.player_2.input(frame, input),
        }
    }

    /// Registers and resolves this frame's hits for both directions, player
    /// 1 attacking first; candidates are all collected before any effect is
    /// applied.
    fn hitreg(&mut self) -> (r: Result<(), ArithmeticError>)
        ensures
            match spec_hitreg(old(self)@) {
                Some(g2) => r is Ok && final(self)@ == g2,
                None => r == Err::<(), ArithmeticError>(ArithmeticError::Overflow),
            },
    {
        let hits1 = match collect_player_hits(&self.player_1, &self.player_2, PlayerSide::Player1) {
            Ok(h) => h,
            Err(e) => {
                return Err(e);
            },
        };
        let hits2 = match collect_player_hits(&self.player_2, &self.player_1, PlayerSide::Player2) {
            Ok(h) => h,
            Err(e) => {
                return Err(e);
            },
        };
        proof {
            lemma_apply_hits_append(old(self)@, hits1@, hits2@);
        }
        match apply_hits(self, &hits1) {
            Ok(()) => {},
            Err(e) => {
                return Err(e);
            },
        }
        match apply_hits(self, &hits2) {
            Ok(()) => {},
            Err(e) => {
                return Err(e);
            },
        }
        Ok(())
    }
}

impl Clone for GameState {
    /// An exact deep copy: the full rollback snapshot.
    fn clone(&self) -> (res: Self)
        ensures
            res@ == self@,
    {
        GameState {
            player_1: self.player_1.clone(),
            player_2: self.player_2.clone(),
            current_frame: self.current_frame,
        }
    }
}


/// Applying effects never touches the target's animator, input history,
/// character, state or attack.
proof fn lemma_apply_effects_keeps(p: PlayerV, effects: Seq<Effect>)
    ensures
        apply_effects_spec(p, effects) matches Some(p2) ==> p2.animator == p.animator
            && p2.input_history == p.input_history && p2.character == p.character
            && p2.current_state == p.current_state && p2.current_attack == p.current_attack,
    decreases effects.len(),
{
    if effects.len() > 0 {
        match apply_effect_spec(p, effects.first()) {
            Some(p2) => {
                lemma_apply_effects_keeps(p2, effects.drop_first());
            },
            None => {},
        }
    }
}

/// Resolving hits never touches either player's animator, input history or
/// character, nor the clock.
proof fn lemma_apply_hits_keeps(g: GameStateV, hits: Seq<Hit>)
    ensures
        apply_hits_spec(g, hits) matches Some(g2) ==> {
            &&& g2.player_1.animator == g.player_1.animator
            &&& g2.player_1.input_history == g.player_1.input_history
            &&& g2.player_1.character == g.player_1.character
            &&& g2.player_2.animator == g.player_2.animator
            &&& g2.player_2.input_history == g.player_2.input_history
            &&& g2.player_2.character == g.player_2.character
            &&& g2.current_frame == g.current_frame
        },
    decreases hits.len(),
{
    if hits.len() > 0 {
        let hit = hits.first();
        match apply_hit_spec(g, hit) {
            Some(g2) => {
                let attacker = get_player(g, hit.attacker);
                match attacker.current_attack {
                    None => {},
                    Some(att) => if !att.has_hit_player {
                        let g1 = set_player(
                            g,
                            hit.attacker,
                            PlayerV {
                                current_attack: Some(AttackV { has_hit_player: true, ..att }),
                                ..attacker
                            },
                        );
                        let target = get_player(g1, hit.target);
                        let blocked = !att.hit_effect.unblockable && is_blocking_spec(target);
                        let effects = if blocked {
                            att.hit_effect.effects_on_block
                        } else {
                            att.hit_effect.effects_on_hit
                        };
                        lemma_apply_effects_keeps(target, effects);
                    },
                }
                lemma_apply_hits_keeps(g2, hits.drop_first());
            },
            None => {},
        }
    }
}

/// Transition arbitration applied to both players, player 1 first.
pub open spec fn both_transition(g: GameStateV, now: Frame) -> GameStateV {
    GameStateV {
        player_1: spec_player_transition(g.player_1, now),
        player_2: spec_player_transition(g.player_2, now),
        ..g
    }
}

/// One whole simulated frame: ground friction on the carried-over
/// velocities, animator pre-tick, state pre-tick, arbitration, move
/// matching, arbitration, state tick, arbitration, animator tick,
/// arbitration, physics, arbitration, hit registration, arbitration, and
/// finally the clock, with player 1 always processed first.  `None` means
/// some fixed-point arithmetic left the representable range during the
/// frame.
pub open spec fn spec_tick(g: GameStateV, info: GameInfoV) -> Option<GameStateV> {
    let now = g.current_frame;
    match spec_player_friction(g.player_1) {
        None => None,
        Some(f1) => match spec_player_friction(g.player_2) {
            None => None,
            Some(f2) => spec_tick_after_friction(
                GameStateV { player_1: f1, player_2: f2, ..g },
                info,
                now,
            ),
        },
    }
}

/// The frame's phases after ground friction has been applied.
pub open spec fn spec_tick_after_friction(g: GameStateV, info: GameInfoV, now: Frame) -> Option<
    GameStateV,
> {
    let g1 = GameStateV {
        player_1: spec_animator_pre(g.player_1, proto_of(info, g.player_1.character), now),
        player_2: spec_animator_pre(g.player_2, proto_of(info, g.player_2.character), now),
        ..g
    };
    let g2 = GameStateV {
        player_1: spec_player_pre_tick(g1.player_1, now),
        player_2: spec_player_pre_tick(g1.player_2, now),
        ..g1
    };
    let g3 = both_transition(g2, now);
    let g4 = GameStateV {
        player_1: spec_player_moves(
            g3.player_1,
            proto_of(info, g3.player_1.character).movelist,
            now,
        ),
        player_2: spec_player_moves(
            g3.player_2,
            proto_of(info, g3.player_2.character).movelist,
            now,
        ),
        ..g3
    };
    let g5 = both_transition(g4, now);
    let g6 = GameStateV {
        player_1: spec_player_tick(g5.player_1, now),
        player_2: spec_player_tick(g5.player_2, now),
        ..g5
    };
    let g7 = both_transition(g6, now);
    let g8 = GameStateV {
        player_1: spec_player_animator_tick(
            g7.player_1,
            proto_of(info, g7.player_1.character),
            now,
        ),
        player_2: spec_player_animator_tick(
            g7.player_2,
            proto_of(info, g7.player_2.character),
            now,
        ),
        ..g7
    };
    let g9 = both_transition(g8, now);
    match spec_player_physics(g9.player_1) {
        None => None,
        Some(q1) => match spec_player_physics(g9.player_2) {
            None => None,
            Some(q2) => {
                let g10 = GameStateV { player_1: q1, player_2: q2, ..g9 };
                let g11 = both_transition(g10, now);
                match spec_hitreg(g11) {
                    None => None,
                    Some(g12) => {
                        let g13 = both_transition(g12, now);
                        Some(GameStateV { current_frame: frame_ticked(now, false), ..g13 })
                    },
                }
            },
        },
    }
}

/// Initial raw health: 100 whole units.
pub const INITIAL_HEALTH_RAW: i32 = 25600;

/// Initial raw horizontal distance of each player from the center: 50 whole
/// units.
pub const INITIAL_OFFSET_RAW: i32 = 12800;

/// A player at match start: full health, at rest and grounded at its
/// starting spot, idle, showing the idle animation from frame zero, with an
/// empty input log and no attack.
pub open spec fn initial_player(c: Character, x: FixedPoint, facing: Facing) -> PlayerV {
    PlayerV {
        health: FixedPoint(INITIAL_HEALTH_RAW),
        position: Vec2 { x, y: FixedPoint(0) },
        velocity: Vec2 { x: FixedPoint(0), y: FixedPoint(0) },
        character: c,
        last_input: BoxedInput(0),
        input_history: Seq::empty(),
        animator: animator_switched(
            Frame { frame_with_freeze: 0, frame_without_freeze: 0 },
            AnimationName::Idle,
            None,
        ),
        current_state: CharacterState::Idle(crate::character::IdleState),
        state_transition_requests: Seq::empty(),
        hurtboxes: Seq::empty(),
        hitboxes: Seq::empty(),
        current_attack: None,
        facing,
        grounded: true,
    }
}

/// The snapshot at match start: both players in their starting spots facing
/// each other, clock at zero.
pub open spec fn initial_game() -> GameStateV {
    GameStateV {
        player_1: initial_player(
            Character::Guy,
            FixedPoint((-INITIAL_OFFSET_RAW) as i32),
            Facing::Right,
        ),
        player_2: initial_player(Character::Guy, FixedPoint(INITIAL_OFFSET_RAW), Facing::Left),
        current_frame: Frame { frame_with_freeze: 0, frame_without_freeze: 0 },
    }
}

impl GameState {
    /// The initial snapshot of a match over validated static data.
    pub fn new(info: &GameInfo) -> (r: GameState)
        requires
            info_wf(info@),
        ensures
            r@ == initial_game(),
            game_wf(r@, info@),
    {
        let start = Frame::new();
        let r = GameState {
            player_1: Player {
                health: FixedPoint(INITIAL_HEALTH_RAW),
                position: Vec2 { x: FixedPoint(-INITIAL_OFFSET_RAW), y: FixedPoint(0) },
                velocity: Vec2 { x: FixedPoint(0), y: FixedPoint(0) },
                character: Character::Guy,
                last_input: BoxedInput::new(),
                input_history: InputHistory::new(),
                animator: Animator::new(start, AnimationName::Idle),
                current_state: CharacterState::Idle(crate::character::IdleState),
                state_transition_requests: StateTransitionRequests::new(),
                hurtboxes: Vec::new(),
                hitboxes: Vec::new(),
                current_attack: None,
                facing: Facing::Right,
                grounded: true,
            },
            player_2: Player {
                health: FixedPoint(INITIAL_HEALTH_RAW),
                position: Vec2 { x: FixedPoint(INITIAL_OFFSET_RAW), y: FixedPoint(0) },
                velocity: Vec2 { x: FixedPoint(0), y: FixedPoint(0) },
                character: Character::Guy,
                last_input: BoxedInput::new(),
                input_history: InputHistory::new(),
                animator: Animator::new(start, AnimationName::Idle),
                current_state: CharacterState::Idle(crate::character::IdleState),
                state_transition_requests: StateTransitionRequests::new(),
                hurtboxes: Vec::new(),
                hitboxes: Vec::new(),
                current_attack: None,
                facing: Facing::Left,
                grounded: true,
            },
            current_frame: start,
        };
        proof {
            assert(r@.player_1 == initial_game().player_1);
            assert(r@.player_2 == initial_game().player_2);
        }
        r
    }

    /// Advances the match by exactly one simulated frame: a pure function
    /// of this snapshot and the static data, leaving this snapshot
    /// untouched.  An arithmetic overflow during the frame is reported
    /// instead of producing a wrong state.
    #[verifier::rlimit(80)]
    pub fn tick(&self, info: &GameInfo) -> (r: Result<GameState, ArithmeticError>)
        requires
            game_wf(self@, info@),
            self@.current_frame.frame_with_freeze < usize::MAX,
            self@.current_frame.frame_without_freeze < usize::MAX,
        ensures
            r matches Ok(g2) ==> Some(g2@) == spec_tick(self@, info@) && game_wf(g2@, info@),
            r is Err ==> spec_tick(self@, info@) is None && r == Err::<
                GameState,
                ArithmeticError,
            >(ArithmeticError::Overflow),
    {
        let mut g = self.clone();
        let now = g.current_frame;
        let c1 = g.player_1.character;
        let c2 = g.player_2.character;
        let ghost proto1 = proto_of(info@, c1);
        let ghost proto2 = proto_of(info@, c2);

        match phase_friction(&mut g.player_1) {
            Ok(()) => {},
            Err(e) => {
                return Err(e);
            },
        }
        match phase_friction(&mut g.player_2) {
            Ok(()) => {},
            Err(e) => {
                return Err(e);
            },
        }
        proof {
            assert(spec_tick(self@, info@) == spec_tick_after_friction(g@, info@, now));
        }
        phase_animator_pre(&mut g.player_1, info.proto(c1), now);
        phase_animator_pre(&mut g.player_2, info.proto(c2), now);
        phase_pre_tick(&mut g.player_1, now, Ghost(proto1));
        phase_pre_tick(&mut g.player_2, now, Ghost(proto2));
        phase_transition(&mut g.player_1, now, Ghost(proto1));
        phase_transition(&mut g.player_2, now, Ghost(proto2));
        phase_moves(&mut g.player_1, &info.proto(c1).movelist, now);
        phase_moves(&mut g.player_2, &info.proto(c2).movelist, now);
        phase_transition(&mut g.player_1, now, Ghost(proto1));
        phase_transition(&mut g.player_2, now, Ghost(proto2));
        phase_tick(&mut g.player_1, now, Ghost(proto1));
        phase_tick(&mut g.player_2, now, Ghost(proto2));
        phase_transition(&mut g.player_1, now, Ghost(proto1));
        phase_transition(&mut g.player_2, now, Ghost(proto2));
        phase_animator_tick(&mut g.player_1, info.proto(c1), now);
        phase_animator_tick(&mut g.player_2, info.proto(c2), now);
        phase_transition(&mut g.player_1, now, Ghost(proto1));
        phase_transition(&mut g.player_2, now, Ghost(proto2));
        match phase_physics(&mut g.player_1) {
            Ok(()) => {},
            Err(e) => {
                return Err(e);
            },
        }
        match phase_physics(&mut g.player_2) {
            Ok(()) => {},
            Err(e) => {
                return Err(e);
            },
        }
        phase_transition(&mut g.player_1, now, Ghost(proto1));
        phase_transition(&mut g.player_2, now, Ghost(proto2));
        let ghost g11 = g@;
        match g.hitreg() {
            Ok(()) => {},
            Err(e) => {
                return Err(e);
            },
        }
        proof {
            if spec_hitreg(g11) matches Some(g12) {
                let hits1 = hits_between(
                    g11.player_1.hitboxes,
                    g11.player_2.hurtboxes,
                    g11.player_1.position,
                    g11.player_2.position,
                    PlayerSide::Player1,
                );
                let hits2 = hits_between(
                    g11.player_2.hitboxes,
                    g11.player_1.hurtboxes,
                    g11.player_2.position,
                    g11.player_1.position,
                    PlayerSide::Player2,
                );
                lemma_apply_hits_keeps(g11, hits1 + hits2);
            }
        }
        phase_transition(&mut g.player_1, now, Ghost(proto1));
        phase_transition(&mut g.player_2, now, Ghost(proto2));
        g.current_frame.tick(false);
        Ok(g)
    }
}


/// A hitbox mirrored across the character's vertical axis.
pub open spec fn flip_hitbox(h: Hitbox) -> Hitbox {
    Hitbox { rect: flip_rect(h.rect), tag: h.tag }
}

impl Player {
    /// Turns the player to a new facing, mirroring the frame-local hitbox
    /// geometry across the vertical axis; the same facing changes nothing.
    pub fn set_facing(&mut self, new_facing: Facing)
        requires
            forall|i: int|
                0 <= i < old(self)@.hitboxes.len() ==> crate::fixed_point::in_i32(
                    -(#[trigger] old(self)@.hitboxes[i].rect.min.x.0),
                ) && crate::fixed_point::in_i32(-(old(self)@.hitboxes[i].rect.max.x.0)),
        ensures
            old(self).facing == new_facing ==> final(self)@ == old(self)@,
            old(self).facing != new_facing ==> final(self)@ == (PlayerV {
                facing: new_facing,
                hitboxes: old(self)@.hitboxes.map_values(|h: Hitbox| flip_hitbox(h)),
                ..old(self)@
            }),
    {
        if matches!((self.facing, new_facing), (Facing::Left, Facing::Left) | (Facing::Right, Facing::Right)) {
            return;
        }
        self.facing = new_facing;
        let n = self.hitboxes.len();
        let mut flipped: Vec<Hitbox> = Vec::new();
        let mut i: usize = 0;
        while i < n
            invariant
                i <= n == old(self)@.hitboxes.len(),
                self.hitboxes@ == old(self)@.hitboxes,
                forall|k: int|
                    0 <= k < n ==> crate::fixed_point::in_i32(
                        -(#[trigger] old(self)@.hitboxes[k].rect.min.x.0),
                    ) && crate::fixed_point::in_i32(-(old(self)@.hitboxes[k].rect.max.x.0)),
                flipped@ == old(self)@.hitboxes.map_values(|h: Hitbox| flip_hitbox(h)).take(
                    i as int,
                ),
            decreases n - i,
        {
            let h = self.hitboxes[i];
            proof {
                assert(h == old(self)@.hitboxes[i as int]);
                assert(crate::fixed_point::in_i32(-(old(self)@.hitboxes[i as int].rect.min.x.0)));
                assert(crate::fixed_point::in_i32(-(old(self)@.hitboxes[i as int].rect.max.x.0)));
            }
            let min_x = h.rect.min.x;
            let max_x = h.rect.max.x;
            flipped.push(
                Hitbox {
                    rect: Rect {
                        min: Vec2 { x: FixedPoint(-max_x.0), y: h.rect.min.y },
                        max: Vec2 { x: FixedPoint(-min_x.0), y: h.rect.max.y },
                    },
                    tag: h.tag,
                },
            );
            proof {
                assert(flipped@ =~= old(self)@.hitboxes.map_values(|h2: Hitbox| flip_hitbox(h2)).take(
                    i + 1,
                ));
            }
            i = i + 1;
        }
        proof {
            let m = old(self)@.hitboxes.map_values(|h2: Hitbox| flip_hitbox(h2));
            assert(m.take(n as int) =~= m);
        }
        self.hitboxes = flipped;
    }
}

/// Arbitration idempotence at the player level: an empty phase leaves the
/// active state unchanged; a single request at or below the active state's
/// priority is discarded without running any hook; a single stronger
/// request switches to its target, running exactly one exit hook of the old
/// state and then exactly one enter hook of the new one.
pub proof fn lemma_transition_idempotence(p: PlayerV, req: StateTransitionRequest, now: Frame)
    ensures
        p.state_transition_requests == Seq::<StateTransitionRequest>::empty()
            ==> spec_player_transition(p, now) == p,
        p.state_transition_requests == seq![req] && req.insert_priority <= state_priority(
            p.current_state,
        ) ==> spec_player_transition(p, now) == (PlayerV {
            state_transition_requests: Seq::empty(),
            ..p
        }),
        p.state_transition_requests == seq![req] && req.insert_priority > state_priority(
            p.current_state,
        ) ==> {
            let drained = PlayerV { state_transition_requests: Seq::empty(), ..p };
            let exited = apply_commands(drained, on_exit_cmds(p.current_state), now);
            &&& spec_player_transition(p, now) == apply_commands(
                PlayerV { current_state: req.state, ..exited },
                on_enter_cmds(req.state),
                now,
            )
            &&& spec_player_transition(p, now).current_state == req.state
        },
{
    if p.state_transition_requests == Seq::<StateTransitionRequest>::empty() {
        assert(spec_player_transition(p, now) == p);
    }
    if p.state_transition_requests == seq![req] {
        assert(seq![req].drop_last() =~= Seq::<StateTransitionRequest>::empty());
        assert(seq![req].last() == req);
        assert(best_request(Seq::<StateTransitionRequest>::empty()) is None);
        assert(best_request(seq![req]) == Some(req));
        if req.insert_priority > state_priority(p.current_state) {
            let drained = PlayerV { state_transition_requests: Seq::empty(), ..p };
            let exited = apply_commands(drained, on_exit_cmds(p.current_state), now);
            lemma_apply_commands_fields(drained, on_exit_cmds(p.current_state), now);
            lemma_apply_commands_fields(
                PlayerV { current_state: req.state, ..exited },
                on_enter_cmds(req.state),
                now,
            );
        }
    }
}


/// First-hit latch: a candidate whose attack has already landed once this
/// activation changes nothing, so further overlaps in the same frame (or
/// later ones) produce no further effect.
pub proof fn lemma_latched_hit_is_skipped(g: GameStateV, hit: Hit)
    requires
        get_player(g, hit.attacker).current_attack matches Some(att) && att.has_hit_player,
    ensures
        apply_hit_spec(g, hit) == Some(g),
{
}

} // verus!
