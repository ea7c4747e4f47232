use fightcore::animation::{Animation, AnimationName, FrameData, HitboxInfo, HitboxPosition};
use fightcore::character::{CharacterProto, CharacterState, HitstunState, BlockstunState};
use fightcore::fixed_point::{ArithmeticError, FixedPoint, Vec2};
use fightcore::game::{GameInfo, GameState, PlayerSide};
use fightcore::guy::{movelist, GuyState, Normal};
use fightcore::input::{Action, BoxedInput};
use fightcore::movelist::Effect;

fn units(u: i32) -> FixedPoint {
    FixedPoint(u * 256)
}

fn vec(x: i32, y: i32) -> Vec2 {
    Vec2 { x: units(x), y: units(y) }
}

fn hurt_placement(id: usize) -> HitboxPosition {
    HitboxPosition { id, pos: vec(-5, -10), size: vec(10, 10), enabled: true }
}

fn idle_animation() -> Animation {
    // two overlapping hurtboxes, so a single attack meeting both shows the
    // first-hit latch
    Animation::new(
        vec![FrameData {
            delay: 10000,
            hitboxes: vec![
                hurt_placement(0),
                HitboxPosition { id: 1, pos: vec(-4, -9), size: vec(8, 8), enabled: true },
            ],
        }],
        vec![
            HitboxInfo { id: 0, tag: 1, is_hurtbox: true },
            HitboxInfo { id: 1, tag: 2, is_hurtbox: true },
        ],
    )
    .unwrap()
}

fn walking_animation() -> Animation {
    Animation::new(
        vec![FrameData { delay: 10000, hitboxes: vec![hurt_placement(0)] }],
        vec![HitboxInfo { id: 0, tag: 1, is_hurtbox: true }],
    )
    .unwrap()
}

fn punch_animation(reach: i32) -> Animation {
    // one active frame with a hitbox of the given reach, then the animation
    // is over and hands control back to idle
    Animation::new(
        vec![FrameData {
            delay: 2,
            hitboxes: vec![
                HitboxPosition { id: 9, pos: vec(0, -8), size: vec(reach, 6), enabled: true },
                hurt_placement(0),
            ],
        }],
        vec![
            HitboxInfo { id: 9, tag: 3, is_hurtbox: false },
            HitboxInfo { id: 0, tag: 1, is_hurtbox: true },
        ],
    )
    .unwrap()
}

fn hitstun_animation() -> Animation {
    Animation::new(
        vec![FrameData { delay: 10000, hitboxes: vec![hurt_placement(0)] }],
        vec![HitboxInfo { id: 0, tag: 1, is_hurtbox: true }],
    )
    .unwrap()
}

fn make_info_with_reach(reach: i32) -> GameInfo {
    GameInfo::new(CharacterProto {
        name: "Guy".to_string(),
        idle: idle_animation(),
        walking: walking_animation(),
        punch: punch_animation(reach),
        hitstun: hitstun_animation(),
        movelist: movelist(),
    })
}

// the punch spans the whole starting distance, so a fresh punch connects
fn make_info() -> GameInfo {
    make_info_with_reach(110)
}

// the punch cannot reach the other player from the starting spots
fn make_info_short() -> GameInfo {
    make_info_with_reach(10)
}

fn holding(actions: &[Action]) -> BoxedInput {
    let mut b = BoxedInput::new();
    for a in actions {
        b.press(*a);
    }
    b
}

#[test]
fn walking_right_sets_walk_speed_and_animation() {
    let info = make_info();
    let mut g = GameState::new(&info);
    g.player_input(PlayerSide::Player1, holding(&[Action::MoveRight]));
    let g = g.tick(&info).unwrap();
    // ground friction ran before the state tick, so the tick ends at the
    // configured walk speed of exactly 60.0
    assert_eq!(g.player_1.velocity.x, units(60));
    assert_eq!(g.player_1.animator.current_animation, AnimationName::Walking);
    // the position integrated the full walk speed for one 60th of a second
    assert_eq!(g.player_1.position.x, FixedPoint(-12800 + 240));
    assert!(matches!(g.player_1.current_state, CharacterState::Idle(_)));
}

fn punch_state() -> CharacterState {
    Normal::NeutralPunch.wrap().wrap().wrap()
}

#[test]
fn buffered_punch_starts_the_action() {
    let info = make_info_short();
    let mut g = GameState::new(&info);
    g.player_input(PlayerSide::Player1, holding(&[Action::Punch]));
    let g = g.tick(&info).unwrap();
    assert_eq!(g.player_1.current_state, punch_state());
    assert_eq!(g.player_1.animator.current_animation, AnimationName::Punch);
    let attack = g.player_1.current_attack.as_ref().unwrap();
    assert!(!attack.has_hit_player);
}

#[test]
fn punch_animation_end_returns_to_idle_and_clears_the_attack() {
    let info = make_info_short();
    let mut g = GameState::new(&info);
    g.player_input(PlayerSide::Player1, holding(&[Action::Punch]));
    g = g.tick(&info).unwrap();
    assert_eq!(g.player_1.current_state, punch_state());
    g.player_input(PlayerSide::Player1, BoxedInput::new());
    // the buffered press keeps re-triggering the punch until it falls out
    // of the 5-frame window; after that the finished animation hands the
    // player back to idle
    for _ in 0..8 {
        g = g.tick(&info).unwrap();
    }
    assert!(matches!(g.player_1.current_state, CharacterState::Idle(_)));
    assert!(g.player_1.current_attack.is_none());
    assert_eq!(g.player_1.animator.current_animation, AnimationName::Idle);
}

#[test]
fn clean_hit_applies_hitstun_knockback_and_damage_once() {
    let info = make_info();
    let mut g = GameState::new(&info);
    g.player_input(PlayerSide::Player1, holding(&[Action::Punch]));
    let g = g.tick(&info).unwrap();
    // the defender was not blocking: hitstun 14, knockback 30.0 away from
    // the attacker, damage 2.0
    assert_eq!(g.player_2.current_state, CharacterState::Hitstun(HitstunState(14)));
    assert_eq!(g.player_2.velocity.x, units(30));
    assert_eq!(g.player_2.health, units(98));
    assert_eq!(g.player_2.animator.current_animation, AnimationName::Hitstun);
    // the attack latched, and the second overlapping hurtbox added nothing:
    // exactly one application of the damage
    assert!(g.player_1.current_attack.as_ref().unwrap().has_hit_player);
}

#[test]
fn blocked_hit_applies_blockstun_and_knockback_without_damage() {
    let info = make_info();
    let mut g = GameState::new(&info);
    g.player_input(PlayerSide::Player1, holding(&[Action::Punch]));
    // player 2 faces left, so holding right is holding backward: blocking
    g.player_input(PlayerSide::Player2, holding(&[Action::MoveRight]));
    let g = g.tick(&info).unwrap();
    assert_eq!(g.player_2.current_state, CharacterState::Blockstun(BlockstunState(14)));
    assert_eq!(g.player_2.velocity.x, units(30));
    assert_eq!(g.player_2.health, units(100));
}

#[test]
fn hitstun_counts_down_and_releases_to_idle() {
    let info = make_info();
    let mut g = GameState::new(&info);
    g.player_input(PlayerSide::Player1, holding(&[Action::Punch]));
    g = g.tick(&info).unwrap();
    assert!(matches!(g.player_2.current_state, CharacterState::Hitstun(_)));
    g.player_input(PlayerSide::Player1, BoxedInput::new());
    let mut released_at = None;
    for i in 0..20 {
        g = g.tick(&info).unwrap();
        if matches!(g.player_2.current_state, CharacterState::Idle(_)) {
            released_at = Some(i);
            break;
        }
    }
    assert!(released_at.is_some(), "hitstun never released");
}

fn replay(inputs: &[(u8, u8)]) -> GameState {
    let info = make_info();
    let mut g = GameState::new(&info);
    for (a, b) in inputs {
        g.player_input(PlayerSide::Player1, BoxedInput(*a));
        g.player_input(PlayerSide::Player2, BoxedInput(*b));
        g = g.tick(&info).unwrap();
    }
    g
}

#[test]
fn identical_replays_are_identical_states() {
    // bit 1: left, 2: right, 4: up, 8: down, 16: punch, 32: kick
    let script: Vec<(u8, u8)> = vec![
        (2, 1),
        (2, 1),
        (2 | 4, 0),
        (0, 16),
        (0, 0),
        (16, 2),
        (16, 2),
        (0, 0),
        (1, 0),
        (1, 32),
        (0, 0),
        (4, 4),
        (0, 0),
        (0, 0),
        (2, 1),
    ];
    let a = replay(&script);
    let b = replay(&script);
    assert_eq!(a, b);
}

#[test]
fn rollback_resimulation_matches_the_straight_run() {
    let info = make_info();
    let script: [(u8, u8); 6] = [(2, 0), (2, 16), (16, 0), (0, 0), (4, 2), (0, 0)];
    let mut straight = GameState::new(&info);
    let mut snapshot = None;
    for (i, (a, b)) in script.iter().enumerate() {
        if i == 3 {
            // the rollback layer snapshots mid-match ...
            snapshot = Some(straight.clone());
        }
        straight.player_input(PlayerSide::Player1, BoxedInput(*a));
        straight.player_input(PlayerSide::Player2, BoxedInput(*b));
        straight = straight.tick(&info).unwrap();
    }
    // ... restores it, and re-simulates the same suffix
    let mut resim = snapshot.unwrap();
    for (a, b) in &script[3..] {
        resim.player_input(PlayerSide::Player1, BoxedInput(*a));
        resim.player_input(PlayerSide::Player2, BoxedInput(*b));
        resim = resim.tick(&info).unwrap();
    }
    assert_eq!(straight, resim);
}

#[test]
fn jump_rises_and_landing_returns_to_idle() {
    let info = make_info();
    let mut g = GameState::new(&info);
    g.player_input(PlayerSide::Player1, holding(&[Action::MoveUp]));
    g = g.tick(&info).unwrap();
    assert!(matches!(g.player_1.current_state, CharacterState::Airborne(_)));
    assert!(g.player_1.velocity.y.0 < 0);
    g.player_input(PlayerSide::Player1, BoxedInput::new());
    let mut landed_at = None;
    for i in 0..200 {
        g = g.tick(&info).unwrap();
        if matches!(g.player_1.current_state, CharacterState::Idle(_)) && g.player_1.grounded {
            landed_at = Some(i);
            break;
        }
    }
    assert!(landed_at.is_some(), "never landed");
    assert_eq!(g.player_1.position.y, FixedPoint(0));
}

#[test]
fn edge_triggered_history_logs_changes_only() {
    let info = make_info();
    let mut g = GameState::new(&info);
    let held = holding(&[Action::MoveRight]);
    g.player_input(PlayerSide::Player1, held);
    let after_first = g.player(PlayerSide::Player1).input_history.events.len();
    // two direction events: neutral released, right pressed
    assert_eq!(after_first, 2);
    g.player_input(PlayerSide::Player1, held);
    // a level repeat is not an edge: nothing is appended
    assert_eq!(g.player(PlayerSide::Player1).input_history.events.len(), after_first);
    g.player_input(PlayerSide::Player1, holding(&[Action::MoveRight, Action::Punch]));
    // a button press appends exactly its own edge
    assert_eq!(
        g.player(PlayerSide::Player1).input_history.events.len(),
        after_first + 1
    );
}

#[test]
fn damage_has_no_floor_and_health_may_go_negative() {
    let info = make_info();
    let mut g = GameState::new(&info);
    let p = g.player_mut(PlayerSide::Player2);
    p.apply_effect(&Effect::Damage(units(150))).unwrap();
    assert_eq!(p.health, units(-50));
}

#[test]
fn damage_overflow_is_reported_and_changes_nothing() {
    let info = make_info();
    let mut g = GameState::new(&info);
    let p = g.player_mut(PlayerSide::Player2);
    p.health = FixedPoint(i32::MIN + 1);
    assert_eq!(
        p.apply_effect(&Effect::Damage(units(100))),
        Err(ArithmeticError::Overflow)
    );
    assert_eq!(p.health, FixedPoint(i32::MIN + 1));
}

#[test]
fn forced_state_change_effect_requests_at_forced_priority() {
    let info = make_info();
    let mut g = GameState::new(&info);
    let p = g.player_mut(PlayerSide::Player1);
    let target = CharacterState::Blockstun(BlockstunState(9));
    p.apply_effect(&Effect::StateChange(target)).unwrap();
    let reqs = &p.state_transition_requests.requests;
    assert_eq!(reqs.len(), 1);
    assert_eq!(reqs[0].state, target);
    assert_eq!(reqs[0].insert_priority, usize::MAX);
}

#[test]
fn knockback_points_away_from_the_target_facing() {
    let info = make_info();
    let mut g = GameState::new(&info);
    // player 1 faces right: knockback pushes toward negative x
    g.player_mut(PlayerSide::Player1).apply_effect(&Effect::Knockback(units(30))).unwrap();
    assert_eq!(g.player(PlayerSide::Player1).velocity.x, units(-30));
    // player 2 faces left: knockback pushes toward positive x
    g.player_mut(PlayerSide::Player2).apply_effect(&Effect::Knockback(units(30))).unwrap();
    assert_eq!(g.player(PlayerSide::Player2).velocity.x, units(30));
}

#[test]
fn simultaneous_punches_trade() {
    // candidates are collected for both directions before any effect is
    // applied, so two punches landing on the same frame trade: each side
    // takes the hit even though it also lands one
    let info = make_info();
    let mut g = GameState::new(&info);
    g.player_input(PlayerSide::Player1, holding(&[Action::Punch]));
    g.player_input(PlayerSide::Player2, holding(&[Action::Punch]));
    let g = g.tick(&info).unwrap();
    for side in [PlayerSide::Player1, PlayerSide::Player2] {
        let p = g.player(side);
        assert_eq!(p.current_state, CharacterState::Hitstun(HitstunState(14)));
        assert_eq!(p.health, units(98));
        // being forced out of the punch ran its exit hook, which disarms
        // the attack
        assert!(p.current_attack.is_none());
    }
}
