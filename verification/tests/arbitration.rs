use fightcore::character::{
    arbitrate, AirborneState, BlockstunState, CharacterState, HitstunState, IdleState,
    JumpDirection, StateTransitionRequest, StateTransitionRequests,
};
use fightcore::input::{Button, InputEvent, InputHistory, InputKind};
use fightcore::movelist::{InputMatcher, Move, Movelist, StateMatcher};
use fightcore::time::Frame;

fn requests(reqs: &[StateTransitionRequest]) -> StateTransitionRequests {
    let mut r = StateTransitionRequests::new();
    for req in reqs {
        r.add(*req);
    }
    r
}

#[test]
fn empty_phase_changes_nothing() {
    assert_eq!(arbitrate(0, &StateTransitionRequests::new()), None);
    assert_eq!(arbitrate(usize::MAX, &StateTransitionRequests::new()), None);
}

#[test]
fn request_at_or_below_current_priority_is_discarded() {
    let req = StateTransitionRequest {
        state: AirborneState(JumpDirection::Up).wrap(),
        insert_priority: 1000,
    };
    assert_eq!(arbitrate(1000, &requests(&[req])), None);
    assert_eq!(arbitrate(1001, &requests(&[req])), None);
}

#[test]
fn stronger_request_switches_state() {
    let req = StateTransitionRequest {
        state: HitstunState(14).wrap(),
        insert_priority: usize::MAX,
    };
    assert_eq!(arbitrate(1000, &requests(&[req])), Some(HitstunState(14).wrap()));
}

#[test]
fn strongest_request_wins_and_later_wins_ties() {
    let weak = StateTransitionRequest { state: IdleState.wrap(), insert_priority: 10 };
    let early = StateTransitionRequest {
        state: BlockstunState(3).wrap(),
        insert_priority: 1000,
    };
    let late = StateTransitionRequest {
        state: HitstunState(7).wrap(),
        insert_priority: 1000,
    };
    assert_eq!(
        arbitrate(0, &requests(&[weak, early, late])),
        Some(HitstunState(7).wrap())
    );
    assert_eq!(
        arbitrate(0, &requests(&[early, late, weak])),
        Some(HitstunState(7).wrap())
    );
}

#[test]
fn take_drains_and_returns_the_stable_maximum() {
    let early = StateTransitionRequest {
        state: BlockstunState(3).wrap(),
        insert_priority: 50,
    };
    let late = StateTransitionRequest { state: HitstunState(7).wrap(), insert_priority: 50 };
    let mut acc = requests(&[early, late]);
    assert_eq!(acc.take(), Some(late));
    assert_eq!(acc.take(), None);
}

#[test]
fn default_insertion_priority_is_the_target_state_priority() {
    let req = StateTransitionRequest::new(AirborneState(JumpDirection::Left).wrap(), None);
    assert_eq!(req.insert_priority, 1000);
    let req = StateTransitionRequest::new(IdleState.wrap(), Some(42));
    assert_eq!(req.insert_priority, 42);
    let req = StateTransitionRequest::new(IdleState.wrap(), None);
    assert_eq!(req.insert_priority, 0);
}

#[test]
fn movelist_picks_max_priority_with_later_declaration_on_ties() {
    let frame = Frame { frame_with_freeze: 10, frame_without_freeze: 10 };
    let mut history = InputHistory::new();
    history.add(InputEvent { frame, kind: InputKind::Button(Button::Punch), pressed: true });
    let weak = Move {
        name: "weak".to_string(),
        input_matcher: InputMatcher::neutral_normal(Button::Punch),
        state_matcher: StateMatcher::any(),
        priority: 5,
        new_state: BlockstunState(1).wrap(),
        stops_momentum: false,
    };
    let first = Move {
        name: "first".to_string(),
        input_matcher: InputMatcher::neutral_normal(Button::Punch),
        state_matcher: StateMatcher::any(),
        priority: 10,
        new_state: HitstunState(1).wrap(),
        stops_momentum: false,
    };
    let second = Move {
        name: "second".to_string(),
        input_matcher: InputMatcher::neutral_normal(Button::Punch),
        state_matcher: StateMatcher::any(),
        priority: 10,
        new_state: AirborneState(JumpDirection::Up).wrap(),
        stops_momentum: true,
    };
    let list = Movelist::new(vec![weak, first, second]);
    let chosen = list.perform(frame, &IdleState.wrap(), &history).unwrap();
    assert_eq!(chosen.name, "second");
}

#[test]
fn movelist_requires_both_predicates() {
    let frame = Frame { frame_with_freeze: 10, frame_without_freeze: 10 };
    let empty_history = InputHistory::new();
    let mut punch_history = InputHistory::new();
    punch_history.add(InputEvent { frame, kind: InputKind::Button(Button::Punch), pressed: true });
    let mov = Move {
        name: "punch".to_string(),
        input_matcher: InputMatcher::neutral_normal(Button::Punch),
        state_matcher: StateMatcher::idle(),
        priority: 10,
        new_state: HitstunState(1).wrap(),
        stops_momentum: false,
    };
    let list = Movelist::new(vec![mov]);
    // wrong input
    assert!(list.perform(frame, &IdleState.wrap(), &empty_history).is_none());
    // wrong state
    assert!(list
        .perform(frame, &BlockstunState(3).wrap(), &punch_history)
        .is_none());
    // both hold
    assert!(list.perform(frame, &IdleState.wrap(), &punch_history).is_some());
}

#[test]
fn state_matchers_classify_the_state_sum() {
    let idle = IdleState.wrap();
    let air = AirborneState(JumpDirection::Up).wrap();
    let block = BlockstunState(2).wrap();
    let hit = HitstunState(2).wrap();
    assert!(StateMatcher::any().matches(&idle));
    assert!(StateMatcher::idle().matches(&idle));
    assert!(!StateMatcher::idle().matches(&air));
    assert!(StateMatcher::airborne().matches(&air));
    assert!(StateMatcher::blockstun().matches(&block));
    assert!(StateMatcher::hitstun().matches(&hit));
    assert!(StateMatcher::specific(CharacterState::Blockstun(BlockstunState(2))).matches(&block));
    assert!(!StateMatcher::specific(CharacterState::Blockstun(BlockstunState(3))).matches(&block));
}
