//! Raw per-frame input and the edge-triggered input history.
//!
//! A [`BoxedInput`] is the abstract button state of one player for one frame,
//! packed in a byte.  The [`InputHistory`] is an append-only log of edges
//! (direction-class changes and button presses/releases) ordered by frame;
//! an [`InputIter`] walks it newest-first and stops once an event falls out
//! of a bounded recency window measured on the with-freeze counter, so
//! buffered inputs keep expiring during hitstop.

use vstd::prelude::*;

verus! {

use crate::time::Frame;

/// Abstract action a device button can map to.
#[derive(Debug, Clone, Copy, PartialEq, Eq, Hash, Structural)]
pub enum Action {
    MoveLeft,
    MoveRight,
    MoveUp,
    MoveDown,
    Punch,
    Kick,
}

/// Bit index of an action inside a [`BoxedInput`] byte.
pub open spec fn action_bit(a: Action) -> usize {
    match a {
        Action::MoveLeft => 0,
        Action::MoveRight => 1,
        Action::MoveUp => 2,
        Action::MoveDown => 3,
        Action::Punch => 4,
        Action::Kick => 5,
    }
}

/// Single-bit mask of an action inside a [`BoxedInput`] byte.
pub open spec fn action_mask(a: Action) -> u8 {
    match a {
        Action::MoveLeft => 1,
        Action::MoveRight => 2,
        Action::MoveUp => 4,
        Action::MoveDown => 8,
        Action::Punch => 16,
        Action::Kick => 32,
    }
}

impl Action {
    /// Bit index of this action in the packed input byte.
    pub fn bit(self) -> (r: usize)
        ensures
            r == action_bit(self),
    {
        match self {
            Action::MoveLeft => 0,
            Action::MoveRight => 1,
            Action::MoveUp => 2,
            Action::MoveDown => 3,
            Action::Punch => 4,
            Action::Kick => 5,
        }
    }

    /// Single-bit mask of this action in the packed input byte.
    pub fn mask(self) -> (r: u8)
        ensures
            r == action_mask(self),
    {
        match self {
            Action::MoveLeft => 1,
            Action::MoveRight => 2,
            Action::MoveUp => 4,
            Action::MoveDown => 8,
            Action::Punch => 16,
            Action::Kick => 32,
        }
    }
}

/// One player's raw button state for one frame, one bit per [`Action`].
#[derive(Debug, Clone, Copy, PartialEq, Eq, Hash, Structural)]
pub struct BoxedInput(pub u8);

/// Whether an action's bit is set in the packed byte.
pub open spec fn is_pressed_spec(b: BoxedInput, a: Action) -> bool {
    b.0 & action_mask(a) != 0
}

/// Direction class of a packed input byte: opposite held directions cancel
/// on each axis.
pub open spec fn input_dir_spec(b: BoxedInput) -> InputDirection {
    let left = is_pressed_spec(b, Action::MoveLeft) && !is_pressed_spec(b, Action::MoveRight);
    let right = is_pressed_spec(b, Action::MoveRight) && !is_pressed_spec(b, Action::MoveLeft);
    let up = is_pressed_spec(b, Action::MoveUp) && !is_pressed_spec(b, Action::MoveDown);
    let down = is_pressed_spec(b, Action::MoveDown) && !is_pressed_spec(b, Action::MoveUp);
    if left {
        if up {
            InputDirection::UpLeft
        } else if down {
            InputDirection::DownLeft
        } else {
            InputDirection::Left
        }
    } else if right {
        if up {
            InputDirection::UpRight
        } else if down {
            InputDirection::DownRight
        } else {
            InputDirection::Right
        }
    } else {
        if up {
            InputDirection::Up
        } else if down {
            InputDirection::Down
        } else {
            InputDirection::Neutral
        }
    }
}

impl BoxedInput {
    /// The state with no button held.
    pub fn new() -> (r: BoxedInput)
        ensures
            r.0 == 0,
    {
        BoxedInput(0)
    }

    /// Sets an action's bit.
    pub fn press(&mut self, action: Action)
        ensures
            final(self).0 == old(self).0 | action_mask(action),
    {
        self.0 = self.0 | action.mask();
    }

    /// Clears an action's bit.
    pub fn release(&mut self, action: Action)
        ensures
            final(self).0 == old(self).0 & !action_mask(action),
    {
        self.0 = self.0 & !action.mask();
    }

    /// Whether an action's bit is set.
    pub fn is_pressed(&self, action: Action) -> (r: bool)
        ensures
            r == is_pressed_spec(*self, action),
    {
        self.0 & action.mask() != 0
    }

    /// Whether an action's bit is clear.
    pub fn is_released(&self, action: Action) -> (r: bool)
        ensures
            r == !is_pressed_spec(*self, action),
    {
        !self.is_pressed(action)
    }

    /// Direction class of the held direction buttons.
    pub fn input_dir(&self) -> (r: InputDirection)
        ensures
            r == input_dir_spec(*self),
    {
        let l = self.is_pressed(Action::MoveLeft);
        let rt = self.is_pressed(Action::MoveRight);
        let u = self.is_pressed(Action::MoveUp);
        let d = self.is_pressed(Action::MoveDown);
        let left = l && !rt;
        let right = rt && !l;
        let up = u && !d;
        let down = d && !u;
        if left {
            if up {
                InputDirection::UpLeft
            } else if down {
                InputDirection::DownLeft
            } else {
                InputDirection::Left
            }
        } else if right {
            if up {
                InputDirection::UpRight
            } else if down {
                InputDirection::DownRight
            } else {
                InputDirection::Right
            }
        } else {
            if up {
                InputDirection::Up
            } else if down {
                InputDirection::Down
            } else {
                InputDirection::Neutral
            }
        }
    }
}

/// The nine direction classes of a digital input.
#[derive(Debug, Clone, Copy, PartialEq, Eq, Hash, Structural)]
pub enum InputDirection {
    Neutral,
    Right,
    DownRight,
    Down,
    DownLeft,
    Left,
    UpLeft,
    Up,
    UpRight,
}

/// The attack buttons.
#[derive(Debug, Clone, Copy, PartialEq, Eq, Hash, Structural)]
pub enum Button {
    Punch,
    Kick,
}

/// What kind of edge an input event records.
#[derive(Debug, Clone, Copy, PartialEq, Eq, Hash, Structural)]
pub enum InputKind {
    Direction(InputDirection),
    Button(Button),
}

/// One edge-triggered input event: at `frame`, `kind` became pressed or
/// released.
#[derive(Debug, Clone, Copy, PartialEq, Eq, Hash, Structural)]
pub struct InputEvent {
    pub frame: Frame,
    pub kind: InputKind,
    pub pressed: bool,
}

/// Buffered-input window, in with-freeze frames, within which a past edge
/// still counts as recently pressed.
pub const INPUT_BUFFER: usize = 5;

/// History events are ordered by the with-freeze counter: an event never
/// precedes an earlier-logged one.
pub open spec fn history_wf(events: Seq<InputEvent>) -> bool {
    forall|i: int, j: int|
        0 <= i <= j < events.len() ==> #[trigger] events[i].frame.frame_with_freeze <= #[trigger] events[j].frame.frame_with_freeze
}

/// Whether an event is inside the recency window of a query: its with-freeze
/// distance from the reference frame is at most the allowed difference.
pub open spec fn event_visible(e: InputEvent, reference: Frame, allowed_diff: nat) -> bool {
    reference.frame_with_freeze - e.frame.frame_with_freeze <= allowed_diff
}

/// The effective direction of a history prefix: the direction of the most
/// recent pressed direction edge, or neutral when none was ever logged.
pub open spec fn effective_dir(events: Seq<InputEvent>) -> InputDirection
    decreases events.len(),
{
    if events.len() == 0 {
        InputDirection::Neutral
    } else {
        let e = events.last();
        if e.pressed && e.kind is Direction {
            e.kind->Direction_0
        } else {
            effective_dir(events.drop_last())
        }
    }
}

/// Whether some visible event in the history is a press of the given button.
pub open spec fn button_pressed_within(
    events: Seq<InputEvent>,
    button: Button,
    reference: Frame,
    allowed_diff: nat,
) -> bool {
    exists|i: int|
        0 <= i < events.len() && #[trigger] events[i].pressed && events[i].kind == InputKind::Button(
            button,
        ) && event_visible(events[i], reference, allowed_diff)
}

/// Per-player rolling log of input edges, ordered by frame.
#[derive(Debug, PartialEq, Eq, Hash)]
pub struct InputHistory {
    pub events: Vec<InputEvent>,
}

/// An exact copy of an event list.
pub fn copy_events(v: &Vec<InputEvent>) -> (r: Vec<InputEvent>)
    ensures
        r@ == v@,
{
    let mut r: Vec<InputEvent> = Vec::new();
    let n = v.len();
    let mut i: usize = 0;
    while i < n
        invariant
            i <= n == v@.len(),
            r@ == v@.take(i as int),
        decreases n - i,
    {
        r.push(v[i]);
        proof {
            assert(r@ =~= v@.take(i + 1));
        }
        i = i + 1;
    }
    proof {
        assert(v@.take(n as int) =~= v@);
    }
    r
}

impl Clone for InputHistory {
    /// An exact copy of the log.
    fn clone(&self) -> (res: Self)
        ensures
            res.events@ == self.events@,
    {
        InputHistory { events: copy_events(&self.events) }
    }
}

impl InputHistory {
    /// The empty history.
    pub fn new() -> (r: InputHistory)
        ensures
            r.events@ == Seq::<InputEvent>::empty(),
    {
        InputHistory { events: Vec::new() }
    }

    /// Appends one edge event; events must be appended in frame order, which
    /// keeps the history well formed.
    pub fn add(&mut self, event: InputEvent)
        requires
            history_wf(old(self).events@),
            old(self).events@.len() > 0 ==> old(self).events@.last().frame.frame_with_freeze
                <= event.frame.frame_with_freeze,
        ensures
            final(self).events@ == old(self).events@.push(event),
            history_wf(final(self).events@),
    {
        self.events.push(event);
    }

    /// Starts a newest-first walk of the history, bounded by a recency window
    /// around a reference frame.
    pub fn iter(&self, allowed_diff: usize, current_frame: Frame) -> (r: InputIter)
        ensures
            r.events@ == self.events@,
            r.pos == self.events@.len(),
            r.allowed_diff == allowed_diff,
            r.current_frame == current_frame,
    {
        let events = copy_events(&self.events);
        let pos = events.len();
        InputIter { events, pos, allowed_diff, current_frame }
    }
}

/// A lazy, finite, restartable walk of an input history, newest first,
/// bounded by a recency window.
#[derive(Debug)]
pub struct InputIter {
    /// Snapshot of the history being walked.
    pub events: Vec<InputEvent>,
    /// How many events have not been consumed yet; the next one read is
    /// `events[pos - 1]`.
    pub pos: usize,
    /// Window width in with-freeze frames.
    pub allowed_diff: usize,
    /// Reference frame the window is measured from.
    pub current_frame: Frame,
}

/// The iterator's events all lie at or before its reference frame, and its
/// position is inside the snapshot.
pub open spec fn iter_wf(it: InputIter) -> bool {
    &&& it.pos <= it.events@.len()
    &&& forall|i: int|
        0 <= i < it.events@.len() ==> #[trigger] it.events@[i].frame.frame_with_freeze
            <= it.current_frame.frame_with_freeze
}

impl InputIter {
    /// Re-aims the window at a different reference frame.
    pub fn update_frame_basis(&mut self, new_basis: Frame)
        ensures
            *final(self) == (InputIter { current_frame: new_basis, ..*old(self) }),
    {
        self.current_frame = new_basis;
    }

    /// Changes the window width.
    pub fn update_allowed_diff(&mut self, allowed_diff: usize)
        ensures
            *final(self) == (InputIter { allowed_diff, ..*old(self) }),
    {
        self.allowed_diff = allowed_diff;
    }

    /// Yields the next event, newest first: the walk ends (and stays ended)
    /// once the snapshot is exhausted, and an event outside the window is
    /// consumed but not yielded.
    pub fn next(&mut self) -> (r: Option<InputEvent>)
        requires
            iter_wf(*old(self)),
        ensures
            iter_wf(*final(self)),
            old(self).pos == 0 ==> r is None && *final(self) == *old(self),
            old(self).pos > 0 ==> {
                let e = old(self).events@[old(self).pos - 1];
                &&& *final(self) == (InputIter { pos: (old(self).pos - 1) as usize, ..*old(self) })
                &&& event_visible(e, old(self).current_frame, old(self).allowed_diff as nat)
                    ==> r == Some(e)
                &&& !event_visible(e, old(self).current_frame, old(self).allowed_diff as nat)
                    ==> r is None
            },
    {
        if self.pos == 0 {
            return None;
        }
        let e = self.events[self.pos - 1];
        self.pos = self.pos - 1;
        if self.current_frame.since_with_freeze(e.frame) > self.allowed_diff {
            None
        } else {
            Some(e)
        }
    }

    /// The effective direction as of the walk's current position: the most
    /// recent pressed direction edge at or before it, neutral when none.
    /// The recency window does not apply here.
    pub fn input_dir_as_of_here(&self) -> (r: InputDirection)
        requires
            self.pos <= self.events@.len(),
        ensures
            r == effective_dir(self.events@.take(self.pos as int)),
    {
        let mut i: usize = self.pos;
        while i > 0
            invariant
                i <= self.pos <= self.events@.len(),
                effective_dir(self.events@.take(self.pos as int)) == effective_dir(
                    self.events@.take(i as int),
                ),
            decreases i,
        {
            let e = self.events[i - 1];
            proof {
                assert(self.events@.take(i as int).last() == self.events@[i - 1]);
                assert(self.events@.take(i as int).drop_last() =~= self.events@.take(i - 1));
            }
            if e.pressed {
                match e.kind {
                    InputKind::Direction(dir) => {
                        return dir;
                    },
                    _ => {},
                }
            }
            i = i - 1;
        }
        proof {
            assert(self.events@.take(0) =~= Seq::<InputEvent>::empty());
        }
        InputDirection::Neutral
    }
}

/// Input-buffer window law: an event logged at frame `F` is visible to a
/// query whose reference frame lies `d` with-freeze frames later exactly when
/// `d` is at most the allowed difference, and invisible for every larger `d`.
pub proof fn lemma_input_window(e: InputEvent, reference: Frame, allowed_diff: nat, d: nat)
    requires
        reference.frame_with_freeze == e.frame.frame_with_freeze + d,
    ensures
        event_visible(e, reference, allowed_diff) <==> d <= allowed_diff,
{
}

/// The window law lifted to a buffered-button query over a one-event
/// history: the press is found exactly when its distance from the reference
/// frame is within the window.
pub proof fn lemma_input_window_query(e: InputEvent, button: Button, reference: Frame, allowed_diff: nat, d: nat)
    requires
        reference.frame_with_freeze == e.frame.frame_with_freeze + d,
        e.pressed,
        e.kind == InputKind::Button(button),
    ensures
        button_pressed_within(seq![e], button, reference, allowed_diff) <==> d <= allowed_diff,
{
    if d <= allowed_diff {
        assert(seq![e][0] == e);
    }
}

} // verus!
