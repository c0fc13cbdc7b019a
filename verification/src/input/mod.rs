//! The avatar input state: which way the avatar moves and looks, how the
//! movement commands change it, and which messages an evaluation sends.
use vstd::prelude::*;

verus! {

/// The position of one input axis. A pressed key drives its axis fully to
/// one side; a released axis rests in the middle.
#[derive(Clone, Copy, Debug, PartialEq, Eq, Structural)]
pub enum Axis {
    Negative,
    Neutral,
    Positive,
}

impl Axis {
    /// The number the axis stands for on the wire.
    pub open spec fn spec_value(self) -> int {
        match self {
            Axis::Negative => -1,
            Axis::Neutral => 0,
            Axis::Positive => 1,
        }
    }

    /// Returns the number the axis stands for on the wire: -1, 0 or 1.
    pub fn value(&self) -> (v: i8)
        ensures
            v == self.spec_value(),
    {
        match self {
            Axis::Negative => -1,
            Axis::Neutral => 0,
            Axis::Positive => 1,
        }
    }
}

/// What an input handler holds, as one value.
#[derive(Clone, Copy, Debug, PartialEq, Eq, Structural)]
pub struct InputState {
    pub vertical: Axis,
    pub horizontal: Axis,
    pub looking: Axis,
}

impl InputState {
    /// The state with every axis at rest.
    pub open spec fn neutral() -> InputState {
        InputState { vertical: Axis::Neutral, horizontal: Axis::Neutral, looking: Axis::Neutral }
    }

    /// The state with the horizontal movement set to `a`.
    pub open spec fn with_horizontal(self, a: Axis) -> InputState {
        InputState { horizontal: a, ..self }
    }

    /// The state with the vertical movement set to `a`.
    pub open spec fn with_vertical(self, a: Axis) -> InputState {
        InputState { vertical: a, ..self }
    }

    /// The state with the looking direction set to `a`.
    pub open spec fn with_looking(self, a: Axis) -> InputState {
        InputState { looking: a, ..self }
    }
}

#[derive(Clone, Copy, Debug)]
struct Movement {
    vertical: Axis,
    horizontal: Axis,
}

#[derive(Clone, Copy, Debug)]
struct Looking(Axis);

/// The input of the avatar that has not been sent yet.
#[derive(Clone, Copy, Debug)]
pub struct InputHandler {
    movement: Movement,
    looking_to: Looking,
}

impl View for InputHandler {
    type V = InputState;

    closed spec fn view(&self) -> InputState {
        InputState {
            vertical: self.movement.vertical,
            horizontal: self.movement.horizontal,
            looking: self.looking_to.0,
        }
    }
}

/// The OSC path, below the input base address, of the vertical movement.
pub const MOV_VERTICALLY: &'static str = "/Vertical";

/// The OSC path, below the input base address, of the horizontal movement.
pub const MOV_HORIZONTALLY: &'static str = "/Horizontal";

/// The OSC path, below the input base address, of the horizontal looking.
pub const LOOKING_HORIZONTALLY: &'static str = "/LookHorizontal";

/// The number of messages one evaluation sends.
pub const MESSAGES_PER_EVAL: usize = 3;

/// One value to send: the path of the input below the base address, and the
/// axis position to send there.
#[derive(Clone, Copy, Debug)]
pub struct AxisMessage {
    pub path: &'static str,
    pub axis: Axis,
}

/// The path of the `i`-th message of an evaluation.
pub open spec fn message_path(i: int) -> Seq<char> {
    if i == 0 {
        MOV_VERTICALLY@
    } else if i == 1 {
        MOV_HORIZONTALLY@
    } else {
        LOOKING_HORIZONTALLY@
    }
}

/// The axis sent by the `i`-th message of an evaluation of `s`.
pub open spec fn message_axis(s: InputState, i: int) -> Axis {
    if i == 0 {
        s.vertical
    } else if i == 1 {
        s.horizontal
    } else {
        s.looking
    }
}

/// Whether `m` is the `i`-th message of an evaluation of `s`.
pub open spec fn is_message(m: AxisMessage, s: InputState, i: int) -> bool {
    m.path@ == message_path(i) && m.axis == message_axis(s, i)
}

impl InputHandler {
    /// A handler with every axis at rest.
    fn new() -> (h: Self)
        ensures
            h@ == InputState::neutral(),
    {
        InputHandler {
            movement: Movement { vertical: Axis::Neutral, horizontal: Axis::Neutral },
            looking_to: Looking(Axis::Neutral),
        }
    }

    fn update_movement(&mut self, movement: Movement)
        ensures
            final(self)@ == (InputState {
                vertical: movement.vertical,
                horizontal: movement.horizontal,
                looking: old(self)@.looking,
            }),
    {
        self.movement = movement;
    }

    fn update_looking(&mut self, looking_to: Looking)
        ensures
            final(self)@ == old(self)@.with_looking(looking_to.0),
    {
        self.looking_to = looking_to;
    }

    fn reset_all(&mut self)
        ensures
            final(self)@ == InputState::neutral(),
    {
        self.movement = Movement { vertical: Axis::Neutral, horizontal: Axis::Neutral };
        self.looking_to = Looking(Axis::Neutral);
    }

    /// Returns the state the handler holds.
    pub fn state(&self) -> (s: InputState)
        ensures
            s == self@,
    {
        InputState {
            vertical: self.movement.vertical,
            horizontal: self.movement.horizontal,
            looking: self.looking_to.0,
        }
    }

    /// Moves right: the horizontal movement becomes positive.
    pub fn mov_right(&mut self)
        ensures
            final(self)@ == old(self)@.with_horizontal(Axis::Positive),
    {
        self.update_movement(
            Movement { horizontal: Axis::Positive, vertical: self.movement.vertical },
        )
    }

    /// Moves left: the horizontal movement becomes negative.
    pub fn mov_left(&mut self)
        ensures
            final(self)@ == old(self)@.with_horizontal(Axis::Negative),
    {
        self.update_movement(
            Movement { horizontal: Axis::Negative, vertical: self.movement.vertical },
        )
    }

    /// Moves forward: the vertical movement becomes positive.
    pub fn mov_forward(&mut self)
        ensures
            final(self)@ == old(self)@.with_vertical(Axis::Positive),
    {
        self.update_movement(
            Movement { horizontal: self.movement.horizontal, vertical: Axis::Positive },
        )
    }

    /// Moves backward: the vertical movement becomes negative.
    pub fn mov_backward(&mut self)
        ensures
            final(self)@ == old(self)@.with_vertical(Axis::Negative),
    {
        self.update_movement(
            Movement { horizontal: self.movement.horizontal, vertical: Axis::Negative },
        )
    }

    /// Looks right: the looking direction becomes positive.
    pub fn look_right(&mut self)
        ensures
            final(self)@ == old(self)@.with_looking(Axis::Positive),
    {
        self.update_looking(Looking(Axis::Positive));
    }

    /// Looks left: the looking direction becomes negative.
    pub fn look_left(&mut self)
        ensures
            final(self)@ == old(self)@.with_looking(Axis::Negative),
    {
        self.update_looking(Looking(Axis::Negative));
    }

    /// Returns the `index`-th message of an evaluation of the current state:
    /// the vertical movement, then the horizontal movement, then the looking
    /// direction.
    fn message(&self, index: usize) -> (m: AxisMessage)
        requires
            index < MESSAGES_PER_EVAL,
        ensures
            is_message(m, self@, index as int),
    {
        if index == 0 {
            AxisMessage { path: MOV_VERTICALLY, axis: self.movement.vertical }
        } else if index == 1 {
            AxisMessage { path: MOV_HORIZONTALLY, axis: self.movement.horizontal }
        } else {
            AxisMessage { path: LOOKING_HORIZONTALLY, axis: self.looking_to.0 }
        }
    }

    /// One step of an evaluation, in which the pending input is sent and
    /// then cleared. `delivered` is how many messages of this evaluation have
    /// been sent so far. While some are left, the next one is returned and
    /// the state is kept; once all have been sent, nothing is returned and
    /// every axis returns to rest. An evaluation that stops early, because
    /// a message could not be sent, leaves the input pending.
    pub fn eval(&mut self, delivered: usize) -> (next: Option<AxisMessage>)
        ensures
            delivered < MESSAGES_PER_EVAL ==> {
                &&& final(self)@ == old(self)@
                &&& next matches Some(m) && is_message(m, old(self)@, delivered as int)
            },
            delivered >= MESSAGES_PER_EVAL ==> {
                &&& final(self)@ == InputState::neutral()
                &&& next is None
            },
    {
        if delivered < MESSAGES_PER_EVAL {
            Some(self.message(delivered))
        } else {
            self.reset_all();
            None
        }
    }
}

impl Default for InputHandler {
    fn default() -> (h: Self)
        ensures
            h@ == InputState::neutral(),
    {
        Self::new()
    }
}

/// The horizontal movement, the vertical movement and the looking direction
/// are independent: setting two of them gives the same state in either
/// order.
pub proof fn lemma_axes_independent(s: InputState, a: Axis, b: Axis)
    ensures
        s.with_horizontal(a).with_vertical(b) == s.with_vertical(b).with_horizontal(a),
        s.with_horizontal(a).with_looking(b) == s.with_looking(b).with_horizontal(a),
        s.with_vertical(a).with_looking(b) == s.with_looking(b).with_vertical(a),
{
}

/// On one axis the last command wins: a command overrides every earlier
/// command on the same axis, and repeating a command changes nothing.
pub proof fn lemma_last_command_wins(s: InputState, a: Axis, b: Axis)
    ensures
        s.with_horizontal(a).with_horizontal(b) == s.with_horizontal(b),
        s.with_vertical(a).with_vertical(b) == s.with_vertical(b),
        s.with_looking(a).with_looking(b) == s.with_looking(b),
{
}

/// An evaluation sends each axis once, each to an address of its own, and
/// a completed evaluation leaves every axis at rest, so that the next
/// evaluation, with no command in between, sends only resting axes.
pub proof fn lemma_eval_sends_each_axis_once(s: InputState, i: int, j: int)
    requires
        0 <= i < MESSAGES_PER_EVAL,
        0 <= j < MESSAGES_PER_EVAL,
        i != j,
    ensures
        message_path(i) != message_path(j),
        message_axis(InputState::neutral(), i) == Axis::Neutral,
        message_axis(s, 0) == s.vertical,
        message_axis(s, 1) == s.horizontal,
        message_axis(s, 2) == s.looking,
{
    reveal_strlit("/Vertical");
    reveal_strlit("/Horizontal");
    reveal_strlit("/LookHorizontal");
    assert(MOV_VERTICALLY@.len() != MOV_HORIZONTALLY@.len());
    assert(MOV_VERTICALLY@.len() != LOOKING_HORIZONTALLY@.len());
    assert(MOV_HORIZONTALLY@.len() != LOOKING_HORIZONTALLY@.len());
}

/// Each setter changes its own axis to the given position and leaves the
/// other two as they were.
pub proof fn lemma_setters_touch_one_axis(s: InputState, a: Axis)
    ensures
        s.with_horizontal(a).horizontal == a,
        s.with_horizontal(a).vertical == s.vertical,
        s.with_horizontal(a).looking == s.looking,
        s.with_vertical(a).vertical == a,
        s.with_vertical(a).horizontal == s.horizontal,
        s.with_vertical(a).looking == s.looking,
        s.with_looking(a).looking == a,
        s.with_looking(a).vertical == s.vertical,
        s.with_looking(a).horizontal == s.horizontal,
        InputState::neutral().vertical == Axis::Neutral,
        InputState::neutral().horizontal == Axis::Neutral,
        InputState::neutral().looking == Axis::Neutral,
{
}

/// An evaluation sends the vertical movement to `/Vertical`, the horizontal
/// movement to `/Horizontal` and the looking direction to `/LookHorizontal`,
/// in that order, and each axis goes on the wire as -1, 0 or 1 by its side.
pub proof fn lemma_eval_addresses_and_values(s: InputState)
    ensures
        message_path(0) == seq!['/', 'V', 'e', 'r', 't', 'i', 'c', 'a', 'l'],
        message_path(1) == seq!['/', 'H', 'o', 'r', 'i', 'z', 'o', 'n', 't', 'a', 'l'],
        message_path(2) == seq![
            '/', 'L', 'o', 'o', 'k', 'H', 'o', 'r', 'i', 'z', 'o', 'n', 't', 'a', 'l',
        ],
        message_axis(s, 0) == s.vertical,
        message_axis(s, 1) == s.horizontal,
        message_axis(s, 2) == s.looking,
        Axis::Negative.spec_value() == -1,
        Axis::Neutral.spec_value() == 0,
        Axis::Positive.spec_value() == 1,
{
    reveal_strlit("/Vertical");
    reveal_strlit("/Horizontal");
    reveal_strlit("/LookHorizontal");
    assert(message_path(0) =~= seq!['/', 'V', 'e', 'r', 't', 'i', 'c', 'a', 'l']);
    assert(message_path(1) =~= seq!['/', 'H', 'o', 'r', 'i', 'z', 'o', 'n', 't', 'a', 'l']);
    assert(message_path(2) =~= seq![
        '/', 'L', 'o', 'o', 'k', 'H', 'o', 'r', 'i', 'z', 'o', 'n', 't', 'a', 'l',
    ]);
}

} // verus!
