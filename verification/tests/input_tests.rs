use vrc_keyboard::input::{
    Axis, AxisMessage, InputHandler, InputState, LOOKING_HORIZONTALLY, MESSAGES_PER_EVAL,
    MOV_HORIZONTALLY, MOV_VERTICALLY,
};

fn neutral() -> InputState {
    InputState { vertical: Axis::Neutral, horizontal: Axis::Neutral, looking: Axis::Neutral }
}

fn run_eval(handler: &mut InputHandler) -> Vec<AxisMessage> {
    let mut sent = Vec::new();
    let mut delivered = 0;
    while let Some(m) = handler.eval(delivered) {
        sent.push(m);
        delivered += 1;
    }
    sent
}

#[test]
fn default_handler_is_at_rest() {
    let h = InputHandler::default();
    assert_eq!(h.state(), neutral());
}

#[test]
fn axis_values_on_the_wire() {
    assert_eq!(Axis::Negative.value(), -1);
    assert_eq!(Axis::Neutral.value(), 0);
    assert_eq!(Axis::Positive.value(), 1);
}

#[test]
fn movement_commands_set_one_axis() {
    let mut h = InputHandler::default();
    h.mov_right();
    assert_eq!(h.state(), InputState { horizontal: Axis::Positive, ..neutral() });
    h.mov_forward();
    assert_eq!(
        h.state(),
        InputState { vertical: Axis::Positive, horizontal: Axis::Positive, looking: Axis::Neutral }
    );
    h.mov_left();
    assert_eq!(
        h.state(),
        InputState { vertical: Axis::Positive, horizontal: Axis::Negative, looking: Axis::Neutral }
    );
    h.mov_backward();
    assert_eq!(
        h.state(),
        InputState { vertical: Axis::Negative, horizontal: Axis::Negative, looking: Axis::Neutral }
    );
}

#[test]
fn looking_commands_leave_movement() {
    let mut h = InputHandler::default();
    h.mov_forward();
    h.look_right();
    assert_eq!(
        h.state(),
        InputState { vertical: Axis::Positive, horizontal: Axis::Neutral, looking: Axis::Positive }
    );
    h.look_left();
    assert_eq!(h.state().looking, Axis::Negative);
    assert_eq!(h.state().vertical, Axis::Positive);
}

#[test]
fn last_command_on_an_axis_wins() {
    let mut h = InputHandler::default();
    h.mov_left();
    h.mov_right();
    h.mov_right();
    assert_eq!(h.state().horizontal, Axis::Positive);
}

#[test]
fn commands_on_different_axes_commute() {
    let mut a = InputHandler::default();
    a.mov_forward();
    a.mov_left();
    let mut b = InputHandler::default();
    b.mov_left();
    b.mov_forward();
    assert_eq!(a.state(), b.state());
}

#[test]
fn eval_sends_three_messages_then_rests() {
    let mut h = InputHandler::default();
    h.mov_backward();
    h.mov_right();
    h.look_left();
    let sent = run_eval(&mut h);
    assert_eq!(sent.len(), MESSAGES_PER_EVAL);
    assert_eq!(sent[0].path, "/Vertical");
    assert_eq!(sent[0].axis, Axis::Negative);
    assert_eq!(sent[1].path, "/Horizontal");
    assert_eq!(sent[1].axis, Axis::Positive);
    assert_eq!(sent[2].path, "/LookHorizontal");
    assert_eq!(sent[2].path, LOOKING_HORIZONTALLY);
    assert_eq!(sent[2].axis, Axis::Negative);
    assert_eq!(h.state(), neutral());
}

#[test]
fn second_eval_sends_resting_axes() {
    let mut h = InputHandler::default();
    h.mov_forward();
    h.look_right();
    let _ = run_eval(&mut h);
    let sent = run_eval(&mut h);
    assert_eq!(sent.len(), 3);
    assert!(sent.iter().all(|m| m.axis == Axis::Neutral));
}

#[test]
fn interrupted_eval_keeps_input() {
    let mut h = InputHandler::default();
    h.mov_forward();
    let first = h.eval(0).expect("a message is due");
    assert_eq!(first.path, MOV_VERTICALLY);
    assert_eq!(first.axis, Axis::Positive);
    let second = h.eval(1).expect("a message is due");
    assert_eq!(second.path, MOV_HORIZONTALLY);
    // the sending failed here: the input stays pending
    assert_eq!(h.state().vertical, Axis::Positive);
    let sent = run_eval(&mut h);
    assert_eq!(sent[0].axis, Axis::Positive);
    assert_eq!(h.state(), neutral());
}

#[test]
fn eval_past_the_end_resets() {
    let mut h = InputHandler::default();
    h.look_left();
    assert!(h.eval(7).is_none());
    assert_eq!(h.state(), neutral());
}
