use stepper::{
    EdgeEvent, EdgeOutcome, EdgePolarity, LineAction, MotionState, State, StepperMotor,
    SwitchLine, all_off, directive_for_edge, monitor_react, row_for,
};

fn edge(line: SwitchLine, polarity: EdgePolarity) -> EdgeEvent {
    EdgeEvent { line, polarity }
}

#[test]
fn falling_edge_on_line_a_commands_forward() {
    assert_eq!(directive_for_edge(edge(SwitchLine::LineA, EdgePolarity::Falling)), State::Forward);
}

#[test]
fn falling_edge_on_line_b_commands_backward() {
    assert_eq!(directive_for_edge(edge(SwitchLine::LineB, EdgePolarity::Falling)), State::Backward);
}

#[test]
fn rising_edge_on_either_line_commands_stop() {
    assert_eq!(directive_for_edge(edge(SwitchLine::LineA, EdgePolarity::Rising)), State::Stop);
    assert_eq!(directive_for_edge(edge(SwitchLine::LineB, EdgePolarity::Rising)), State::Stop);
}

#[test]
fn edge_event_sets_directive_and_rearms() {
    let mut motor = StepperMotor::new();
    motor.state.index = 3;
    let a = monitor_react(
        &mut motor,
        EdgeOutcome::Edge(edge(SwitchLine::LineB, EdgePolarity::Falling)),
    );
    assert_eq!(a, LineAction::Rearm);
    assert_eq!(motor.state.directive, State::Backward);
    assert_eq!(motor.state.index, 3);
}

#[test]
fn transient_read_failure_rearms_without_touching_state() {
    let mut motor = StepperMotor::new();
    motor.set_state(State::Forward);
    motor.state.index = 2;
    let a = monitor_react(&mut motor, EdgeOutcome::TransientError);
    assert_eq!(a, LineAction::Rearm);
    assert_eq!(motor.state.directive, State::Forward);
    assert_eq!(motor.state.index, 2);
}

#[test]
fn closed_source_terminates_that_line() {
    let mut motor = StepperMotor::new();
    motor.set_state(State::Backward);
    let a = monitor_react(&mut motor, EdgeOutcome::SourceClosed);
    assert_eq!(a, LineAction::Terminate);
    assert_eq!(motor.state.directive, State::Backward);
    assert_eq!(motor.state.index, 0);
}

#[test]
fn end_to_end_forward_backward_stop() {
    let mut motor = StepperMotor::new();
    motor.set_state(State::Forward);
    for expected in [1u8, 2, 3] {
        let r = motor.state.read_and_advance();
        assert_eq!(motor.state.index, expected);
        assert_eq!(r, row_for(expected));
    }
    motor.set_state(State::Backward);
    let r = motor.state.read_and_advance();
    assert_eq!(motor.state.index, 2);
    assert_eq!(r, row_for(2));
    let a = monitor_react(
        &mut motor,
        EdgeOutcome::Edge(edge(SwitchLine::LineA, EdgePolarity::Rising)),
    );
    assert_eq!(a, LineAction::Rearm);
    assert_eq!(motor.state.directive, State::Stop);
    let r = motor.state.read_and_advance();
    assert_eq!(r, all_off());
    assert_eq!(motor.state.index, 2);
}

#[test]
fn interleaved_directive_flips_and_advances_stay_in_range() {
    let runtime = tokio::runtime::Builder::new_multi_thread()
        .worker_threads(4)
        .build()
        .unwrap();
    runtime.block_on(async {
        let motor = std::sync::Arc::new(std::sync::Mutex::new(StepperMotor::new()));
        let mut handles = Vec::new();
        for task_id in 0..4u8 {
            let shared = std::sync::Arc::clone(&motor);
            handles.push(tokio::spawn(async move {
                for i in 0..500u32 {
                    if task_id < 2 {
                        let d = match (i + u32::from(task_id)) % 3 {
                            0 => State::Forward,
                            1 => State::Backward,
                            _ => State::Stop,
                        };
                        let mut guard = shared.lock().unwrap();
                        guard.set_state(d);
                        assert!(guard.state.index < 8);
                    } else {
                        let mut guard = shared.lock().unwrap();
                        let row = guard.state.read_and_advance();
                        let index = guard.state.index;
                        assert!(index < 8);
                        if guard.state.directive == State::Stop {
                            assert_eq!(row, all_off());
                        } else {
                            assert_eq!(row, row_for(index));
                        }
                    }
                    if i % 64 == 0 {
                        tokio::task::yield_now().await;
                    }
                }
            }));
        }
        for h in handles {
            h.await.unwrap();
        }
        assert!(motor.lock().unwrap().state.index < 8);
    });
}
