use pty_shell::{
    Instruction, LoopState, RawHandler, ReadRequest, ResizeStep, Source, StepResult, Winsize,
    INPUT, OUTPUT,
};

#[test]
fn a_new_loop_is_running() {
    let handler = RawHandler::new(3, 0);
    assert_eq!(handler.state, LoopState::Running);
    assert!(handler.is_running());
}

#[test]
fn shutdown_of_an_idle_loop_stops_it_without_further_reads() {
    let mut handler = RawHandler::new(3, 0);
    assert_eq!(handler.notify(Instruction::Shutdown), None);
    assert_eq!(handler.state, LoopState::ShuttingDown);
    assert!(!handler.is_running());
    assert_eq!(handler.ready(INPUT, true), None);
    assert_eq!(handler.ready(OUTPUT, true), None);
    handler.released();
    assert_eq!(handler.state, LoopState::Stopped);
    assert_eq!(handler.ready(INPUT, true), None);
    assert_eq!(handler.ready(OUTPUT, true), None);
}

#[test]
fn shutdown_leaves_baseline_and_descriptor_alone() {
    let mut handler = RawHandler::new(3, 17);
    let _ = handler.notify(Instruction::Shutdown);
    assert_eq!(handler.pty, 3);
    assert_eq!(handler.resize_count, 17);
    assert_eq!(handler.pending, None);
}

#[test]
fn a_second_shutdown_changes_nothing() {
    let mut handler = RawHandler::new(3, 0);
    let _ = handler.notify(Instruction::Shutdown);
    let once = handler;
    assert_eq!(handler.notify(Instruction::Shutdown), None);
    assert_eq!(handler, once);
    handler.released();
    let stopped = handler;
    assert_eq!(handler.notify(Instruction::Shutdown), None);
    assert_eq!(handler, stopped);
}

#[test]
fn release_of_a_running_loop_changes_nothing() {
    let mut handler = RawHandler::new(3, 0);
    handler.released();
    assert_eq!(handler, RawHandler::new(3, 0));
    assert_eq!(
        handler.ready(INPUT, true),
        Some(ReadRequest { source: Source::Input, capacity: 128 })
    );
}

#[test]
fn a_stopped_loop_stays_stopped() {
    let mut handler = RawHandler::new(3, 0);
    let _ = handler.notify(Instruction::Shutdown);
    handler.released();
    handler.released();
    assert_eq!(handler.state, LoopState::Stopped);
    let _ = handler.notify(Instruction::Resize);
    assert_eq!(handler.state, LoopState::Stopped);
}

#[test]
fn a_resize_does_not_touch_the_loop_state() {
    let mut handler = RawHandler::new(3, 0);
    let size = Winsize { ws_row: 24, ws_col: 80, ws_xpixel: 0, ws_ypixel: 0 };
    assert_eq!(handler.notify(Instruction::Resize), Some(ResizeStep::Query { fd: 0 }));
    assert!(handler.is_running());
    let _ = handler.resume(StepResult::Geometry(size));
    let _ = handler.resume(StepResult::Done);
    let _ = handler.resume(StepResult::Done);
    let _ = handler.resume(StepResult::Count(1));
    assert!(handler.is_running());
}

#[test]
fn loop_state_shutdown() {
    assert_eq!(LoopState::Running.shutdown(), LoopState::ShuttingDown);
    assert_eq!(LoopState::ShuttingDown.shutdown(), LoopState::ShuttingDown);
    assert_eq!(LoopState::Stopped.shutdown(), LoopState::Stopped);
}

#[test]
fn loop_state_release() {
    assert_eq!(LoopState::Running.release(), LoopState::Running);
    assert_eq!(LoopState::ShuttingDown.release(), LoopState::Stopped);
    assert_eq!(LoopState::Stopped.release(), LoopState::Stopped);
}

#[test]
fn loop_state_is_running() {
    assert!(LoopState::Running.is_running());
    assert!(!LoopState::ShuttingDown.is_running());
    assert!(!LoopState::Stopped.is_running());
}

#[test]
fn tick_still_detects_signals_while_shutting_down() {
    let mut handler = RawHandler::new(3, 0);
    let _ = handler.notify(Instruction::Shutdown);
    assert_eq!(handler.tick(1), Some(Instruction::Resize));
    assert_eq!(handler.tick(0), None);
}
