use eruption::script::{
    count_down, dispatch, latch_for, Handler, HostStep, Latch, Message, RunScriptResult,
    ScriptingError,
};

#[test]
fn dispatch_upcalls() {
    assert_eq!(
        dispatch(Message::Tick(7)),
        HostStep::Upcall { handler: Handler::OnTick, arg: 7, latch: None }
    );
    assert_eq!(
        dispatch(Message::Quit(3)),
        HostStep::Upcall { handler: Handler::OnQuit, arg: 3, latch: None }
    );
    assert_eq!(
        dispatch(Message::KeyDown(30)),
        HostStep::Upcall { handler: Handler::OnKeyDown, arg: 30, latch: Some(Latch::KeyDown) }
    );
    assert_eq!(
        dispatch(Message::KeyUp(31)),
        HostStep::Upcall { handler: Handler::OnKeyUp, arg: 31, latch: Some(Latch::KeyUp) }
    );
}

#[test]
fn dispatch_host_messages() {
    assert_eq!(dispatch(Message::RealizeColorMap), HostStep::Realize);
    assert_eq!(dispatch(Message::Unload), HostStep::Exit(RunScriptResult::TerminatedGracefully));
}

#[test]
fn handler_names() {
    assert_eq!(Handler::OnStartup.name(), "on_startup");
    assert_eq!(Handler::OnQuit.name(), "on_quit");
    assert_eq!(Handler::OnTick.name(), "on_tick");
    assert_eq!(Handler::OnKeyDown.name(), "on_key_down");
    assert_eq!(Handler::OnKeyUp.name(), "on_key_up");
}

#[test]
fn latches_counted_down() {
    assert_eq!(latch_for(Message::KeyDown(1)), Some(Latch::KeyDown));
    assert_eq!(latch_for(Message::KeyUp(1)), Some(Latch::KeyUp));
    assert_eq!(latch_for(Message::RealizeColorMap), Some(Latch::Barrier));
    assert_eq!(latch_for(Message::Tick(1)), None);
    assert_eq!(latch_for(Message::Unload), None);
}

#[test]
fn count_down_stops_at_zero() {
    assert_eq!(count_down(3), (2, false));
    assert_eq!(count_down(1), (0, false));
    assert_eq!(count_down(0), (0, true));
}

#[test]
fn scripting_errors() {
    let e = ScriptingError::LuaError { cause: "boom".to_string() };
    assert!(matches!(e, ScriptingError::LuaError { .. }));
    assert!(matches!(ScriptingError::OpenError, ScriptingError::OpenError));
    assert!(matches!(ScriptingError::InaccessibleManifest, ScriptingError::InaccessibleManifest));
}
