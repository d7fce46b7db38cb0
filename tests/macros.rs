use eruption::macros::{
    inject_key, is_mirrored_key, mirrored_key_codes, process_message, InputEvent, MacroAction,
    MacrosPlugin, Message, TimeVal, EV_KEY, EV_MSC, EV_SYN, SYN_REPORT,
};

fn at(sec: i64) -> TimeVal {
    TimeVal { tv_sec: sec, tv_usec: 500 }
}

fn key(code: u16, value: i32, sec: i64) -> InputEvent {
    InputEvent { time: at(sec), event_type: EV_KEY, event_code: code, value }
}

fn report(value: i32, sec: i64) -> InputEvent {
    InputEvent { time: at(sec), event_type: EV_SYN, event_code: SYN_REPORT, value }
}

fn written(a: MacroAction) -> Vec<InputEvent> {
    match a {
        MacroAction::Write(w) => w,
        other => panic!("expected a write, got {:?}", other),
    }
}

#[test]
fn mirror_passthrough() {
    let down = key(30, 1, 10);
    let up = key(30, 0, 11);
    assert_eq!(
        written(process_message(Message::MirrorKey(down), false, true, at(99))),
        vec![down, report(1, 10)]
    );
    assert_eq!(
        written(process_message(Message::MirrorKey(up), false, true, at(99))),
        vec![up, report(0, 11)]
    );
}

#[test]
fn mirror_of_other_event_types_has_no_report() {
    let msc = InputEvent { time: at(3), event_type: EV_MSC, event_code: 4, value: 458756 };
    assert_eq!(written(process_message(Message::MirrorKey(msc), false, false, at(9))), vec![msc]);
    let syn = report(0, 3);
    assert_eq!(written(process_message(Message::MirrorKey(syn), false, false, at(9))), vec![syn]);
}

#[test]
fn script_drops_a_key() {
    let mut gate = false;
    let cmd = inject_key(&mut gate, 42, true);
    assert!(gate);
    assert_eq!(cmd, Message::InjectKey { key: 42, down: true });
    assert_eq!(written(process_message(cmd, gate, true, at(5))), vec![key(42, 1, 5), report(1, 5)]);
    assert!(matches!(
        process_message(Message::MirrorKey(key(30, 1, 4)), gate, true, at(5)),
        MacroAction::Dropped
    ));
    gate = false;
    let next = key(31, 1, 6);
    assert_eq!(
        written(process_message(Message::MirrorKey(next), gate, true, at(7))),
        vec![next, report(1, 6)]
    );
}

#[test]
fn mirror_dropped_while_gate_set() {
    for value in 0..3 {
        let ev = key(57, value, 1);
        assert!(matches!(
            process_message(Message::MirrorKey(ev), true, true, at(2)),
            MacroAction::Dropped
        ));
    }
}

#[test]
fn inject_release() {
    let mut gate = true;
    let cmd = inject_key(&mut gate, 30, false);
    assert!(gate);
    assert_eq!(written(process_message(cmd, false, true, at(8))), vec![key(30, 0, 8), report(0, 8)]);
}

#[test]
fn inject_unknown_key() {
    let cmd = Message::InjectKey { key: 30, down: true };
    assert!(matches!(process_message(cmd, false, false, at(1)), MacroAction::InvalidKey));
    let cmd = Message::InjectKey { key: 70000, down: true };
    assert!(matches!(process_message(cmd, false, true, at(1)), MacroAction::InvalidKey));
}

#[test]
fn virtual_keyboard_keys() {
    let keys = mirrored_key_codes();
    assert_eq!(keys.len(), 161);
    assert!(keys.windows(2).all(|w| w[0] < w[1]));
    for code in [1u16, 30, 42, 83, 113, 114, 115, 163, 164, 165, 166, 183, 194, 240] {
        assert!(keys.contains(&code), "{}", code);
        assert!(is_mirrored_key(code));
    }
    for code in [0u16, 84, 101, 112, 118, 241, 767] {
        assert!(!keys.contains(&code), "{}", code);
        assert!(!is_mirrored_key(code));
    }
}

#[test]
fn plugin_identity() {
    let p = MacrosPlugin::new();
    assert_eq!(p.get_name(), "Macros");
    assert_eq!(p.get_description(), "Inject programmable keyboard events");
}
