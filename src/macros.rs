//! The macro engine: it owns the virtual keyboard that mirrors the hardware
//! keyboard, writes the mirrored and injected key events, and drops the
//! current physical key when a script has replaced it.
use vstd::prelude::*;

verus! {

/// Event type of synchronization events.
pub const EV_SYN: u16 = 0;

/// Event type of key events.
pub const EV_KEY: u16 = 1;

/// Event type of miscellaneous events.
pub const EV_MSC: u16 = 4;

/// Code of the synchronization event that ends a report.
pub const SYN_REPORT: u16 = 0;

/// Largest key code of the input subsystem.
pub const KEY_MAX: u16 = 767;

/// Bus type of the virtual keyboard (USB).
pub const VIRTUAL_KEYBOARD_BUS: u16 = 3;

/// Vendor id of the virtual keyboard.
pub const VIRTUAL_KEYBOARD_VENDOR: u16 = 0x0059;

/// Product id of the virtual keyboard.
pub const VIRTUAL_KEYBOARD_PRODUCT: u16 = 0x0123;

/// Version of the virtual keyboard.
pub const VIRTUAL_KEYBOARD_VERSION: u16 = 0x01;

/// Name under which the virtual keyboard is visible to other processes.
pub const VIRTUAL_KEYBOARD_NAME: &'static str = "Eruption Virtual Keyboard";

/// Time stamp of an input event.
#[derive(Clone, Copy, Debug, PartialEq, Eq, Structural)]
pub struct TimeVal {
    pub tv_sec: i64,
    pub tv_usec: i64,
}

/// One event of the input subsystem, as read from the hardware keyboard or
/// written to the virtual keyboard.
#[derive(Clone, Copy, Debug, PartialEq, Eq, Structural)]
pub struct InputEvent {
    pub time: TimeVal,
    pub event_type: u16,
    pub event_code: u16,
    pub value: i32,
}

/// A command for the macro engine.
#[derive(Clone, Copy, Debug, PartialEq, Eq, Structural)]
pub enum Message {
    /// Mirror an event of the hardware keyboard on the virtual keyboard.
    MirrorKey(InputEvent),
    /// Press (`down`) or release the key with code `key`.
    InjectKey { key: u32, down: bool },
}

/// Errors of the macro engine's setup.
#[derive(Clone, Copy, Debug, PartialEq, Eq, Structural)]
pub enum MacrosPluginError {
    /// The virtual keyboard could not be created.
    EvdevError,
    /// The engine's thread could not be started.
    ThreadSpawnError,
}

/// The plugin that provides macros: a virtual keyboard that mirrors the
/// hardware keyboard, and the injection of key events by scripts.
#[derive(Debug)]
pub struct MacrosPlugin {}

impl MacrosPlugin {
    pub fn new() -> (p: MacrosPlugin) {
        MacrosPlugin {}
    }

    /// The plugin's name.
    pub fn get_name(&self) -> (r: &'static str)
        ensures
            r@ == "Macros"@,
    {
        proof {
            reveal_strlit("Macros");
        }
        "Macros"
    }

    /// What the plugin does.
    pub fn get_description(&self) -> (r: &'static str)
        ensures
            r@ == "Inject programmable keyboard events"@,
    {
        proof {
            reveal_strlit("Inject programmable keyboard events");
        }
        "Inject programmable keyboard events"
    }
}

/// What the macro engine does with one command.
#[derive(Debug)]
pub enum MacroAction {
    /// Write these events to the virtual keyboard, in order.
    Write(Vec<InputEvent>),
    /// The command mirrors the current key, which a script has dropped.
    Dropped,
    /// The command injects a key code that the input subsystem does not know.
    InvalidKey,
}

/// The report that ends a key event: same time stamp, same value.
pub open spec fn report_for(ev: InputEvent) -> InputEvent {
    InputEvent { time: ev.time, event_type: EV_SYN, event_code: SYN_REPORT, value: ev.value }
}

/// What the virtual keyboard receives for one event: the event, and after a
/// key event the report that ends it.
pub open spec fn device_writes(ev: InputEvent) -> Seq<InputEvent> {
    if ev.event_type == EV_KEY {
        seq![ev, report_for(ev)]
    } else {
        seq![ev]
    }
}

/// The key event that presses (value 1) or releases (value 0) a key.
pub open spec fn key_event(key: u16, down: bool, time: TimeVal) -> InputEvent {
    InputEvent { time, event_type: EV_KEY, event_code: key, value: if down { 1 } else { 0 } }
}

/// Whether an injected key code can be written: the input subsystem knows it
/// and it fits an event code.
pub open spec fn injectable(key: u32, key_known: bool) -> bool {
    key_known && key <= KEY_MAX
}

/// The events that the virtual keyboard receives for one event.
pub fn events_for(ev: InputEvent) -> (r: Vec<InputEvent>)
    ensures
        r@ == device_writes(ev),
{
    let mut r: Vec<InputEvent> = Vec::new();
    r.push(ev);
    if ev.event_type == EV_KEY {
        r.push(InputEvent {
            time: ev.time,
            event_type: EV_SYN,
            event_code: SYN_REPORT,
            value: ev.value,
        });
    }
    assert(r@ =~= device_writes(ev));
    r
}

/// Decide what the macro engine writes for one command. `drop_current_key`
/// is the drop-gate as the engine reads it, `key_known` whether the input
/// subsystem knows the code of an injected key, and `now` the time stamp
/// that injected events carry.
pub fn process_message(msg: Message, drop_current_key: bool, key_known: bool, now: TimeVal) -> (r:
    MacroAction)
    ensures
        match msg {
            Message::MirrorKey(ev) => if drop_current_key {
                r is Dropped
            } else {
                r matches MacroAction::Write(w) && w@ == device_writes(ev)
            },
            Message::InjectKey { key, down } => if injectable(key, key_known) {
                r matches MacroAction::Write(w) && w@ == device_writes(
                    key_event(key as u16, down, now),
                )
            } else {
                r is InvalidKey
            },
        },
{
    match msg {
        Message::MirrorKey(ev) => {
            if drop_current_key {
                MacroAction::Dropped
            } else {
                MacroAction::Write(events_for(ev))
            }
        },
        Message::InjectKey { key, down } => {
            if key_known && key <= KEY_MAX as u32 {
                let ev = InputEvent {
                    time: now,
                    event_type: EV_KEY,
                    event_code: key as u16,
                    value: if down {
                        1
                    } else {
                        0
                    },
                };
                MacroAction::Write(events_for(ev))
            } else {
                MacroAction::InvalidKey
            }
        },
    }
}

/// Inject a key on the virtual keyboard: set the drop-gate, so that the
/// current physical key is not mirrored, and give the command to send to the
/// macro engine.
pub fn inject_key(drop_current_key: &mut bool, ev_key: u32, down: bool) -> (m: Message)
    ensures
        *final(drop_current_key),
        m == (Message::InjectKey { key: ev_key, down }),
{
    *drop_current_key = true;
    Message::InjectKey { key: ev_key, down }
}

/// The key codes that the virtual keyboard advertises: a standard layout with
/// keypad, media keys, browser keys, F13 to F24, the Japanese and Korean
/// input keys, and the unknown key.
pub open spec fn mirrored_key(code: int) -> bool {
    ||| 1 <= code <= 83
    ||| 85 <= code <= 100
    ||| 102 <= code <= 111
    ||| 113 <= code <= 117
    ||| code == 119
    ||| code == 121
    ||| 123 <= code <= 138
    ||| code == 140
    ||| code == 142
    ||| code == 150
    ||| code == 158
    ||| code == 159
    ||| code == 161
    ||| 163 <= code <= 166
    ||| code == 173
    ||| 176 <= code <= 180
    ||| 183 <= code <= 194
    ||| code == 240
}

/// Whether the virtual keyboard advertises the key code `code`.
pub fn is_mirrored_key(code: u16) -> (r: bool)
    ensures
        r == mirrored_key(code as int),
{
    (1 <= code && code <= 83) || (85 <= code && code <= 100) || (102 <= code && code <= 111) || (113
        <= code && code <= 117) || code == 119 || code == 121 || (123 <= code && code <= 138) || code
        == 140 || code == 142 || code == 150 || code == 158 || code == 159 || code == 161 || (163
        <= code && code <= 166) || code == 173 || (176 <= code && code <= 180) || (183 <= code
        && code <= 194) || code == 240
}

/// The key codes that the virtual keyboard advertises, in increasing order.
pub fn mirrored_key_codes() -> (r: Vec<u16>)
    ensures
        forall|i: int, j: int| 0 <= i < j < r@.len() ==> r@[i] < r@[j],
        forall|i: int| 0 <= i < r@.len() ==> mirrored_key(#[trigger] r@[i] as int),
        forall|c: u16| mirrored_key(c as int) ==> r@.contains(c),
{
    let mut r: Vec<u16> = Vec::new();
    let mut c: u16 = 0;
    while c <= 255
        invariant
            c <= 256,
            forall|i: int, j: int| 0 <= i < j < r@.len() ==> r@[i] < r@[j],
            forall|i: int| 0 <= i < r@.len() ==> r@[i] < c,
            forall|i: int| 0 <= i < r@.len() ==> mirrored_key(#[trigger] r@[i] as int),
            forall|x: u16| x < c && mirrored_key(x as int) ==> r@.contains(x),
        decreases 256 - c,
    {
        if is_mirrored_key(c) {
            let ghost before = r@;
            r.push(c);
            assert(r@[r@.len() - 1] == c);
            assert forall|x: u16| x < c + 1 && mirrored_key(x as int) implies r@.contains(x) by {
                if x < c {
                    let k = choose|k: int| 0 <= k < before.len() && before[k] == x;
                    assert(r@[k] == x);
                } else {
                    assert(r@[r@.len() - 1] == x);
                }
            }
        }
        c = c + 1;
    }
    r
}

} // verus!
