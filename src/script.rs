//! The script host: the messages that drive one effect script, and what the
//! host does with each of them.
use vstd::prelude::*;

verus! {

/// A message on a script's control channel.
#[derive(Clone, Copy, Debug, PartialEq, Eq, Structural)]
pub enum Message {
    Quit(u32),
    Tick(u32),
    KeyDown(u8),
    KeyUp(u8),
    Unload,
    /// Blend the script's local frame into the global frame.
    RealizeColorMap,
}

/// Why a script stopped with an error.
#[derive(Debug)]
pub enum ScriptingError {
    /// The script file could not be read.
    OpenError,
    /// The interpreter reported an error while evaluating the script or in a
    /// handler.
    LuaError { cause: String },
    /// The script's manifest is missing or malformed.
    InaccessibleManifest,
}

/// How a script that did not fail ended.
#[derive(Clone, Copy, Debug, PartialEq, Eq, Structural)]
pub enum RunScriptResult {
    /// The script was unloaded.
    TerminatedGracefully,
}

/// An entry point that a script may define.
#[derive(Clone, Copy, Debug, PartialEq, Eq, Structural)]
pub enum Handler {
    OnStartup,
    OnQuit,
    OnTick,
    OnKeyDown,
    OnKeyUp,
}

/// A count that the compositor waits on, and that a script host counts down
/// when it is done with a message.
#[derive(Clone, Copy, Debug, PartialEq, Eq, Structural)]
pub enum Latch {
    /// Key-down upcalls not yet completed.
    KeyDown,
    /// Key-up upcalls not yet completed.
    KeyUp,
    /// Scripts that have not yet blended their frame.
    Barrier,
}

/// What a script host does with one message.
#[derive(Clone, Copy, Debug, PartialEq, Eq, Structural)]
pub enum HostStep {
    /// Call the handler with the argument if the script defines it (a missing
    /// handler is skipped), then count down the latch if there is one.
    Upcall { handler: Handler, arg: u32, latch: Option<Latch> },
    /// Blend the local frame into the global frame, then count down the
    /// barrier.
    Realize,
    /// Leave the event loop.
    Exit(RunScriptResult),
}

/// The name under which a script defines an entry point.
pub open spec fn handler_name(h: Handler) -> Seq<char> {
    match h {
        Handler::OnStartup => "on_startup"@,
        Handler::OnQuit => "on_quit"@,
        Handler::OnTick => "on_tick"@,
        Handler::OnKeyDown => "on_key_down"@,
        Handler::OnKeyUp => "on_key_up"@,
    }
}

/// What the host does with a message.
pub open spec fn step_for(msg: Message) -> HostStep {
    match msg {
        Message::Quit(p) => HostStep::Upcall { handler: Handler::OnQuit, arg: p, latch: None },
        Message::Tick(t) => HostStep::Upcall { handler: Handler::OnTick, arg: t, latch: None },
        Message::KeyDown(c) => HostStep::Upcall {
            handler: Handler::OnKeyDown,
            arg: c as u32,
            latch: Some(Latch::KeyDown),
        },
        Message::KeyUp(c) => HostStep::Upcall {
            handler: Handler::OnKeyUp,
            arg: c as u32,
            latch: Some(Latch::KeyUp),
        },
        Message::Unload => HostStep::Exit(RunScriptResult::TerminatedGracefully),
        Message::RealizeColorMap => HostStep::Realize,
    }
}

impl Handler {
    /// The name under which a script defines this entry point.
    pub fn name(&self) -> (r: &'static str)
        ensures
            r@ == handler_name(*self),
    {
        proof {
            reveal_strlit("on_startup");
            reveal_strlit("on_quit");
            reveal_strlit("on_tick");
            reveal_strlit("on_key_down");
            reveal_strlit("on_key_up");
        }
        match self {
            Handler::OnStartup => "on_startup",
            Handler::OnQuit => "on_quit",
            Handler::OnTick => "on_tick",
            Handler::OnKeyDown => "on_key_down",
            Handler::OnKeyUp => "on_key_up",
        }
    }
}

/// Decide what the host does with a message from its control channel.
pub fn dispatch(msg: Message) -> (s: HostStep)
    ensures
        s == step_for(msg),
{
    match msg {
        Message::Quit(p) => HostStep::Upcall { handler: Handler::OnQuit, arg: p, latch: None },
        Message::Tick(t) => HostStep::Upcall { handler: Handler::OnTick, arg: t, latch: None },
        Message::KeyDown(c) => HostStep::Upcall {
            handler: Handler::OnKeyDown,
            arg: c as u32,
            latch: Some(Latch::KeyDown),
        },
        Message::KeyUp(c) => HostStep::Upcall {
            handler: Handler::OnKeyUp,
            arg: c as u32,
            latch: Some(Latch::KeyUp),
        },
        Message::Unload => HostStep::Exit(RunScriptResult::TerminatedGracefully),
        Message::RealizeColorMap => HostStep::Realize,
    }
}

/// Count a latch down by one. A latch that is already zero stays zero, and
/// the second component says so, for the caller to report.
pub fn count_down(pending: usize) -> (r: (usize, bool))
    ensures
        r.0 == (if pending > 0 {
            pending - 1
        } else {
            0
        }),
        r.1 == (pending == 0),
{
    match pending.checked_sub(1) {
        Some(n) => (n, false),
        None => (0, true),
    }
}

/// The latch that a host counts down for a message: a key upcall's latch,
/// or the barrier. A script that stops on an error counts down the latch of
/// the message it was handling, so that the compositor does not wait for it.
pub open spec fn latch_of(msg: Message) -> Option<Latch> {
    match msg {
        Message::KeyDown(_) => Some(Latch::KeyDown),
        Message::KeyUp(_) => Some(Latch::KeyUp),
        Message::RealizeColorMap => Some(Latch::Barrier),
        _ => None,
    }
}

/// The latch that a host counts down for a message, whether the handler
/// succeeded or failed.
pub fn latch_for(msg: Message) -> (r: Option<Latch>)
    ensures
        r == latch_of(msg),
{
    match msg {
        Message::KeyDown(_) => Some(Latch::KeyDown),
        Message::KeyUp(_) => Some(Latch::KeyUp),
        Message::RealizeColorMap => Some(Latch::Barrier),
        _ => None,
    }
}

} // verus!
