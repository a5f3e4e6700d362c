//! The event-and-state controller: the single render state, the events
//! the host delivers, and the transition that applies one event and
//! says what the host should do next (render, re-arm the timer, run the
//! external command).

use vstd::prelude::*;

use crate::palette::Palette;
use crate::palette::spec_default_palette;

verus! {

/// The key that triggers the external-command dispatch.
pub const TRIGGER_KEY: char = 't';

#[derive(Clone, Copy, PartialEq, Eq, Structural, Debug)]
pub enum InputMode {
    Normal,
    Locked,
    Resize,
    Pane,
    Tab,
    Scroll,
    Search,
    Session,
    Move,
}

/// One tab as the host reports it: its 1-based display position, its
/// label, and whether it is the active tab.
#[derive(Clone, Debug)]
pub struct TabInfo {
    pub position: usize,
    pub name: String,
    pub active: bool,
}

/// One state-change notification from the host.
pub enum Event {
    ModeChanged(InputMode, Option<String>, Palette),
    TabsChanged(Vec<TabInfo>),
    TimerFired,
    KeyPressed(char),
    Other,
}

/// What the host is asked to do after an event is applied.
#[derive(Clone, Copy, PartialEq, Eq, Structural, Debug)]
pub struct Outcome {
    pub render: bool,
    pub rearm_timer: bool,
    pub run_command: bool,
}

/// The aggregate render state.  Owned by one controller, mutated only
/// by `apply`, rebuilt from the default on every start.
pub struct State {
    pub mode: InputMode,
    pub tabs: Vec<TabInfo>,
    pub session_name: Option<String>,
    pub palette: Palette,
    pub count: usize,
    pub action_count: usize,
}

/// The mathematical value of a `State`.
#[verifier::ext_equal]
pub struct StateV {
    pub mode: InputMode,
    pub tabs: Seq<TabInfo>,
    pub session_name: Option<Seq<char>>,
    pub palette: Palette,
    pub count: int,
    pub action_count: int,
}

/// The mathematical value of an `Event`.
pub enum EventV {
    ModeChanged(InputMode, Option<Seq<char>>, Palette),
    TabsChanged(Seq<TabInfo>),
    TimerFired,
    KeyPressed(char),
    Other,
}

pub open spec fn spec_session_view(s: Option<String>) -> Option<Seq<char>> {
    match s {
        Some(n) => Some(n@),
        None => None,
    }
}

impl View for State {
    type V = StateV;

    open spec fn view(&self) -> StateV {
        StateV {
            mode: self.mode,
            tabs: self.tabs@,
            session_name: spec_session_view(self.session_name),
            palette: self.palette,
            count: self.count as int,
            action_count: self.action_count as int,
        }
    }
}

impl View for Event {
    type V = EventV;

    open spec fn view(&self) -> EventV {
        match self {
            Event::ModeChanged(m, n, p) => EventV::ModeChanged(*m, spec_session_view(*n), *p),
            Event::TabsChanged(t) => EventV::TabsChanged(t@),
            Event::TimerFired => EventV::TimerFired,
            Event::KeyPressed(c) => EventV::KeyPressed(*c),
            Event::Other => EventV::Other,
        }
    }
}

/// The state a controller starts from.
pub open spec fn spec_initial_state() -> StateV {
    StateV {
        mode: InputMode::Normal,
        tabs: Seq::empty(),
        session_name: None,
        palette: spec_default_palette(),
        count: 0,
        action_count: 0,
    }
}

/// One transition of the controller: the state after the event, and
/// what the host is asked to do.
pub open spec fn spec_apply(v: StateV, e: EventV) -> (StateV, Outcome) {
    match e {
        EventV::ModeChanged(m, n, p) => (
            StateV { mode: m, session_name: n, palette: p, ..v },
            Outcome { render: true, rearm_timer: false, run_command: false },
        ),
        EventV::TabsChanged(t) => (
            StateV { tabs: t, ..v },
            Outcome { render: true, rearm_timer: false, run_command: false },
        ),
        EventV::TimerFired => (
            StateV { count: v.count + 1, ..v },
            Outcome { render: true, rearm_timer: true, run_command: false },
        ),
        EventV::KeyPressed(c) => if c == TRIGGER_KEY {
            (
                StateV { action_count: v.action_count + 1, ..v },
                Outcome { render: false, rearm_timer: false, run_command: true },
            )
        } else {
            (v, Outcome { render: false, rearm_timer: false, run_command: false })
        },
        EventV::Other => (v, Outcome { render: false, rearm_timer: false, run_command: false }),
    }
}

impl Default for State {
    /// The state a controller starts from: default mode, no tabs, no
    /// session name, the default palette, counters at zero.
    fn default() -> (s: State)
        ensures
            s@ == spec_initial_state(),
    {
        let s = State {
            mode: InputMode::Normal,
            tabs: Vec::new(),
            session_name: None,
            palette: Palette::default(),
            count: 0,
            action_count: 0,
        };
        proof {
            assert(s@ =~= spec_initial_state());
        }
        s
    }
}

impl State {
    /// Apply one event: replace mode, session and palette wholesale on
    /// a mode change; replace the tab list wholesale on a tab change;
    /// step the tick counter and ask for the timer again on a tick;
    /// count the trigger key and ask for the command dispatch on a key
    /// press; ignore anything else.
    pub fn apply(&mut self, event: Event) -> (r: Outcome)
        requires
            event is TimerFired ==> old(self)@.count < usize::MAX,
            (event matches Event::KeyPressed(c) && c == TRIGGER_KEY) ==> old(self)@.action_count
                < usize::MAX,
        ensures
            final(self)@ == spec_apply(old(self)@, event@).0,
            r == spec_apply(old(self)@, event@).1,
    {
        match event {
            Event::ModeChanged(m, n, p) => {
                self.mode = m;
                self.session_name = n;
                self.palette = p;
                proof {
                    assert(self@ =~= spec_apply(old(self)@, event@).0);
                }
                Outcome { render: true, rearm_timer: false, run_command: false }
            },
            Event::TabsChanged(t) => {
                self.tabs = t;
                proof {
                    assert(self@ =~= spec_apply(old(self)@, event@).0);
                }
                Outcome { render: true, rearm_timer: false, run_command: false }
            },
            Event::TimerFired => {
                self.count = self.count + 1;
                proof {
                    assert(self@ =~= spec_apply(old(self)@, event@).0);
                }
                Outcome { render: true, rearm_timer: true, run_command: false }
            },
            Event::KeyPressed(c) => {
                if c == TRIGGER_KEY {
                    self.action_count = self.action_count + 1;
                    proof {
                        assert(self@ =~= spec_apply(old(self)@, event@).0);
                    }
                    Outcome { render: false, rearm_timer: false, run_command: true }
                } else {
                    proof {
                        assert(self@ =~= spec_apply(old(self)@, event@).0);
                    }
                    Outcome { render: false, rearm_timer: false, run_command: false }
                }
            },
            Event::Other => {
                proof {
                    assert(self@ =~= spec_apply(old(self)@, event@).0);
                }
                Outcome { render: false, rearm_timer: false, run_command: false }
            },
        }
    }
}

/// The state after `n` consecutive timer events.
pub open spec fn apply_timers(v: StateV, n: nat) -> StateV
    decreases n,
{
    if n == 0 {
        v
    } else {
        spec_apply(apply_timers(v, (n - 1) as nat), EventV::TimerFired).0
    }
}

/// Law: `n` consecutive timer events with nothing in between raise the
/// tick counter by exactly `n`, change nothing else, and every one of
/// them asks for a render and re-arms the timer.
pub proof fn lemma_timer_monotonic(v: StateV, n: nat)
    ensures
        apply_timers(v, n).count == v.count + n,
        apply_timers(v, n).mode == v.mode,
        apply_timers(v, n).tabs == v.tabs,
        apply_timers(v, n).session_name == v.session_name,
        apply_timers(v, n).palette == v.palette,
        apply_timers(v, n).action_count == v.action_count,
        forall|k: nat|
            k < n ==> spec_apply(#[trigger] apply_timers(v, k), EventV::TimerFired).1 == (Outcome {
                render: true,
                rearm_timer: true,
                run_command: false,
            }),
    decreases n,
{
    if n > 0 {
        lemma_timer_monotonic(v, (n - 1) as nat);
    }
}

} // verus!
