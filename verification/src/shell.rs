//! The shell's state machine: how tray selections, tray icon clicks and
//! window close requests change the process state, and which actions the
//! surrounding runtime must perform for each of them.
//!
//! The runtime dispatches events sequentially on the UI thread; each
//! callback becomes one [`Shell::step`]. The step returns the actions to
//! perform (show, focus, hide, emit, exit), in the order in which they
//! must be performed.

use vstd::prelude::*;

use crate::menu::MenuId;
use crate::menu::parse_menu_id;
use crate::menu::spec_parse_menu_id;

verus! {

/// Visibility of the single webview window, when it exists.
#[derive(Clone, Copy, Debug, PartialEq, Eq, Structural)]
pub enum WindowState {
    Visible,
    Hidden,
}

/// How the user interacted with the tray icon itself: a generic click is
/// acted on, every other interaction kind is ignored.
#[derive(Clone, Copy, Debug, PartialEq, Eq, Structural)]
pub enum TrayInteraction {
    Click,
    Other,
}

/// One event delivered by the runtime to the shell's callbacks.
#[derive(Clone, Copy, Debug, PartialEq, Eq, Structural)]
pub enum Event {
    MenuSelected(MenuId),
    TrayIcon(TrayInteraction),
    CloseRequested,
}

/// One operation the runtime must perform on the shell's behalf, in the
/// order returned. `Exit` carries the process exit code.
#[derive(Clone, Copy, Debug, PartialEq, Eq, Structural)]
pub enum Action {
    ShowWindow,
    FocusWindow,
    EmitAddHabit,
    PreventClose,
    HideWindow,
    Exit(i32),
}

/// The whole state of the shell: the write-once `quitting` flag, whether
/// the main window exists and in which visibility state, and whether the
/// process has exited.
#[derive(Clone, Copy, Debug, PartialEq, Eq)]
pub struct Shell {
    pub quitting: bool,
    pub window: Option<WindowState>,
    pub exited: bool,
}

/// State after the window, if present, has been shown and focused.
pub open spec fn show_focus_state(s: Shell) -> Shell {
    if s.window is Some {
        Shell { window: Some(WindowState::Visible), ..s }
    } else {
        s
    }
}

/// Actions for showing and focusing the window, if present; the absence
/// of the window is a silent no-op, never an error.
pub open spec fn show_focus_actions(s: Shell) -> Seq<Action> {
    if s.window is Some {
        seq![Action::ShowWindow, Action::FocusWindow]
    } else {
        Seq::<Action>::empty()
    }
}

/// The state after one event. An exited shell never changes again. A
/// close request while `quitting` is false hides the window instead of
/// letting it be destroyed; with `quitting` true the default close
/// proceeds and the window is gone.
pub open spec fn step_state(s: Shell, e: Event) -> Shell {
    if s.exited {
        s
    } else {
        match e {
            Event::MenuSelected(MenuId::Open) => show_focus_state(s),
            Event::MenuSelected(MenuId::AddHabit) => show_focus_state(s),
            Event::MenuSelected(MenuId::Quit) => Shell { quitting: true, exited: true, ..s },
            Event::TrayIcon(TrayInteraction::Click) => show_focus_state(s),
            Event::TrayIcon(TrayInteraction::Other) => s,
            Event::CloseRequested => if s.window is None {
                s
            } else if !s.quitting {
                Shell { window: Some(WindowState::Hidden), ..s }
            } else {
                Shell { window: None, ..s }
            },
        }
    }
}

/// The actions one event asks of the runtime. Selecting quit always exits
/// with code 0; an exited shell asks for nothing.
pub open spec fn step_actions(s: Shell, e: Event) -> Seq<Action> {
    if s.exited {
        Seq::<Action>::empty()
    } else {
        match e {
            Event::MenuSelected(MenuId::Open) => show_focus_actions(s),
            Event::MenuSelected(MenuId::AddHabit) => if s.window is Some {
                seq![Action::ShowWindow, Action::FocusWindow, Action::EmitAddHabit]
            } else {
                Seq::<Action>::empty()
            },
            Event::MenuSelected(MenuId::Quit) => seq![Action::Exit(0)],
            Event::TrayIcon(TrayInteraction::Click) => show_focus_actions(s),
            Event::TrayIcon(TrayInteraction::Other) => Seq::<Action>::empty(),
            Event::CloseRequested => if s.window is Some && !s.quitting {
                seq![Action::PreventClose, Action::HideWindow]
            } else {
                Seq::<Action>::empty()
            },
        }
    }
}

impl Shell {
    /// An exited shell has always passed through the quit path first.
    pub open spec fn wf(self) -> bool {
        self.exited ==> self.quitting
    }

    /// The state installed at bootstrap: not quitting, not exited.
    pub fn new(window: Option<WindowState>) -> (s: Shell)
        ensures
            s.quitting == false,
            s.exited == false,
            s.window == window,
            s.wf(),
    {
        Shell { quitting: false, window, exited: false }
    }

    fn show_and_focus(&mut self) -> (acts: Vec<Action>)
        ensures
            *final(self) == show_focus_state(*old(self)),
            acts@ == show_focus_actions(*old(self)),
    {
        if self.window.is_some() {
            self.window = Some(WindowState::Visible);
            let mut acts: Vec<Action> = Vec::new();
            acts.push(Action::ShowWindow);
            acts.push(Action::FocusWindow);
            proof {
                assert(acts@ =~= show_focus_actions(*old(self)));
            }
            acts
        } else {
            Vec::new()
        }
    }

    /// Process one event: move to the next state and return the actions
    /// the runtime must perform, in order.
    pub fn step(&mut self, e: Event) -> (acts: Vec<Action>)
        ensures
            *final(self) == step_state(*old(self), e),
            acts@ == step_actions(*old(self), e),
    {
        if self.exited {
            return Vec::new();
        }
        match e {
            Event::MenuSelected(MenuId::Open) => self.show_and_focus(),
            Event::MenuSelected(MenuId::AddHabit) => {
                let had_window = self.window.is_some();
                let mut acts = self.show_and_focus();
                if had_window {
                    acts.push(Action::EmitAddHabit);
                }
                proof {
                    assert(acts@ =~= step_actions(*old(self), e));
                }
                acts
            },
            Event::MenuSelected(MenuId::Quit) => {
                self.quitting = true;
                self.exited = true;
                let mut acts: Vec<Action> = Vec::new();
                acts.push(Action::Exit(0));
                proof {
                    assert(acts@ =~= step_actions(*old(self), e));
                }
                acts
            },
            Event::TrayIcon(TrayInteraction::Click) => self.show_and_focus(),
            Event::TrayIcon(TrayInteraction::Other) => Vec::new(),
            Event::CloseRequested => {
                if self.window.is_some() && !self.quitting {
                    self.window = Some(WindowState::Hidden);
                    let mut acts: Vec<Action> = Vec::new();
                    acts.push(Action::PreventClose);
                    acts.push(Action::HideWindow);
                    proof {
                        assert(acts@ =~= step_actions(*old(self), e));
                    }
                    acts
                } else if self.window.is_some() {
                    self.window = None;
                    Vec::new()
                } else {
                    Vec::new()
                }
            },
        }
    }

    /// The menu-selection callback as the runtime sees it: dispatch on
    /// the raw identifier string, ignoring identifiers outside the menu's
    /// fixed vocabulary.
    pub fn handle_menu_event(&mut self, id: &str) -> (acts: Vec<Action>)
        ensures
            match spec_parse_menu_id(id@) {
                Some(m) => *final(self) == step_state(*old(self), Event::MenuSelected(m))
                    && acts@ == step_actions(*old(self), Event::MenuSelected(m)),
                None => *final(self) == *old(self) && acts@ == Seq::<Action>::empty(),
            },
    {
        match parse_menu_id(id) {
            Some(m) => self.step(Event::MenuSelected(m)),
            None => Vec::new(),
        }
    }
}

/// The state after a whole sequence of events, first event first.
pub open spec fn run_steps(s: Shell, evs: Seq<Event>) -> Shell
    decreases evs.len(),
{
    if evs.len() == 0 {
        s
    } else {
        run_steps(step_state(s, evs[0]), evs.subrange(1, evs.len() as int))
    }
}

/// All actions a sequence of events asks of the runtime, in order.
pub open spec fn run_actions(s: Shell, evs: Seq<Event>) -> Seq<Action>
    decreases evs.len(),
{
    if evs.len() == 0 {
        Seq::<Action>::empty()
    } else {
        step_actions(s, evs[0]) + run_actions(step_state(s, evs[0]), evs.subrange(1, evs.len() as int))
    }
}

/// Law: under any sequence of close requests while `quitting` is false,
/// the window is never destroyed — it exists after every prefix — the
/// shell ends with the window hidden (if any request arrived at all) and
/// still running, and the window stays reachable: a tray `open` selection
/// afterwards makes it visible again.
pub proof fn lemma_close_requests_never_destroy(s: Shell, evs: Seq<Event>)
    requires
        !s.quitting,
        !s.exited,
        s.window is Some,
        forall|i: int| 0 <= i < evs.len() ==> evs[i] == Event::CloseRequested,
    ensures
        run_steps(s, evs).window is Some,
        evs.len() > 0 ==> run_steps(s, evs).window == Some(WindowState::Hidden),
        !run_steps(s, evs).quitting,
        !run_steps(s, evs).exited,
        step_state(run_steps(s, evs), Event::MenuSelected(MenuId::Open)).window == Some(
            WindowState::Visible,
        ),
        forall|k: int| 0 <= k <= evs.len() ==> run_steps(s, evs.subrange(0, k)).window is Some,
    decreases evs.len(),
{
    if evs.len() > 0 {
        let s1 = step_state(s, evs[0]);
        lemma_close_requests_never_destroy(s1, evs.subrange(1, evs.len() as int));
    }
    assert forall|k: int| 0 <= k <= evs.len() implies run_steps(
        s,
        evs.subrange(0, k),
    ).window is Some by {
        if k < evs.len() {
            lemma_close_requests_never_destroy(s, evs.subrange(0, k));
        } else {
            assert(evs.subrange(0, k) =~= evs);
        }
    }
}

/// Law: an exited shell is absorbing — no later event changes the state
/// or asks the runtime for any action.
pub proof fn lemma_exited_is_absorbing(s: Shell, evs: Seq<Event>)
    requires
        s.exited,
    ensures
        run_steps(s, evs) == s,
        run_actions(s, evs) == Seq::<Action>::empty(),
    decreases evs.len(),
{
    if evs.len() > 0 {
        lemma_exited_is_absorbing(s, evs.subrange(1, evs.len() as int));
        assert(run_actions(s, evs) =~= Seq::<Action>::empty());
    }
}

/// Law: selecting quit, in any not-yet-exited state and whatever the
/// window's visibility, asks for exactly one action — exit with code 0 —
/// sets the quitting flag, and no event afterwards is processed: the
/// state never changes again and no further action is ever requested.
pub proof fn lemma_quit_exits_and_stops_processing(s: Shell, evs: Seq<Event>)
    requires
        !s.exited,
    ensures
        step_actions(s, Event::MenuSelected(MenuId::Quit)) == seq![Action::Exit(0)],
        step_state(s, Event::MenuSelected(MenuId::Quit)).quitting,
        step_state(s, Event::MenuSelected(MenuId::Quit)).exited,
        run_steps(step_state(s, Event::MenuSelected(MenuId::Quit)), evs) == step_state(
            s,
            Event::MenuSelected(MenuId::Quit),
        ),
        run_actions(step_state(s, Event::MenuSelected(MenuId::Quit)), evs) == Seq::<
            Action,
        >::empty(),
{
    lemma_exited_is_absorbing(step_state(s, Event::MenuSelected(MenuId::Quit)), evs);
}

/// Law: selecting add-habit never emits the notification event before
/// both showing and focusing the window — every emit in the requested
/// actions is preceded by a show and by a focus.
pub proof fn lemma_add_habit_shows_before_emitting(s: Shell)
    ensures
        ({
            let acts = step_actions(s, Event::MenuSelected(MenuId::AddHabit));
            forall|i: int|
                0 <= i < acts.len() && acts[i] == Action::EmitAddHabit ==> (exists|j: int|
                    0 <= j < i && acts[j] == Action::ShowWindow) && (exists|j: int|
                    0 <= j < i && acts[j] == Action::FocusWindow)
        }),
{
    let acts = step_actions(s, Event::MenuSelected(MenuId::AddHabit));
    if !s.exited && s.window is Some {
        assert forall|i: int|
            0 <= i < acts.len() && acts[i] == Action::EmitAddHabit implies (exists|j: int|
            0 <= j < i && acts[j] == Action::ShowWindow) && (exists|j: int|
            0 <= j < i && acts[j] == Action::FocusWindow) by {
            assert(acts[0] == Action::ShowWindow);
            assert(acts[1] == Action::FocusWindow);
            assert(i == 2);
        }
    }
}

/// Law: a show-or-focus event — tray `open`, tray `add_habit`, or a
/// click on the tray icon — while no main window exists is a silent
/// no-op: the state is unchanged and no action (and no error) results.
pub proof fn lemma_missing_window_is_noop(s: Shell, e: Event)
    requires
        s.window is None,
        e == Event::MenuSelected(MenuId::Open) || e == Event::MenuSelected(MenuId::AddHabit) || e
            == Event::TrayIcon(TrayInteraction::Click),
    ensures
        step_state(s, e) == s,
        step_actions(s, e) == Seq::<Action>::empty(),
{
}

/// Law: the quitting flag is write-once — once true it stays true under
/// every later event.
pub proof fn lemma_quitting_is_write_once(s: Shell, evs: Seq<Event>)
    requires
        s.quitting,
    ensures
        run_steps(s, evs).quitting,
    decreases evs.len(),
{
    if evs.len() > 0 {
        lemma_quitting_is_write_once(step_state(s, evs[0]), evs.subrange(1, evs.len() as int));
    }
}

/// Law: every step preserves well-formedness — an exited shell always
/// has its quitting flag set.
pub proof fn lemma_step_preserves_wf(s: Shell, e: Event)
    requires
        s.wf(),
    ensures
        step_state(s, e).wf(),
{
}

} // verus!
