//! The interactive menu state machine.
//!
//! A session starts in `Rendering` with the cursor on the first option and
//! raw terminal mode acquired. Key events move the cursor (clamped at both
//! ends, no wraparound), confirm the selection, or cancel the session; every
//! path that leaves `Rendering` releases raw mode exactly once. The machine
//! is pure: it returns the action the caller must perform (redraw, or leave
//! raw mode and proceed), and the caller feeds back the next event.

use vstd::prelude::*;

verus! {

/// A physical key, reduced to what the menu can react to.
#[derive(Clone, Copy, Debug, PartialEq, Eq, Structural)]
pub enum KeyTag {
    /// The up-arrow key.
    Up,
    /// The down-arrow key.
    Down,
    /// The enter key.
    Enter,
    /// A printable character key.
    Char(char),
    /// Any other key.
    Other,
}

/// A logical input event of the menu session.
#[derive(Clone, Copy, Debug, PartialEq, Eq, Structural)]
pub enum MenuEvent {
    /// Move the cursor one entry up.
    Up,
    /// Move the cursor one entry down.
    Down,
    /// Confirm the current selection.
    Enter,
    /// The interrupt chord: abandon the session.
    Interrupt,
    /// Reading or writing the terminal failed; the session is over.
    IoError,
    /// Any other input, to be ignored.
    Other,
}

/// The phase a menu session is in.
#[derive(Clone, Copy, Debug, PartialEq, Eq, Structural)]
pub enum Phase {
    /// Options drawn, waiting for key events in raw mode.
    Rendering,
    /// Selection confirmed; collecting the command's flags over line prompts.
    AwaitingDetails,
    /// Terminal: the resolved command is being handed to its action.
    Dispatching,
    /// Terminal: the user abandoned the session; nothing is dispatched.
    Cancelled,
    /// Terminal: the session died on an I/O or prompt error.
    Failed,
}

/// What the caller must do after feeding one event to the machine.
#[derive(Clone, Copy, Debug, PartialEq, Eq, Structural)]
pub enum MenuAction {
    /// Repaint the option list in place: the cursor moved.
    Redraw,
    /// Do nothing.
    Ignore,
    /// Release raw mode, move the cursor below the menu, collect details.
    EndToDetails,
    /// Release raw mode and return successfully without dispatching.
    EndCancelled,
    /// Release raw mode, then let the error propagate.
    EndFailed,
}

/// How a physical key maps to a logical menu event: arrows and the vi keys
/// `k`/`j` navigate, enter confirms, control-c cancels, all else is ignored.
pub open spec fn classify_spec(key: KeyTag, ctrl: bool) -> MenuEvent {
    match key {
        KeyTag::Up => MenuEvent::Up,
        KeyTag::Down => MenuEvent::Down,
        KeyTag::Enter => MenuEvent::Enter,
        KeyTag::Char(c) => if c == 'k' {
            MenuEvent::Up
        } else if c == 'j' {
            MenuEvent::Down
        } else if c == 'c' && ctrl {
            MenuEvent::Interrupt
        } else {
            MenuEvent::Other
        },
        KeyTag::Other => MenuEvent::Other,
    }
}

/// Map a physical key (plus whether control was held) to a menu event.
pub fn classify(key: KeyTag, ctrl: bool) -> (e: MenuEvent)
    ensures
        e == classify_spec(key, ctrl),
{
    match key {
        KeyTag::Up => MenuEvent::Up,
        KeyTag::Down => MenuEvent::Down,
        KeyTag::Enter => MenuEvent::Enter,
        KeyTag::Char(c) => {
            if c == 'k' {
                MenuEvent::Up
            } else if c == 'j' {
                MenuEvent::Down
            } else if c == 'c' && ctrl {
                MenuEvent::Interrupt
            } else {
                MenuEvent::Other
            }
        },
        KeyTag::Other => MenuEvent::Other,
    }
}

/// The mathematical state of one menu session: the cursor, the phase, and
/// the raw-terminal-mode lifecycle (how often the mode was acquired and
/// released since the session began).
pub ghost struct SessionModel {
    /// Length of the option list; fixed for the session.
    pub n_options: nat,
    /// Cursor position, always within the option list.
    pub selected: nat,
    /// The phase the session is in.
    pub phase: Phase,
    /// Whether raw terminal mode is currently held.
    pub raw_on: bool,
    /// How many times raw mode was acquired in this session.
    pub enables: nat,
    /// How many times raw mode was released in this session.
    pub disables: nat,
}

/// The state a session starts in: cursor on the first entry, rendering,
/// raw mode acquired once.
pub open spec fn init_model(n_options: nat) -> SessionModel {
    SessionModel {
        n_options,
        selected: 0,
        phase: Phase::Rendering,
        raw_on: true,
        enables: 1,
        disables: 0,
    }
}

/// A session state that can actually be reached: the cursor is in bounds,
/// raw mode is held exactly while rendering, and the mode was acquired once
/// and released exactly when rendering ended.
pub open spec fn wf_model(m: SessionModel) -> bool {
    &&& 1 <= m.n_options
    &&& m.selected < m.n_options
    &&& (m.raw_on <==> m.phase is Rendering)
    &&& m.enables == 1
    &&& m.disables == (if m.phase is Rendering { 0int } else { 1int })
}

/// One transition of the session on a key event. Events only matter while
/// rendering; cursor moves clamp at the list's ends instead of wrapping;
/// enter, interrupt and an I/O failure each release raw mode and leave
/// `Rendering` for good.
pub open spec fn step_model(m: SessionModel, ev: MenuEvent) -> SessionModel {
    if !(m.phase is Rendering) {
        m
    } else {
        match ev {
            MenuEvent::Up => if m.selected > 0 {
                SessionModel { selected: (m.selected - 1) as nat, ..m }
            } else {
                m
            },
            MenuEvent::Down => if m.selected + 1 < m.n_options {
                SessionModel { selected: m.selected + 1, ..m }
            } else {
                m
            },
            MenuEvent::Enter => SessionModel {
                phase: Phase::AwaitingDetails,
                raw_on: false,
                disables: m.disables + 1,
                ..m
            },
            MenuEvent::Interrupt => SessionModel {
                phase: Phase::Cancelled,
                raw_on: false,
                disables: m.disables + 1,
                ..m
            },
            MenuEvent::IoError => SessionModel {
                phase: Phase::Failed,
                raw_on: false,
                disables: m.disables + 1,
                ..m
            },
            MenuEvent::Other => m,
        }
    }
}

/// The action the caller owes after one event, matching `step_model`.
pub open spec fn spec_action(m: SessionModel, ev: MenuEvent) -> MenuAction {
    if !(m.phase is Rendering) {
        MenuAction::Ignore
    } else {
        match ev {
            MenuEvent::Up => if m.selected > 0 {
                MenuAction::Redraw
            } else {
                MenuAction::Ignore
            },
            MenuEvent::Down => if m.selected + 1 < m.n_options {
                MenuAction::Redraw
            } else {
                MenuAction::Ignore
            },
            MenuEvent::Enter => MenuAction::EndToDetails,
            MenuEvent::Interrupt => MenuAction::EndCancelled,
            MenuEvent::IoError => MenuAction::EndFailed,
            MenuEvent::Other => MenuAction::Ignore,
        }
    }
}

/// The session state after a whole sequence of key events, from the start.
pub open spec fn run_model(n_options: nat, evs: Seq<MenuEvent>) -> SessionModel
    decreases evs.len(),
{
    if evs.len() == 0 {
        init_model(n_options)
    } else {
        step_model(run_model(n_options, evs.drop_last()), evs.last())
    }
}

/// How many redraws a sequence of events causes.
pub open spec fn redraw_count(n_options: nat, evs: Seq<MenuEvent>) -> nat
    decreases evs.len(),
{
    if evs.len() == 0 {
        0
    } else {
        redraw_count(n_options, evs.drop_last()) + (
        if spec_action(run_model(n_options, evs.drop_last()), evs.last()) is Redraw {
            1nat
        } else {
            0nat
        })
    }
}

/// How many events of a sequence actually move the cursor.
pub open spec fn change_count(n_options: nat, evs: Seq<MenuEvent>) -> nat
    decreases evs.len(),
{
    if evs.len() == 0 {
        0
    } else {
        change_count(n_options, evs.drop_last()) + (
        if step_model(run_model(n_options, evs.drop_last()), evs.last()).selected != run_model(
            n_options,
            evs.drop_last(),
        ).selected {
            1nat
        } else {
            0nat
        })
    }
}

/// One step keeps a session state well formed.
pub proof fn lemma_step_preserves_wf(m: SessionModel, ev: MenuEvent)
    requires
        wf_model(m),
    ensures
        wf_model(step_model(m, ev)),
{
}

/// Every state a session can reach is well formed.
pub proof fn lemma_run_model_wf(n_options: nat, evs: Seq<MenuEvent>)
    requires
        1 <= n_options,
    ensures
        wf_model(run_model(n_options, evs)),
        run_model(n_options, evs).n_options == n_options,
    decreases evs.len(),
{
    if evs.len() > 0 {
        lemma_run_model_wf(n_options, evs.drop_last());
        lemma_step_preserves_wf(run_model(n_options, evs.drop_last()), evs.last());
    }
}

/// After any sequence of events, the cursor is still inside the option
/// list: navigation clamps and never wraps.
pub proof fn lemma_selection_in_bounds(n_options: nat, evs: Seq<MenuEvent>)
    requires
        1 <= n_options,
    ensures
        run_model(n_options, evs).selected < n_options,
{
    lemma_run_model_wf(n_options, evs);
}

/// At the edges of the list, moving further is a no-op: an up event on the
/// first entry and a down event on the last entry leave the cursor where
/// it is.
pub proof fn lemma_clamp_at_edges(m: SessionModel)
    requires
        wf_model(m),
    ensures
        m.selected == 0 ==> step_model(m, MenuEvent::Up).selected == m.selected,
        m.selected + 1 == m.n_options ==> step_model(m, MenuEvent::Down).selected == m.selected,
{
}

/// A redraw is owed exactly when the event moved the cursor.
pub proof fn lemma_redraw_iff_change(m: SessionModel, ev: MenuEvent)
    requires
        wf_model(m),
    ensures
        spec_action(m, ev) is Redraw <==> step_model(m, ev).selected != m.selected,
{
}

/// Over any sequence of events, the number of redraws equals the number of
/// cursor-moving events: ignored and clamped events repaint nothing.
pub proof fn lemma_redraws_equal_changes(n_options: nat, evs: Seq<MenuEvent>)
    requires
        1 <= n_options,
    ensures
        redraw_count(n_options, evs) == change_count(n_options, evs),
    decreases evs.len(),
{
    if evs.len() > 0 {
        lemma_redraws_equal_changes(n_options, evs.drop_last());
        lemma_run_model_wf(n_options, evs.drop_last());
        lemma_redraw_iff_change(run_model(n_options, evs.drop_last()), evs.last());
    }
}

/// Raw terminal mode is acquired exactly once per session, and is released
/// exactly once on every path that leaves `Rendering` — confirmation,
/// cancellation, and I/O failure alike — never while still rendering.
pub proof fn lemma_raw_mode_once(n_options: nat, evs: Seq<MenuEvent>)
    requires
        1 <= n_options,
    ensures
        run_model(n_options, evs).enables == 1,
        run_model(n_options, evs).disables <= 1,
        run_model(n_options, evs).phase is Rendering ==> run_model(n_options, evs).raw_on
            && run_model(n_options, evs).disables == 0,
        !(run_model(n_options, evs).phase is Rendering) ==> !run_model(n_options, evs).raw_on
            && run_model(n_options, evs).disables == 1,
{
    lemma_run_model_wf(n_options, evs);
}

/// How a session in `AwaitingDetails` moves on once the prompts are done:
/// to `Dispatching` when every answer parsed, to `Failed` otherwise. Raw
/// mode is long released and stays untouched.
pub open spec fn details_model(m: SessionModel, ok: bool) -> SessionModel {
    if m.phase is AwaitingDetails {
        if ok {
            SessionModel { phase: Phase::Dispatching, ..m }
        } else {
            SessionModel { phase: Phase::Failed, ..m }
        }
    } else {
        m
    }
}

/// Leaving the prompts neither acquires nor releases raw mode.
pub proof fn lemma_details_keeps_raw_mode(m: SessionModel, ok: bool)
    ensures
        details_model(m, ok).enables == m.enables,
        details_model(m, ok).disables == m.disables,
        details_model(m, ok).raw_on == m.raw_on,
{
}

/// One interactive menu session, owning the cursor and the phase.
///
/// The caller acquires raw terminal mode exactly when it constructs the
/// session and draws the first frame; from then on it performs the action
/// each `step` returns and feeds back the next event. The session follows
/// `step_model` exactly.
pub struct MenuSession {
    /// Length of the option list; fixed for the session.
    pub n_options: usize,
    /// Cursor position.
    pub selected: usize,
    /// Terminal row captured at session start; origin of every redraw.
    pub anchor_row: u16,
    /// The phase the session is in.
    pub phase: Phase,
    /// Whether raw terminal mode is currently held.
    pub raw_on: bool,
}

impl MenuSession {
    /// The session as a mathematical state. A live session has acquired raw
    /// mode once, and has released it exactly when `Rendering` is over.
    pub open spec fn abs(self) -> SessionModel {
        SessionModel {
            n_options: self.n_options as nat,
            selected: self.selected as nat,
            phase: self.phase,
            raw_on: self.raw_on,
            enables: 1,
            disables: if self.phase is Rendering {
                0
            } else {
                1
            },
        }
    }

    /// A session the menu engine can actually be in.
    pub open spec fn wf(self) -> bool {
        &&& wf_model(self.abs())
        &&& self.n_options + self.anchor_row + 6 < u16::MAX
    }

    /// Begin a session: cursor on the first option, rendering, raw mode
    /// acquired. `anchor_row` is the terminal row the caller captured just
    /// before; the bound on it keeps every redraw row on the screen's
    /// coordinate range.
    pub fn new(n_options: usize, anchor_row: u16) -> (s: Self)
        requires
            1 <= n_options,
            n_options + anchor_row + 6 < u16::MAX,
        ensures
            s.wf(),
            s.abs() == init_model(n_options as nat),
            s.anchor_row == anchor_row,
    {
        MenuSession {
            n_options,
            selected: 0,
            anchor_row,
            phase: Phase::Rendering,
            raw_on: true,
        }
    }

    /// Feed one event to the session; returns the action the caller owes.
    /// The new state is exactly `step_model` of the old, and the action is
    /// exactly `spec_action` of the old state and the event.
    pub fn step(&mut self, ev: MenuEvent) -> (a: MenuAction)
        requires
            old(self).wf(),
        ensures
            final(self).wf(),
            final(self).abs() == step_model(old(self).abs(), ev),
            a == spec_action(old(self).abs(), ev),
            final(self).anchor_row == old(self).anchor_row,
            final(self).n_options == old(self).n_options,
    {
        match self.phase {
            Phase::Rendering => {
                match ev {
                    MenuEvent::Up => {
                        if self.selected > 0 {
                            self.selected = self.selected - 1;
                            MenuAction::Redraw
                        } else {
                            MenuAction::Ignore
                        }
                    },
                    MenuEvent::Down => {
                        if self.selected + 1 < self.n_options {
                            self.selected = self.selected + 1;
                            MenuAction::Redraw
                        } else {
                            MenuAction::Ignore
                        }
                    },
                    MenuEvent::Enter => {
                        self.phase = Phase::AwaitingDetails;
                        self.raw_on = false;
                        MenuAction::EndToDetails
                    },
                    MenuEvent::Interrupt => {
                        self.phase = Phase::Cancelled;
                        self.raw_on = false;
                        MenuAction::EndCancelled
                    },
                    MenuEvent::IoError => {
                        self.phase = Phase::Failed;
                        self.raw_on = false;
                        MenuAction::EndFailed
                    },
                    MenuEvent::Other => MenuAction::Ignore,
                }
            },
            _ => MenuAction::Ignore,
        }
    }

    /// Close the prompt phase: the session moves to `Dispatching` when all
    /// answers parsed (`ok`), to `Failed` otherwise, touching nothing else.
    pub fn finish_details(&mut self, ok: bool)
        requires
            old(self).wf(),
            old(self).abs().phase is AwaitingDetails,
        ensures
            final(self).wf(),
            final(self).abs() == details_model(old(self).abs(), ok),
            final(self).anchor_row == old(self).anchor_row,
    {
        if ok {
            self.phase = Phase::Dispatching;
        } else {
            self.phase = Phase::Failed;
        }
    }
}

} // verus!

