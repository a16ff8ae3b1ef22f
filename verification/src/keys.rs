//! What a key press does to a session.
//!
//! The session decides; whoever reads the keys and draws the screen hands
//! each key over, and carries out what the session asks for in return: to
//! quit, to run the suite, or to tell the user what has changed.

use vstd::prelude::*;
use crate::app::{App, AppView, PopupType, HISTORY_TAB};
use crate::outcome::TestResultView;

verus! {

/// A key, as far as the session tells keys apart.
#[derive(Debug, Clone, Copy, PartialEq, Eq)]
pub enum Key {
    Char(char),
    Up,
    Down,
    Left,
    Right,
    Enter,
    Esc,
    /// Any other key.
    Other,
}

/// What is left for the driver to do after a key press.
#[derive(Debug, Clone, Copy, PartialEq, Eq)]
pub enum Effect {
    /// Nothing but to draw the session as it now is.
    Stay,
    /// End the session.
    Quit,
    /// Run the suite as the session now holds it, then hand the results to
    /// the session, or tell the user why there are none. `release` says
    /// whether the run was asked for as a release run.
    Run { release: bool },
    /// Tell the user that the build mode is now the one given.
    BuildModeChanged { release: bool },
    /// Tell the user that the entry with the given number, counted from
    /// one and logged at `timestamp`, is now on display.
    HistoryLoaded { entry: usize, timestamp: u64 },
}

impl AppView {
    /// Whether the help or a popup covers the display, so that keys that
    /// move about it do nothing.
    pub open spec fn covered(self) -> bool {
        self.show_help || self.show_popup
    }

    /// The session after the user has confirmed the open popup. A run is
    /// then left to the driver; for a release run the session first selects
    /// release mode, in the suite's build configuration too.
    pub open spec fn confirm_popup(self) -> AppView {
        match self.popup_type {
            PopupType::RunTests => self.close_popup(),
            PopupType::RunRelease => self.close_popup().set_release_mode(true),
            PopupType::BuildToggle => self.close_popup().toggle_release_mode(),
            PopupType::Closed => self,
            PopupType::ResultNotification => self,
        }
    }

    /// The session after the user has asked to go back: the popup is closed
    /// if one is open, else the help is hidden if it is shown, else the
    /// notice is taken down if one is up.
    pub open spec fn go_back(self) -> AppView {
        if self.show_popup {
            self.close_popup()
        } else if self.show_help {
            self.toggle_help()
        } else if self.result_popup_visible {
            self.dismiss_result_popup()
        } else {
            self
        }
    }

    /// The session after a move down: to the next entry of the log where
    /// the log is shown, else to the next result.
    pub open spec fn move_down(self) -> AppView {
        if self.covered() {
            self
        } else if self.tab_index == HISTORY_TAB {
            self.next_history()
        } else {
            self.next()
        }
    }

    /// The session after a move up: to the entry before where the log is
    /// shown, else to the result before.
    pub open spec fn move_up(self) -> AppView {
        if self.covered() {
            self
        } else if self.tab_index == HISTORY_TAB {
            self.previous_history()
        } else {
            self.previous()
        }
    }

    /// The session after the given key.
    pub open spec fn after_key(self, key: Key) -> AppView {
        match key {
            Key::Down => self.move_down(),
            Key::Up => self.move_up(),
            Key::Right => if self.covered() {
                self
            } else {
                self.next_tab()
            },
            Key::Left => if self.covered() {
                self
            } else {
                self.previous_tab()
            },
            Key::Enter => if self.show_popup {
                self.confirm_popup()
            } else if self.tab_index == HISTORY_TAB {
                self.load_selected_history()
            } else {
                self
            },
            Key::Esc => self.go_back(),
            Key::Other => self,
            Key::Char(c) => if c == '?' {
                if self.show_popup {
                    self
                } else {
                    self.toggle_help()
                }
            } else if c == 'j' {
                self.move_down()
            } else if c == 'k' {
                self.move_up()
            } else if self.covered() {
                self
            } else if c == 'l' {
                self.next_tab()
            } else if c == 'h' {
                self.previous_tab()
            } else if c == 'r' {
                self.toggle_popup(PopupType::RunTests)
            } else if c == 'b' {
                self.toggle_popup(PopupType::BuildToggle)
            } else if c == 'R' {
                self.toggle_popup(PopupType::RunRelease)
            } else if c == 'H' {
                self.toggle_history_view()
            } else {
                self
            },
        }
    }

    /// What is left for the driver to do after the given key.
    pub open spec fn effect_of(self, key: Key) -> Effect {
        match key {
            Key::Char(c) => if c == 'q' && !self.show_popup {
                Effect::Quit
            } else {
                Effect::Stay
            },
            Key::Enter => if self.show_popup {
                match self.popup_type {
                    PopupType::RunTests => Effect::Run { release: false },
                    PopupType::RunRelease => Effect::Run { release: true },
                    PopupType::BuildToggle => Effect::BuildModeChanged {
                        release: !self.release_mode,
                    },
                    PopupType::Closed => Effect::Stay,
                    PopupType::ResultNotification => Effect::Stay,
                }
            } else if self.tab_index == HISTORY_TAB {
                Effect::HistoryLoaded {
                    entry: (self.selected_history + 1) as usize,
                    timestamp: self.history[self.selected_history].timestamp,
                }
            } else {
                Effect::Stay
            },
            _ => Effect::Stay,
        }
    }
}

impl App {
    fn move_down(&mut self)
        requires
            old(self)@.wf(),
        ensures
            final(self)@ == old(self)@.move_down(),
            final(self)@.wf(),
    {
        if self.show_help() || self.show_popup() {
        } else if self.tab_index() == HISTORY_TAB {
            self.next_history();
        } else {
            self.next();
        }
    }

    fn move_up(&mut self)
        requires
            old(self)@.wf(),
        ensures
            final(self)@ == old(self)@.move_up(),
            final(self)@.wf(),
    {
        if self.show_help() || self.show_popup() {
        } else if self.tab_index() == HISTORY_TAB {
            self.previous_history();
        } else {
            self.previous();
        }
    }

    fn confirm_popup(&mut self) -> (effect: Effect)
        requires
            old(self)@.wf(),
            old(self)@.show_popup,
        ensures
            final(self)@ == old(self)@.confirm_popup(),
            effect == old(self)@.effect_of(Key::Enter),
            final(self)@.wf(),
    {
        match self.popup_type() {
            PopupType::RunTests => {
                self.close_popup();
                Effect::Run { release: false }
            },
            PopupType::RunRelease => {
                self.close_popup();
                self.set_release_mode(true);
                Effect::Run { release: true }
            },
            PopupType::BuildToggle => {
                self.close_popup();
                self.toggle_release_mode();
                Effect::BuildModeChanged { release: self.release_mode() }
            },
            PopupType::Closed => Effect::Stay,
            PopupType::ResultNotification => Effect::Stay,
        }
    }

    fn go_back(&mut self)
        requires
            old(self)@.wf(),
        ensures
            final(self)@ == old(self)@.go_back(),
            final(self)@.wf(),
    {
        if self.show_popup() {
            self.close_popup();
        } else if self.show_help() {
            self.toggle_help();
        } else if self.result_popup_visible() {
            self.dismiss_result_popup();
        }
    }

    fn character(&mut self, c: char) -> (effect: Effect)
        requires
            old(self)@.wf(),
        ensures
            final(self)@ == old(self)@.after_key(Key::Char(c)),
            effect == old(self)@.effect_of(Key::Char(c)),
            final(self)@.wf(),
    {
        let covered = self.show_help() || self.show_popup();
        if c == 'q' {
            if !self.show_popup() {
                return Effect::Quit;
            }
        } else if c == '?' {
            if !self.show_popup() {
                self.toggle_help();
            }
        } else if c == 'j' {
            self.move_down();
        } else if c == 'k' {
            self.move_up();
        } else if covered {
        } else if c == 'l' {
            self.next_tab();
        } else if c == 'h' {
            self.previous_tab();
        } else if c == 'r' {
            self.toggle_popup(PopupType::RunTests);
        } else if c == 'b' {
            self.toggle_popup(PopupType::BuildToggle);
        } else if c == 'R' {
            self.toggle_popup(PopupType::RunRelease);
        } else if c == 'H' {
            self.toggle_history_view();
        }
        Effect::Stay
    }

    /// Takes a key press: changes the session as the key asks, and says what
    /// is left for the driver to do.
    pub fn handle_key(&mut self, key: Key) -> (effect: Effect)
        requires
            old(self)@.wf(),
        ensures
            final(self)@ == old(self)@.after_key(key),
            effect == old(self)@.effect_of(key),
            final(self)@.wf(),
    {
        let covered = self.show_help() || self.show_popup();
        match key {
            Key::Char(c) => self.character(c),
            Key::Down => {
                self.move_down();
                Effect::Stay
            },
            Key::Up => {
                self.move_up();
                Effect::Stay
            },
            Key::Right => {
                if !covered {
                    self.next_tab();
                }
                Effect::Stay
            },
            Key::Left => {
                if !covered {
                    self.previous_tab();
                }
                Effect::Stay
            },
            Key::Enter => {
                if self.show_popup() {
                    self.confirm_popup()
                } else if self.tab_index() == HISTORY_TAB {
                    let index = self.selected_history();
                    let history = self.history();
                    assert(history.deep_view().len() == history.len());
                    assert(history.deep_view()[index as int] == history[index as int]@);
                    let entry: usize = index + 1;
                    let timestamp = history[index].timestamp;
                    self.load_selected_history();
                    Effect::HistoryLoaded { entry, timestamp }
                } else {
                    Effect::Stay
                }
            },
            Key::Esc => {
                self.go_back();
                Effect::Stay
            },
            Key::Other => Effect::Stay,
        }
    }
}

/// A run that is asked for as a release run, of a suite with a build
/// configuration, is made and logged in release mode: confirming the popup
/// asks the driver for a release run and puts the suite and the session in
/// release mode, and the run's results are then logged in that mode.
pub proof fn lemma_release_run_is_logged_as_release(
    app: AppView,
    results: Seq<TestResultView>,
    timestamp: u64,
)
    requires
        app.wf(),
        app.show_popup,
        app.popup_type == PopupType::RunRelease,
        app.config.build is Some,
    ensures
        app.effect_of(Key::Enter) == (Effect::Run { release: true }),
        app.after_key(Key::Enter).config.suite_release(),
        app.after_key(Key::Enter).release_mode,
        app.after_key(Key::Enter).record_run(results, timestamp).history.last().release_mode,
        app.after_key(Key::Enter).record_run(results, timestamp).history.last().test_results
            == results,
{
}

} // verus!
