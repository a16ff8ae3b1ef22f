//! The state of an interactive session: the results on display, the
//! selection, the log of earlier runs and the popups.

use vstd::prelude::*;
use std::time::{Duration, Instant, SystemTime, UNIX_EPOCH};
use crate::config::{BuildConfig, BuildConfigView, TestConfig, TestConfigView};
use crate::outcome::{clone_results, count_passed, passed, TestResult, TestResultView};

verus! {

/// How many tabs the display has.
pub const TAB_COUNT: usize = 5;

/// The index of the tab that shows the log of runs.
pub const HISTORY_TAB: usize = 4;

/// The seconds after which a notice goes away by itself.
pub const NOTICE_SECONDS: u64 = 3;

/// `std::time::Instant`, a reading of the monotonic clock. The library
/// carries such readings about and never looks inside them.
#[verifier::external_type_specification]
#[verifier::external_body]
pub struct ExInstant(Instant);

/// `std::time::SystemTime`, a reading of the system clock. The library
/// never looks inside one.
#[verifier::external_type_specification]
#[verifier::external_body]
pub struct ExSystemTime(SystemTime);

/// Reads the system clock with `SystemTime::now`. Nothing is claimed of the
/// reading.
#[verifier::external_body]
fn system_now() -> SystemTime {
    SystemTime::now()
}

/// The time from the Unix epoch to `time`, by `SystemTime::duration_since`;
/// none where `time` lies before the epoch. Nothing is claimed of it.
#[verifier::external_body]
fn since_epoch(time: &SystemTime) -> Option<Duration> {
    time.duration_since(UNIX_EPOCH).ok()
}

/// The whole seconds of a span of time, by `Duration::as_secs`. Nothing is
/// claimed of the number.
#[verifier::external_body]
fn whole_seconds(span: &Duration) -> u64 {
    span.as_secs()
}

/// Reads the monotonic clock with `Instant::now`. Nothing is claimed of the
/// reading.
#[verifier::external_body]
fn instant_now() -> Instant {
    Instant::now()
}

/// The time that has passed since `start`, by `Instant::elapsed`. Nothing is
/// claimed of it.
#[verifier::external_body]
fn elapsed_since(start: &Instant) -> Duration {
    start.elapsed()
}

/// The whole seconds since the Unix epoch by the system clock, or zero
/// where the clock stands before the epoch.
fn unix_seconds() -> u64 {
    match since_epoch(&system_now()) {
        Some(span) => whole_seconds(&span),
        None => 0,
    }
}

/// The results of one run, with the time at which they were logged and the
/// build mode that was selected then.
#[derive(Debug)]
pub struct TestHistory {
    /// Seconds since the Unix epoch.
    pub timestamp: u64,
    pub test_results: Vec<TestResult>,
    pub release_mode: bool,
}

/// The mathematical content of a [`TestHistory`].
pub struct TestHistoryView {
    pub timestamp: u64,
    pub test_results: Seq<TestResultView>,
    pub release_mode: bool,
}

impl View for TestHistory {
    type V = TestHistoryView;

    open spec fn view(&self) -> TestHistoryView {
        TestHistoryView {
            timestamp: self.timestamp,
            test_results: self.test_results.deep_view(),
            release_mode: self.release_mode,
        }
    }
}

impl DeepView for TestHistory {
    type V = TestHistoryView;

    open spec fn deep_view(&self) -> TestHistoryView {
        self@
    }
}

impl Clone for TestHistory {
    fn clone(&self) -> (out: Self)
        ensures
            out@ == self@,
    {
        TestHistory {
            timestamp: self.timestamp,
            test_results: clone_results(&self.test_results),
            release_mode: self.release_mode,
        }
    }
}

/// The question that a popup asks, or the notice that it gives.
#[derive(Debug, Clone, Copy, PartialEq, Eq, Structural)]
pub enum PopupType {
    /// No popup is open.
    Closed,
    /// Run the suite again?
    RunTests,
    /// Run the suite again, built for release?
    RunRelease,
    /// Switch the build mode?
    BuildToggle,
    /// A notice of how a run went.
    ResultNotification,
}

} // verus!

verus! {

/// The position after `index` in a cycle of `len` positions.
pub open spec fn next_index(index: int, len: int) -> int {
    (index + 1) % len
}

/// The position before `index` in a cycle of `len` positions.
pub open spec fn previous_index(index: int, len: int) -> int {
    if index > 0 {
        index - 1
    } else {
        len - 1
    }
}

/// `config` with the build mode of the suite's build configuration, if it
/// has one, set to `release`.
pub open spec fn with_release(config: TestConfigView, release: bool) -> TestConfigView {
    TestConfigView {
        build: match config.build {
            Some(build) => Some(
                BuildConfigView { release, pre_build_commands: build.pre_build_commands },
            ),
            None => None,
        },
        tests: config.tests,
    }
}

/// The mathematical content of an [`App`].
pub struct AppView {
    /// The results on display.
    pub test_results: Seq<TestResultView>,
    pub config: TestConfigView,
    pub selected_test: int,
    pub tab_index: int,
    pub show_help: bool,
    pub release_mode: bool,
    /// The log of runs, oldest first.
    pub history: Seq<TestHistoryView>,
    pub selected_history: int,
    pub viewing_history: bool,
    pub show_popup: bool,
    pub popup_type: PopupType,
    pub result_popup_visible: bool,
    /// When the notice was put up, while it counts towards its end.
    pub result_popup_time: Option<Instant>,
    pub result_popup_message: Seq<char>,
}

impl AppView {
    /// What holds of every session: the log is never empty, an entry of it
    /// is selected, and one of the tabs is shown.
    pub open spec fn wf(self) -> bool {
        &&& self.history.len() >= 1
        &&& 0 <= self.selected_history < self.history.len()
        &&& 0 <= self.tab_index < TAB_COUNT
        &&& 0 <= self.selected_test
    }

    /// A session that starts with `test_results` on display and logged at
    /// `timestamp`.
    pub open spec fn seeded(
        test_results: Seq<TestResultView>,
        config: TestConfigView,
        timestamp: u64,
    ) -> AppView {
        AppView {
            test_results,
            config,
            selected_test: 0,
            tab_index: 0,
            show_help: false,
            release_mode: false,
            history: seq![TestHistoryView { timestamp, test_results, release_mode: false }],
            selected_history: 0,
            viewing_history: false,
            show_popup: false,
            popup_type: PopupType::Closed,
            result_popup_visible: false,
            result_popup_time: None,
            result_popup_message: Seq::empty(),
        }
    }

    /// The session with the next result selected, around the end.
    pub open spec fn next(self) -> AppView {
        if self.test_results.len() > 0 {
            AppView {
                selected_test: next_index(self.selected_test, self.test_results.len() as int),
                ..self
            }
        } else {
            self
        }
    }

    /// The session with the result before selected, around the start.
    pub open spec fn previous(self) -> AppView {
        if self.test_results.len() > 0 {
            AppView {
                selected_test: previous_index(self.selected_test, self.test_results.len() as int),
                ..self
            }
        } else {
            self
        }
    }

    /// The session with the next tab shown, around the end.
    pub open spec fn next_tab(self) -> AppView {
        AppView { tab_index: next_index(self.tab_index, TAB_COUNT as int), ..self }
    }

    /// The session with the tab before shown, around the start.
    pub open spec fn previous_tab(self) -> AppView {
        AppView { tab_index: previous_index(self.tab_index, TAB_COUNT as int), ..self }
    }

    /// The session with the help shown if it was hidden, and hidden if it
    /// was shown.
    pub open spec fn toggle_help(self) -> AppView {
        AppView { show_help: !self.show_help, ..self }
    }

    /// The session with the given build mode selected, in the suite's build
    /// configuration too.
    pub open spec fn set_release_mode(self, release: bool) -> AppView {
        AppView { release_mode: release, config: with_release(self.config, release), ..self }
    }

    /// The session with the other build mode selected, in the suite's build
    /// configuration too.
    pub open spec fn toggle_release_mode(self) -> AppView {
        self.set_release_mode(!self.release_mode)
    }

    /// The session with the results on display logged at `timestamp`, and
    /// the new entry selected.
    pub open spec fn add_to_history(self, timestamp: u64) -> AppView {
        AppView {
            history: self.history.push(
                TestHistoryView {
                    timestamp,
                    test_results: self.test_results,
                    release_mode: self.release_mode,
                },
            ),
            selected_history: self.history.len() as int,
            ..self
        }
    }

    /// The session with the log shown and its newest entry selected.
    pub open spec fn toggle_history_view(self) -> AppView {
        AppView {
            tab_index: HISTORY_TAB as int,
            selected_history: self.history.len() - 1,
            ..self
        }
    }

    /// The session with the log's entry at `index` selected and its results
    /// and build mode on display.
    pub open spec fn select_entry(self, index: int) -> AppView {
        AppView {
            selected_history: index,
            test_results: self.history[index].test_results,
            release_mode: self.history[index].release_mode,
            ..self
        }
    }

    /// The session with the next entry of the log selected, around the end,
    /// and on display.
    pub open spec fn next_history(self) -> AppView {
        self.select_entry(next_index(self.selected_history, self.history.len() as int))
    }

    /// The session with the entry before selected, around the start, and on
    /// display.
    pub open spec fn previous_history(self) -> AppView {
        self.select_entry(previous_index(self.selected_history, self.history.len() as int))
    }

    /// The session back on its first tab, with a selection that points at a
    /// result if there is any.
    pub open spec fn reset_ui_state(self) -> AppView {
        AppView {
            selected_test: if self.test_results.len() > 0 && self.selected_test
                >= self.test_results.len() {
                0
            } else {
                self.selected_test
            },
            tab_index: 0,
            viewing_history: false,
            ..self
        }
    }

    /// The session with the popup of the given kind closed if it was open,
    /// and opened otherwise.
    pub open spec fn toggle_popup(self, popup_type: PopupType) -> AppView {
        if self.show_popup && self.popup_type == popup_type {
            self.close_popup()
        } else {
            AppView { show_popup: true, popup_type, ..self }
        }
    }

    /// The session with no popup open.
    pub open spec fn close_popup(self) -> AppView {
        AppView { show_popup: false, popup_type: PopupType::Closed, ..self }
    }

    /// The session with a notice put up at the moment `now`.
    pub open spec fn show_result_popup(self, message: Seq<char>, now: Instant) -> AppView {
        AppView {
            result_popup_visible: true,
            result_popup_time: Some(now),
            result_popup_message: message,
            popup_type: PopupType::ResultNotification,
            ..self
        }
    }

    /// Whether a notice that has been up for `elapsed_secs` whole seconds is
    /// due to go away.
    pub open spec fn notice_is_due(self, elapsed_secs: u64) -> bool {
        self.result_popup_time is Some && elapsed_secs >= NOTICE_SECONDS
    }

    /// The session with its notice taken down.
    pub open spec fn dismiss_result_popup(self) -> AppView {
        AppView { result_popup_visible: false, result_popup_time: None, ..self }
    }

    /// The session after a run of its suite that gave `results`: they are on
    /// display, together with the build mode that the run was made in, which
    /// is the suite's; they are logged with that mode at `timestamp`; and
    /// the display is back on its first tab.
    pub open spec fn record_run(self, results: Seq<TestResultView>, timestamp: u64) -> AppView {
        (AppView {
            test_results: results,
            release_mode: self.config.suite_release(),
            ..self
        }).add_to_history(timestamp).reset_ui_state()
    }

    /// The session with the selected entry of the log on display, on the
    /// first tab.
    pub open spec fn load_selected_history(self) -> AppView {
        AppView { tab_index: 0, ..self.select_entry(self.selected_history) }
    }

    /// How many of the results on display succeeded, and how many there are.
    pub open spec fn stats(self) -> (nat, nat) {
        (passed(self.test_results), self.test_results.len())
    }
}

/// For one entry of the log: its timestamp, how many of its results
/// succeeded, how many it has, and its build mode.
pub open spec fn entry_stats(entry: TestHistoryView) -> (u64, usize, usize, bool) {
    (
        entry.timestamp,
        passed(entry.test_results) as usize,
        entry.test_results.len() as usize,
        entry.release_mode,
    )
}

} // verus!

verus! {

/// An interactive session.
pub struct App {
    test_results: Vec<TestResult>,
    config: TestConfig,
    selected_test: usize,
    tab_index: usize,
    show_help: bool,
    release_mode: bool,
    history: Vec<TestHistory>,
    selected_history: usize,
    viewing_history: bool,
    show_popup: bool,
    popup_type: PopupType,
    result_popup_visible: bool,
    result_popup_time: Option<Instant>,
    result_popup_message: String,
}

impl View for App {
    type V = AppView;

    closed spec fn view(&self) -> AppView {
        AppView {
            test_results: self.test_results.deep_view(),
            config: self.config@,
            selected_test: self.selected_test as int,
            tab_index: self.tab_index as int,
            show_help: self.show_help,
            release_mode: self.release_mode,
            history: self.history.deep_view(),
            selected_history: self.selected_history as int,
            viewing_history: self.viewing_history,
            show_popup: self.show_popup,
            popup_type: self.popup_type,
            result_popup_visible: self.result_popup_visible,
            result_popup_time: self.result_popup_time,
            result_popup_message: self.result_popup_message@,
        }
    }
}

impl App {
    /// Begins a session with the results of a first run, which are logged
    /// at `timestamp`.
    pub fn new_at(test_results: Vec<TestResult>, config: TestConfig, timestamp: u64) -> (app: App)
        ensures
            app@ == AppView::seeded(test_results.deep_view(), config@, timestamp),
            app@.wf(),
    {
        let seed = TestHistory {
            timestamp,
            test_results: clone_results(&test_results),
            release_mode: false,
        };
        let mut history: Vec<TestHistory> = Vec::new();
        history.push(seed);
        let app = App {
            test_results,
            config,
            selected_test: 0,
            tab_index: 0,
            show_help: false,
            release_mode: false,
            history,
            selected_history: 0,
            viewing_history: false,
            show_popup: false,
            popup_type: PopupType::Closed,
            result_popup_visible: false,
            result_popup_time: None,
            result_popup_message: String::new(),
        };
        assert(app@.history =~= seq![seed@]);
        app
    }

    /// Begins a session with the results of a first run, which are logged
    /// at the time that the system clock shows.
    pub fn new(test_results: Vec<TestResult>, config: TestConfig) -> (app: App)
        ensures
            exists|timestamp: u64|
                app@ == AppView::seeded(test_results.deep_view(), config@, timestamp),
            app@.wf(),
    {
        App::new_at(test_results, config, unix_seconds())
    }

    /// Selects the next result, around the end.
    pub fn next(&mut self)
        requires
            old(self)@.wf(),
        ensures
            final(self)@ == old(self)@.next(),
            final(self)@.wf(),
    {
        let len: usize = self.test_results.len();
        if len > 0 {
            // The selection may point past the results on display, so it is
            // reduced first; the sum below then cannot overflow.
            let here: usize = self.selected_test % len;
            proof {
                vstd::arithmetic::div_mod::lemma_add_mod_noop(
                    self.selected_test as int,
                    1,
                    len as int,
                );
                vstd::arithmetic::div_mod::lemma_mod_twice(self.selected_test as int, len as int);
                if len > 1 {
                    vstd::arithmetic::div_mod::lemma_small_mod(1, len as nat);
                } else {
                    assert(1int % 1 == 0);
                }
            }
            self.selected_test = if here + 1 == len {
                0
            } else {
                here + 1
            };
            proof {
                if here + 1 == len {
                    vstd::arithmetic::div_mod::lemma_mod_self_0(len as int);
                } else {
                    vstd::arithmetic::div_mod::lemma_small_mod((here + 1) as nat, len as nat);
                }
            }
        }
    }

    /// Selects the result before, around the start.
    pub fn previous(&mut self)
        requires
            old(self)@.wf(),
        ensures
            final(self)@ == old(self)@.previous(),
            final(self)@.wf(),
    {
        if self.test_results.len() > 0 {
            self.selected_test = if self.selected_test > 0 {
                self.selected_test - 1
            } else {
                self.test_results.len() - 1
            };
        }
    }

    /// Shows the next tab, around the end.
    pub fn next_tab(&mut self)
        requires
            old(self)@.wf(),
        ensures
            final(self)@ == old(self)@.next_tab(),
            final(self)@.wf(),
    {
        self.tab_index = (self.tab_index + 1) % TAB_COUNT;
    }

    /// Shows the tab before, around the start.
    pub fn previous_tab(&mut self)
        requires
            old(self)@.wf(),
        ensures
            final(self)@ == old(self)@.previous_tab(),
            final(self)@.wf(),
    {
        self.tab_index = if self.tab_index > 0 {
            self.tab_index - 1
        } else {
            TAB_COUNT - 1
        };
    }

    /// Shows the help if it is hidden, and hides it if it is shown.
    pub fn toggle_help(&mut self)
        requires
            old(self)@.wf(),
        ensures
            final(self)@ == old(self)@.toggle_help(),
            final(self)@.wf(),
    {
        self.show_help = !self.show_help;
    }

    /// Selects the other build mode, in the suite's build configuration
    /// too.
    pub fn toggle_release_mode(&mut self)
        requires
            old(self)@.wf(),
        ensures
            final(self)@ == old(self)@.toggle_release_mode(),
            final(self)@.wf(),
    {
        self.set_release_mode(!self.release_mode);
    }

    /// Selects the given build mode, in the suite's build configuration
    /// too.
    pub fn set_release_mode(&mut self, release: bool)
        requires
            old(self)@.wf(),
        ensures
            final(self)@ == old(self)@.set_release_mode(release),
            final(self)@.wf(),
    {
        self.release_mode = release;
        self.set_build_release(release);
    }

    fn set_build_release(&mut self, release: bool)
        ensures
            final(self)@ == (AppView {
                config: with_release(old(self)@.config, release),
                ..old(self)@
            }),
    {
        let build = self.config.build.take();
        self.config.build = match build {
            Some(build) => Some(
                BuildConfig { release, pre_build_commands: build.pre_build_commands },
            ),
            None => None,
        };
    }

    /// How many of the results on display succeeded, and how many there are.
    pub fn get_stats(&self) -> (stats: (usize, usize))
        ensures
            stats.0 == self@.stats().0,
            stats.1 == self@.stats().1,
            stats.0 <= stats.1,
    {
        (count_passed(&self.test_results), self.test_results.len())
    }

    /// What the selected result was run with: its command, arguments and
    /// input, the time it took, its build mode and its build commands. There
    /// is none where the selection points at no result.
    pub fn get_command_details(&self) -> (details: Option<
        (&str, &[String], Option<&String>, Duration, bool, Option<&Vec<String>>),
    >)
        ensures
            match details {
                Some(details) => {
                    let selected = self@.test_results[self@.selected_test];
                    &&& self@.selected_test < self@.test_results.len()
                    &&& details.0@ == selected.command
                    &&& details.1.deep_view() == selected.args
                    &&& details.2.deep_view() == selected.input
                    &&& details.3 == selected.execution_time
                    &&& details.4 == selected.is_release
                    &&& details.5.deep_view() == selected.build_commands
                },
                None => self@.selected_test >= self@.test_results.len(),
            },
    {
        if self.selected_test >= self.test_results.len() {
            return None;
        }
        let test = &self.test_results[self.selected_test];
        assert(self.test_results.deep_view()[self.selected_test as int] == test@);
        Some(
            (
                test.command.as_str(),
                test.args.as_slice(),
                test.input.as_ref(),
                test.execution_time,
                test.is_release,
                test.build_commands.as_ref(),
            ),
        )
    }

    /// Logs the results on display at `timestamp` and selects the new
    /// entry. Earlier entries stay as they are.
    pub fn add_to_history_at(&mut self, timestamp: u64)
        requires
            old(self)@.wf(),
        ensures
            final(self)@ == old(self)@.add_to_history(timestamp),
            final(self)@.wf(),
    {
        let entry = TestHistory {
            timestamp,
            test_results: clone_results(&self.test_results),
            release_mode: self.release_mode,
        };
        let ghost before = self.history.deep_view();
        self.history.push(entry);
        self.selected_history = self.history.len() - 1;
        assert(self.history.deep_view() =~= before.push(entry@));
    }

    /// Logs the results on display at the time that the system clock shows
    /// and selects the new entry.
    pub fn add_to_history(&mut self)
        requires
            old(self)@.wf(),
        ensures
            exists|timestamp: u64| final(self)@ == old(self)@.add_to_history(timestamp),
            final(self)@.wf(),
    {
        self.add_to_history_at(unix_seconds());
    }

    /// Shows the log, with its newest entry selected.
    pub fn toggle_history_view(&mut self)
        requires
            old(self)@.wf(),
        ensures
            final(self)@ == old(self)@.toggle_history_view(),
            final(self)@.wf(),
    {
        self.tab_index = HISTORY_TAB;
        self.selected_history = self.history.len() - 1;
    }

    fn select_entry(&mut self, index: usize)
        requires
            old(self)@.wf(),
            index < old(self)@.history.len(),
        ensures
            final(self)@ == old(self)@.select_entry(index as int),
            final(self)@.wf(),
    {
        self.selected_history = index;
        self.test_results = clone_results(&self.history[index].test_results);
        self.release_mode = self.history[index].release_mode;
        assert(self.history.deep_view()[index as int] == self.history[index as int]@);
    }

    /// Selects the next entry of the log, around the end, and puts its
    /// results and build mode on display. Nothing is run, and the log stays
    /// as it is.
    pub fn next_history(&mut self)
        requires
            old(self)@.wf(),
        ensures
            final(self)@ == old(self)@.next_history(),
            final(self)@.wf(),
    {
        assert(self.history.deep_view().len() == self.history.len());
        let index: usize = (self.selected_history + 1) % self.history.len();
        self.select_entry(index);
    }

    /// Selects the entry before, around the start, and puts its results and
    /// build mode on display. Nothing is run, and the log stays as it is.
    pub fn previous_history(&mut self)
        requires
            old(self)@.wf(),
        ensures
            final(self)@ == old(self)@.previous_history(),
            final(self)@.wf(),
    {
        let index: usize = if self.selected_history > 0 {
            self.selected_history - 1
        } else {
            self.history.len() - 1
        };
        self.select_entry(index);
    }

    /// For each entry of the log, oldest first: its timestamp, how many of
    /// its results succeeded, how many it has, and its build mode.
    pub fn get_history_stats(&self) -> (stats: Vec<(u64, usize, usize, bool)>)
        ensures
            stats.len() == self@.history.len(),
            forall|i: int| 0 <= i < stats.len() ==> stats[i] == entry_stats(self@.history[i]),
    {
        let mut stats: Vec<(u64, usize, usize, bool)> = Vec::new();
        let mut i: usize = 0;
        while i < self.history.len()
            invariant
                i <= self.history.len(),
                stats.len() == i,
                forall|k: int|
                    0 <= k < i ==> stats[k] == entry_stats(#[trigger] self.history.deep_view()[k]),
            decreases self.history.len() - i,
        {
            let entry = &self.history[i];
            assert(self.history.deep_view()[i as int] == entry@);
            stats.push(
                (
                    entry.timestamp,
                    count_passed(&entry.test_results),
                    entry.test_results.len(),
                    entry.release_mode,
                ),
            );
            i += 1;
        }
        stats
    }

    /// Goes back to the first tab, and to the first result if the selection
    /// points past the last.
    pub fn reset_ui_state(&mut self)
        requires
            old(self)@.wf(),
        ensures
            final(self)@ == old(self)@.reset_ui_state(),
            final(self)@.wf(),
    {
        if !self.test_results.is_empty() && self.selected_test >= self.test_results.len() {
            self.selected_test = 0;
        }
        self.tab_index = 0;
        self.viewing_history = false;
    }

    /// Closes the popup of the given kind if it is open, and opens it
    /// otherwise.
    pub fn toggle_popup(&mut self, popup_type: PopupType)
        requires
            old(self)@.wf(),
        ensures
            final(self)@ == old(self)@.toggle_popup(popup_type),
            final(self)@.wf(),
    {
        if self.show_popup && self.popup_type == popup_type {
            self.show_popup = false;
            self.popup_type = PopupType::Closed;
        } else {
            self.show_popup = true;
            self.popup_type = popup_type;
        }
    }

    /// Closes the popup.
    pub fn close_popup(&mut self)
        requires
            old(self)@.wf(),
        ensures
            final(self)@ == old(self)@.close_popup(),
            final(self)@.wf(),
    {
        self.show_popup = false;
        self.popup_type = PopupType::Closed;
    }

    /// Puts up a notice at the moment `now`.
    pub fn show_result_popup_at(&mut self, message: String, now: Instant)
        requires
            old(self)@.wf(),
        ensures
            final(self)@ == old(self)@.show_result_popup(message@, now),
            final(self)@.wf(),
    {
        self.result_popup_visible = true;
        self.result_popup_time = Some(now);
        self.result_popup_message = message;
        self.popup_type = PopupType::ResultNotification;
    }

    /// Puts up a notice at the moment that the clock shows.
    pub fn show_result_popup(&mut self, message: String)
        requires
            old(self)@.wf(),
        ensures
            exists|now: Instant| final(self)@ == old(self)@.show_result_popup(message@, now),
            final(self)@.wf(),
    {
        self.show_result_popup_at(message, instant_now());
    }

    /// Takes the notice down if it has been up for `elapsed_secs` whole
    /// seconds and that is long enough. Says whether it did.
    pub fn expire_result_popup(&mut self, elapsed_secs: u64) -> (changed: bool)
        requires
            old(self)@.wf(),
        ensures
            changed == old(self)@.notice_is_due(elapsed_secs),
            final(self)@ == if changed {
                old(self)@.dismiss_result_popup()
            } else {
                old(self)@
            },
            final(self)@.wf(),
    {
        if self.result_popup_time.is_some() && elapsed_secs >= NOTICE_SECONDS {
            self.result_popup_visible = false;
            self.result_popup_time = None;
            true
        } else {
            false
        }
    }

    /// Takes the notice down if, by the clock, it has been up long enough.
    /// Says whether it did.
    pub fn update_result_popup(&mut self) -> (changed: bool)
        requires
            old(self)@.wf(),
        ensures
            final(self)@ == if changed {
                old(self)@.dismiss_result_popup()
            } else {
                old(self)@
            },
            changed ==> old(self)@.result_popup_time is Some,
            final(self)@.wf(),
    {
        match self.result_popup_time {
            Some(since) => {
                let elapsed = elapsed_since(&since);
                self.expire_result_popup(whole_seconds(&elapsed))
            },
            None => false,
        }
    }

    /// Takes the notice down.
    pub fn dismiss_result_popup(&mut self)
        requires
            old(self)@.wf(),
        ensures
            final(self)@ == old(self)@.dismiss_result_popup(),
            final(self)@.wf(),
    {
        self.result_popup_visible = false;
        self.result_popup_time = None;
    }

    /// Takes in the results of a run of the session's suite: puts them on
    /// display, logs them at `timestamp` with the build mode that the run
    /// was made in, and goes back to the first tab.
    pub fn record_run_at(&mut self, results: Vec<TestResult>, timestamp: u64)
        requires
            old(self)@.wf(),
        ensures
            final(self)@ == old(self)@.record_run(results.deep_view(), timestamp),
            final(self)@.wf(),
            final(self)@.history.len() == old(self)@.history.len() + 1,
    {
        self.test_results = results;
        self.release_mode = self.config.suite_release();
        self.add_to_history_at(timestamp);
        self.reset_ui_state();
    }

    /// Takes in the results of a run of the session's suite: puts them on
    /// display, logs them at the time that the system clock shows with the
    /// build mode that the run was made in, and goes back to the first tab.
    pub fn record_run(&mut self, results: Vec<TestResult>)
        requires
            old(self)@.wf(),
        ensures
            exists|timestamp: u64|
                final(self)@ == old(self)@.record_run(results.deep_view(), timestamp),
            final(self)@.wf(),
            final(self)@.history.len() == old(self)@.history.len() + 1,
    {
        self.record_run_at(results, unix_seconds());
    }

    /// Puts the selected entry of the log on display, on the first tab.
    pub fn load_selected_history(&mut self)
        requires
            old(self)@.wf(),
        ensures
            final(self)@ == old(self)@.load_selected_history(),
            final(self)@.wf(),
    {
        self.select_entry(self.selected_history);
        self.tab_index = 0;
    }

    /// The results on display.
    pub fn test_results(&self) -> (results: &Vec<TestResult>)
        ensures
            results.deep_view() == self@.test_results,
    {
        &self.test_results
    }

    /// The suite.
    pub fn config(&self) -> (config: &TestConfig)
        ensures
            config@ == self@.config,
    {
        &self.config
    }

    /// The index of the selected result.
    pub fn selected_test(&self) -> (index: usize)
        ensures
            index == self@.selected_test,
    {
        self.selected_test
    }

    /// The index of the tab that is shown.
    pub fn tab_index(&self) -> (index: usize)
        ensures
            index == self@.tab_index,
    {
        self.tab_index
    }

    /// Whether the help is shown.
    pub fn show_help(&self) -> (shown: bool)
        ensures
            shown == self@.show_help,
    {
        self.show_help
    }

    /// Whether release mode is selected.
    pub fn release_mode(&self) -> (release: bool)
        ensures
            release == self@.release_mode,
    {
        self.release_mode
    }

    /// The log of runs, oldest first.
    pub fn history(&self) -> (history: &Vec<TestHistory>)
        ensures
            history.deep_view() == self@.history,
    {
        &self.history
    }

    /// The index of the selected entry of the log.
    pub fn selected_history(&self) -> (index: usize)
        ensures
            index == self@.selected_history,
    {
        self.selected_history
    }

    /// Whether an entry of the log is being viewed.
    pub fn viewing_history(&self) -> (viewing: bool)
        ensures
            viewing == self@.viewing_history,
    {
        self.viewing_history
    }

    /// Whether a popup is open.
    pub fn show_popup(&self) -> (shown: bool)
        ensures
            shown == self@.show_popup,
    {
        self.show_popup
    }

    /// The kind of the popup.
    pub fn popup_type(&self) -> (kind: PopupType)
        ensures
            kind == self@.popup_type,
    {
        self.popup_type
    }

    /// Whether a notice is up.
    pub fn result_popup_visible(&self) -> (visible: bool)
        ensures
            visible == self@.result_popup_visible,
    {
        self.result_popup_visible
    }

    /// The text of the notice.
    pub fn result_popup_message(&self) -> (message: &str)
        ensures
            message@ == self@.result_popup_message,
    {
        self.result_popup_message.as_str()
    }
}

} // verus!

verus! {

/// The position reached from `index` by `steps` moves forward in a cycle of
/// `len` positions.
pub open spec fn moved_forward(index: int, len: int, steps: nat) -> int
    decreases steps,
{
    if steps == 0 {
        index
    } else {
        next_index(moved_forward(index, len, (steps - 1) as nat), len)
    }
}

/// Moving forward and backward stays within the cycle, each undoes the
/// other, and a move forward by `steps` adds `steps` modulo the cycle's
/// length, so that as many moves as the cycle is long lead back to the
/// start.
pub proof fn lemma_navigation_is_circular(index: int, len: int, steps: nat)
    requires
        0 <= index < len,
    ensures
        0 <= next_index(index, len) < len,
        0 <= previous_index(index, len) < len,
        previous_index(next_index(index, len), len) == index,
        next_index(previous_index(index, len), len) == index,
        previous_index(index, len) == (index + len - 1) % len,
        moved_forward(index, len, steps) == (index + steps) % len,
        moved_forward(index, len, len as nat) == index,
{
    lemma_next_index(index, len);
    if index > 0 {
        lemma_next_index(index - 1, len);
        vstd::arithmetic::div_mod::lemma_mod_add_multiples_vanish(index - 1, len);
        vstd::arithmetic::div_mod::lemma_small_mod((index - 1) as nat, len as nat);
    } else {
        lemma_next_index(len - 1, len);
        vstd::arithmetic::div_mod::lemma_small_mod((len - 1) as nat, len as nat);
    }
    lemma_moved_forward(index, len, steps);
    lemma_moved_forward(index, len, len as nat);
    vstd::arithmetic::div_mod::lemma_mod_add_multiples_vanish(index, len);
    vstd::arithmetic::div_mod::lemma_small_mod(index as nat, len as nat);
}

proof fn lemma_next_index(index: int, len: int)
    requires
        0 <= index < len,
    ensures
        next_index(index, len) == if index + 1 == len {
            0
        } else {
            index + 1
        },
{
    if index + 1 == len {
        vstd::arithmetic::div_mod::lemma_mod_self_0(len);
    } else {
        vstd::arithmetic::div_mod::lemma_small_mod((index + 1) as nat, len as nat);
    }
}

proof fn lemma_moved_forward(index: int, len: int, steps: nat)
    requires
        0 <= index < len,
    ensures
        moved_forward(index, len, steps) == (index + steps) % len,
    decreases steps,
{
    if steps == 0 {
        vstd::arithmetic::div_mod::lemma_small_mod(index as nat, len as nat);
    } else {
        lemma_moved_forward(index, len, (steps - 1) as nat);
        let before = index + steps - 1;
        vstd::arithmetic::div_mod::lemma_add_mod_noop(before, 1, len);
        vstd::arithmetic::div_mod::lemma_mod_twice(before, len);
        vstd::arithmetic::div_mod::lemma_add_mod_noop(before % len, 1, len);
    }
}

impl AppView {
    /// The session after the runs `runs`, taken in one after the other.
    /// Each run is given by its results and the time at which they are
    /// logged.
    pub open spec fn after_runs(self, runs: Seq<(Seq<TestResultView>, u64)>) -> AppView
        decreases runs.len(),
    {
        if runs.len() == 0 {
            self
        } else {
            self.after_runs(runs.drop_last()).record_run(runs.last().0, runs.last().1)
        }
    }
}

/// The entries that the runs `runs` add to the log of a session whose
/// suite is in the build mode `release_mode`: one for each run, in the order
/// of the runs.
pub open spec fn entries_of(
    runs: Seq<(Seq<TestResultView>, u64)>,
    release_mode: bool,
) -> Seq<TestHistoryView> {
    Seq::new(
        runs.len(),
        |i: int|
            TestHistoryView { timestamp: runs[i].1, test_results: runs[i].0, release_mode },
    )
}

/// The entry that a run adds to the log holds the results of the run, the
/// time at which they were logged, and the build mode that the run was made
/// in: that of the suite as the session holds it. The run leaves the suite
/// and the earlier entries as they are, and its results and its build mode
/// are what the session shows afterwards.
pub proof fn lemma_run_is_logged_in_its_mode(
    app: AppView,
    results: Seq<TestResultView>,
    timestamp: u64,
)
    requires
        app.wf(),
    ensures
        app.record_run(results, timestamp).wf(),
        app.record_run(results, timestamp).config == app.config,
        app.record_run(results, timestamp).test_results == results,
        app.record_run(results, timestamp).release_mode == app.config.suite_release(),
        app.record_run(results, timestamp).history == app.history.push(
            TestHistoryView {
                timestamp,
                test_results: results,
                release_mode: app.config.suite_release(),
            },
        ),
{
}

/// Every run adds exactly one entry to the end of the log: after the runs
/// the log holds what it held before, followed by one entry for each run,
/// in the order of the runs, each with the build mode of the suite.
pub proof fn lemma_history_after_runs(app: AppView, runs: Seq<(Seq<TestResultView>, u64)>)
    requires
        app.wf(),
    ensures
        app.after_runs(runs).wf(),
        app.after_runs(runs).config == app.config,
        app.after_runs(runs).history == app.history + entries_of(
            runs,
            app.config.suite_release(),
        ),
        app.after_runs(runs).history.len() == app.history.len() + runs.len(),
    decreases runs.len(),
{
    let release = app.config.suite_release();
    if runs.len() > 0 {
        lemma_history_after_runs(app, runs.drop_last());
        assert(app.after_runs(runs).history =~= app.history + entries_of(runs, release));
    } else {
        assert(app.history =~= app.history + entries_of(runs, release));
    }
}

/// A session that has taken in a number of runs since it began has one
/// entry more in its log than that number, and the first is the one that it
/// began with.
pub proof fn lemma_seeded_history(
    test_results: Seq<TestResultView>,
    config: TestConfigView,
    timestamp: u64,
    runs: Seq<(Seq<TestResultView>, u64)>,
)
    ensures
        AppView::seeded(test_results, config, timestamp).after_runs(runs).history.len()
            == runs.len() + 1,
        AppView::seeded(test_results, config, timestamp).after_runs(runs).history[0] == (
        TestHistoryView { timestamp, test_results, release_mode: false }),
{
    let app = AppView::seeded(test_results, config, timestamp);
    lemma_history_after_runs(app, runs);
    assert((app.history + entries_of(runs, config.suite_release()))[0] == app.history[0]);
}

} // verus!
