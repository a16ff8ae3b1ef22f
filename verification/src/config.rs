//! The declarative description of a test suite.

use vstd::prelude::*;

verus! {

/// The timeout, in seconds, of a test case that names none.
pub const DEFAULT_TIMEOUT_SECS: u64 = 30;

/// How artifacts are built before tests run.
#[derive(Debug)]
pub struct BuildConfig {
    /// Whether commands are resolved for release mode.
    pub release: bool,
    /// Shell command templates to run, in order, before the tests that this
    /// configuration applies to.
    pub pre_build_commands: Option<Vec<String>>,
}

/// The mathematical content of a [`BuildConfig`].
pub struct BuildConfigView {
    pub release: bool,
    pub pre_build_commands: Option<Seq<Seq<char>>>,
}

impl View for BuildConfig {
    type V = BuildConfigView;

    open spec fn view(&self) -> BuildConfigView {
        BuildConfigView {
            release: self.release,
            pre_build_commands: self.pre_build_commands.deep_view(),
        }
    }
}

impl DeepView for BuildConfig {
    type V = BuildConfigView;

    open spec fn deep_view(&self) -> BuildConfigView {
        self@
    }
}

/// One command under test, with its input and the output expected of it.
#[derive(Debug)]
pub struct TestCase {
    /// The name under which results are reported. Names need not be unique.
    pub name: String,
    /// Template of the executable's name or path.
    pub command: String,
    /// Argument templates, in order.
    pub args: Option<Vec<String>>,
    /// Text to feed to the command's standard input.
    pub input: Option<String>,
    /// The standard output expected of the command.
    pub expected_output: String,
    /// Seconds to wait for the command before it is given up.
    pub timeout_secs: Option<u64>,
    /// A build configuration that replaces the suite's for this case.
    pub build: Option<BuildConfig>,
}

/// The mathematical content of a [`TestCase`].
pub struct TestCaseView {
    pub name: Seq<char>,
    pub command: Seq<char>,
    pub args: Option<Seq<Seq<char>>>,
    pub input: Option<Seq<char>>,
    pub expected_output: Seq<char>,
    pub timeout_secs: Option<u64>,
    pub build: Option<BuildConfigView>,
}

impl TestCaseView {
    /// The seconds to wait for the command: those named, else the default.
    pub open spec fn timeout(self) -> u64 {
        match self.timeout_secs {
            Some(secs) => secs,
            None => DEFAULT_TIMEOUT_SECS,
        }
    }
}

impl View for TestCase {
    type V = TestCaseView;

    open spec fn view(&self) -> TestCaseView {
        TestCaseView {
            name: self.name@,
            command: self.command@,
            args: self.args.deep_view(),
            input: self.input.deep_view(),
            expected_output: self.expected_output@,
            timeout_secs: self.timeout_secs,
            build: self.build.deep_view(),
        }
    }
}

impl DeepView for TestCase {
    type V = TestCaseView;

    open spec fn deep_view(&self) -> TestCaseView {
        self@
    }
}

/// A test suite: its cases in execution order, and the build configuration
/// that applies where a case has none of its own.
#[derive(Debug)]
pub struct TestConfig {
    pub tests: Vec<TestCase>,
    pub build: Option<BuildConfig>,
}

/// The mathematical content of a [`TestConfig`].
pub struct TestConfigView {
    pub tests: Seq<TestCaseView>,
    pub build: Option<BuildConfigView>,
}

impl TestConfigView {
    /// The build mode of the suite: that of its build configuration, and
    /// debug where it has none. It is the mode in which a run of the suite
    /// is made, but for the cases that bring a build configuration of their
    /// own.
    pub open spec fn suite_release(self) -> bool {
        match self.build {
            Some(global) => global.release,
            None => false,
        }
    }

    /// The build mode that applies to the case at `index`: that of its own
    /// build configuration, else that of the suite.
    pub open spec fn release_for(self, index: int) -> bool {
        match self.tests[index].build {
            Some(own) => own.release,
            None => self.suite_release(),
        }
    }
}

impl View for TestConfig {
    type V = TestConfigView;

    open spec fn view(&self) -> TestConfigView {
        TestConfigView { tests: self.tests.deep_view(), build: self.build.deep_view() }
    }
}

impl DeepView for TestConfig {
    type V = TestConfigView;

    open spec fn deep_view(&self) -> TestConfigView {
        self@
    }
}

/// A copy of a list of strings.
pub fn clone_strings(v: &Vec<String>) -> (out: Vec<String>)
    ensures
        out.deep_view() == v.deep_view(),
{
    let out = v.clone();
    assert(out.deep_view() =~= v.deep_view());
    out
}

/// A copy of an optional string.
pub fn clone_optional_string(s: &Option<String>) -> (out: Option<String>)
    ensures
        out.deep_view() == s.deep_view(),
{
    match s {
        Some(text) => Some(text.clone()),
        None => None,
    }
}

impl Clone for BuildConfig {
    fn clone(&self) -> (out: Self)
        ensures
            out@ == self@,
    {
        let pre_build_commands = match &self.pre_build_commands {
            Some(commands) => Some(clone_strings(commands)),
            None => None,
        };
        BuildConfig { release: self.release, pre_build_commands }
    }
}

impl Clone for TestCase {
    fn clone(&self) -> (out: Self)
        ensures
            out@ == self@,
    {
        let args = match &self.args {
            Some(args) => Some(clone_strings(args)),
            None => None,
        };
        let build = match &self.build {
            Some(build) => Some(build.clone()),
            None => None,
        };
        TestCase {
            name: self.name.clone(),
            command: self.command.clone(),
            args,
            input: clone_optional_string(&self.input),
            expected_output: self.expected_output.clone(),
            timeout_secs: self.timeout_secs,
            build,
        }
    }
}

impl Clone for TestConfig {
    fn clone(&self) -> (out: Self)
        ensures
            out@ == self@,
    {
        let mut tests: Vec<TestCase> = Vec::new();
        let mut i: usize = 0;
        while i < self.tests.len()
            invariant
                i <= self.tests.len(),
                tests.len() == i,
                tests.deep_view() == self.tests.deep_view().subrange(0, i as int),
            decreases self.tests.len() - i,
        {
            tests.push(self.tests[i].clone());
            assert(tests.deep_view() =~= self.tests.deep_view().subrange(0, i + 1));
            i += 1;
        }
        assert(self.tests.deep_view().subrange(0, i as int) =~= self.tests.deep_view());
        let build = match &self.build {
            Some(build) => Some(build.clone()),
            None => None,
        };
        TestConfig { tests, build }
    }
}

impl TestCase {
    /// The seconds to wait for the command: those named, else the default.
    pub fn timeout(&self) -> (secs: u64)
        ensures
            secs == self@.timeout(),
    {
        match self.timeout_secs {
            Some(secs) => secs,
            None => DEFAULT_TIMEOUT_SECS,
        }
    }
}

impl TestConfig {
    /// The build mode of the suite: that of its build configuration, and
    /// debug where it has none.
    pub fn suite_release(&self) -> (is_release: bool)
        ensures
            is_release == self@.suite_release(),
    {
        match &self.build {
            Some(global) => global.release,
            None => false,
        }
    }

    /// The build mode that applies to the case at `index`.
    pub fn release_for(&self, index: usize) -> (is_release: bool)
        requires
            index < self.tests.len(),
        ensures
            is_release == self@.release_for(index as int),
    {
        match &self.tests[index].build {
            Some(own) => own.release,
            None => self.suite_release(),
        }
    }
}

} // verus!
