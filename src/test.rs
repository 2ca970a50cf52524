//! `test`: execute all unit and integration tests and build examples of a local package.
use vstd::prelude::*;

use crate::common::{lemma_unset_common, CommonOptions};
use crate::emit::{
    lemma_split_at_end, passthrough, push_all, push_passthrough, push_repeated, push_string,
    push_switch, push_token, push_valued, repeated, switch, valued,
};

verus! {

/// Trailing segment of `test`: `--`, then the test name filter when present,
/// then the values passed on; nothing when there is neither.
pub open spec fn test_passthrough(name: Option<Seq<char>>, args: Seq<Seq<char>>) -> Seq<Seq<char>> {
    match name {
        Some(n) => seq!["--"@, n] + args,
        None => passthrough(args),
    }
}

/// Appends the trailing segment of `test`.
pub fn push_test_passthrough(args: &mut Vec<String>, name: &Option<String>, values: &Vec<String>)
    ensures
        final(args).deep_view() == old(args).deep_view() + test_passthrough(
            name.deep_view(),
            values.deep_view(),
        ),
{
    match name {
        Some(n) => {
            push_token(args, "--");
            push_string(args, n);
            push_all(args, values);
        },
        None => push_passthrough(args, values),
    }
    assert(args.deep_view() =~= old(args).deep_view() + test_passthrough(
        name.deep_view(),
        values.deep_view(),
    ));
}

/// Options of `test`: execute all unit and integration tests and build examples of a local package.
#[derive(Clone, Debug)]
pub struct Test {
    /// Options shared by every subcommand
    pub common: CommonOptions,
    /// Path to the manifest
    pub manifest_path: Option<String>,
    /// Build artifacts in release mode, with optimizations
    pub release: bool,
    /// Ignore `rust-version` specification in packages
    pub ignore_rust_version: bool,
    /// Output build graph in JSON
    pub unit_graph: bool,
    /// Packages to select
    pub packages: Vec<String>,
    /// Select all packages in the workspace
    pub workspace: bool,
    /// Exclude packages
    pub exclude: Vec<String>,
    /// Alias for workspace
    pub all: bool,
    /// Select only this package's library
    pub lib: bool,
    /// Select only the named binaries
    pub bin: Vec<String>,
    /// Select all binaries
    pub bins: bool,
    /// Select only the named examples
    pub example: Vec<String>,
    /// Select all examples
    pub examples: bool,
    /// Select only the named test targets
    pub test: Vec<String>,
    /// Select all tests
    pub tests: bool,
    /// Select only the named bench targets
    pub bench: Vec<String>,
    /// Select all benches
    pub benches: bool,
    /// Select all targets
    pub all_targets: bool,
    /// Test only this library's documentation
    pub doc: bool,
    /// Compile, but do not run tests
    pub no_run: bool,
    /// Run all tests regardless of failure
    pub no_fail_fast: bool,
    /// Output a future incompatibility report at the end of the build
    pub future_incompat_report: bool,
    /// Test name filter, passed on after `--`
    pub test_name: Option<String>,
    /// Arguments passed on after `--`
    pub args: Vec<String>,
}

impl Test {
    /// `acc` followed by the tokens of the options proper to `test`, in declaration order.
    pub open spec fn append_flags(&self, acc: Seq<Seq<char>>) -> Seq<Seq<char>> {
        acc
            + valued(self.manifest_path.deep_view(), "--manifest-path"@)
            + switch(self.release, "--release"@)
            + switch(self.ignore_rust_version, "--ignore-rust-version"@)
            + switch(self.unit_graph, "--unit-graph"@)
            + repeated(self.packages.deep_view(), "--package"@)
            + switch(self.workspace, "--workspace"@)
            + repeated(self.exclude.deep_view(), "--exclude"@)
            + switch(self.all, "--all"@)
            + switch(self.lib, "--lib"@)
            + repeated(self.bin.deep_view(), "--bin"@)
            + switch(self.bins, "--bins"@)
            + repeated(self.example.deep_view(), "--example"@)
            + switch(self.examples, "--examples"@)
            + repeated(self.test.deep_view(), "--test"@)
            + switch(self.tests, "--tests"@)
            + repeated(self.bench.deep_view(), "--bench"@)
            + switch(self.benches, "--benches"@)
            + switch(self.all_targets, "--all-targets"@)
            + switch(self.doc, "--doc"@)
            + switch(self.no_run, "--no-run"@)
            + switch(self.no_fail_fast, "--no-fail-fast"@)
            + switch(self.future_incompat_report, "--future-incompat-report"@)
    }

    /// The invocation run by `program`, up to its trailing segment.
    pub open spec fn head_tokens(&self, program: Seq<char>) -> Seq<Seq<char>> {
        self.append_flags(self.common.append_flags(seq![program, "test"@]))
    }

    /// The whole invocation run by `program`.
    pub open spec fn tokens(&self, program: Seq<char>) -> Seq<Seq<char>> {
        self.head_tokens(program) + test_passthrough(
            self.test_name.deep_view(),
            self.args.deep_view(),
        )
    }

    /// Every option left unset.
    pub open spec fn is_unset(&self) -> bool {
        &&& self.common.is_unset()
        &&& self.manifest_path is None
        &&& !self.release
        &&& !self.ignore_rust_version
        &&& !self.unit_graph
        &&& self.packages@.len() == 0
        &&& !self.workspace
        &&& self.exclude@.len() == 0
        &&& !self.all
        &&& !self.lib
        &&& self.bin@.len() == 0
        &&& !self.bins
        &&& self.example@.len() == 0
        &&& !self.examples
        &&& self.test@.len() == 0
        &&& !self.tests
        &&& self.bench@.len() == 0
        &&& !self.benches
        &&& !self.all_targets
        &&& !self.doc
        &&& !self.no_run
        &&& !self.no_fail_fast
        &&& !self.future_incompat_report
        &&& self.test_name is None
        &&& self.args@.len() == 0
    }

    /// The tokens of a `test` invocation run by `program`.
    pub fn command(&self, program: &str) -> (r: Vec<String>)
        ensures
            r.deep_view() == self.tokens(program@),
    {
        let mut args: Vec<String> = Vec::new();
        push_token(&mut args, program);
        push_token(&mut args, "test");
        assert(args.deep_view() =~= seq![program@, "test"@]);
        self.common.apply(&mut args);
        push_valued(&mut args, &self.manifest_path, "--manifest-path");
        push_switch(&mut args, self.release, "--release");
        push_switch(&mut args, self.ignore_rust_version, "--ignore-rust-version");
        push_switch(&mut args, self.unit_graph, "--unit-graph");
        push_repeated(&mut args, &self.packages, "--package");
        push_switch(&mut args, self.workspace, "--workspace");
        push_repeated(&mut args, &self.exclude, "--exclude");
        push_switch(&mut args, self.all, "--all");
        push_switch(&mut args, self.lib, "--lib");
        push_repeated(&mut args, &self.bin, "--bin");
        push_switch(&mut args, self.bins, "--bins");
        push_repeated(&mut args, &self.example, "--example");
        push_switch(&mut args, self.examples, "--examples");
        push_repeated(&mut args, &self.test, "--test");
        push_switch(&mut args, self.tests, "--tests");
        push_repeated(&mut args, &self.bench, "--bench");
        push_switch(&mut args, self.benches, "--benches");
        push_switch(&mut args, self.all_targets, "--all-targets");
        push_switch(&mut args, self.doc, "--doc");
        push_switch(&mut args, self.no_run, "--no-run");
        push_switch(&mut args, self.no_fail_fast, "--no-fail-fast");
        push_switch(&mut args, self.future_incompat_report, "--future-incompat-report");
        push_test_passthrough(&mut args, &self.test_name, &self.args);
        args
    }
}

impl Default for Test {
    fn default() -> (r: Test)
        ensures
            r.is_unset(),
    {
        Test {
            common: CommonOptions::default(),
            manifest_path: None,
            release: false,
            ignore_rust_version: false,
            unit_graph: false,
            packages: Vec::new(),
            workspace: false,
            exclude: Vec::new(),
            all: false,
            lib: false,
            bin: Vec::new(),
            bins: false,
            example: Vec::new(),
            examples: false,
            test: Vec::new(),
            tests: false,
            bench: Vec::new(),
            benches: false,
            all_targets: false,
            doc: false,
            no_run: false,
            no_fail_fast: false,
            future_incompat_report: false,
            test_name: None,
            args: Vec::new(),
        }
    }
}

impl std::ops::Deref for Test {
    type Target = CommonOptions;

    fn deref(&self) -> &CommonOptions {
        &self.common
    }
}

impl std::ops::DerefMut for Test {
    fn deref_mut(&mut self) -> &mut CommonOptions {
        &mut self.common
    }
}

/// A `test` record left unset renders as the program and the subcommand alone.
pub proof fn lemma_unset_test(x: Test, program: Seq<char>)
    requires
        x.is_unset(),
    ensures
        x.tokens(program) == seq![program, "test"@],
{
    lemma_unset_common(x.common, seq![program, "test"@]);
    assert(x.packages.deep_view() =~= seq![]);
    assert(x.exclude.deep_view() =~= seq![]);
    assert(x.bin.deep_view() =~= seq![]);
    assert(x.example.deep_view() =~= seq![]);
    assert(x.test.deep_view() =~= seq![]);
    assert(x.bench.deep_view() =~= seq![]);
    assert(x.args.deep_view() =~= seq![]);
    assert(test_passthrough(x.test_name.deep_view(), x.args.deep_view()) =~= seq![]);
    assert(x.tokens(program) =~= seq![program, "test"@]);
}

/// The values passed on close a `test` invocation: when there are any, the
/// last tokens are one `--` and then the values in order; when there are
/// none and no test name, nothing follows the flags, not even `--`. A test
/// name stands right after the `--`.
pub proof fn lemma_test_trailing(x: Test, program: Seq<char>)
    ensures
        x.tokens(program).take(x.head_tokens(program).len() as int) == x.head_tokens(program),
        x.test_name is Some ==> x.tokens(program).skip(x.head_tokens(program).len() as int)
            == seq!["--"@, x.test_name->0@] + x.args.deep_view(),
        x.test_name is None && x.args@.len() > 0 ==> x.tokens(program).skip(
            x.head_tokens(program).len() as int,
        ) == seq!["--"@] + x.args.deep_view(),
        x.test_name is None && x.args@.len() == 0 ==> x.tokens(program) == x.head_tokens(
            program,
        ),
{
    lemma_split_at_end(
        x.head_tokens(program),
        test_passthrough(x.test_name.deep_view(), x.args.deep_view()),
    );
    if x.test_name is None && x.args@.len() == 0 {
        assert(x.tokens(program) =~= x.head_tokens(program));
    }
}

} // verus!
