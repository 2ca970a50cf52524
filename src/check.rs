//! `check`: check a local package and all of its dependencies for errors.
use vstd::prelude::*;

use crate::common::{lemma_unset_common, CommonOptions};
use crate::emit::{push_repeated, push_switch, push_token, push_valued, repeated, switch, valued};

verus! {

/// Package and target selection shared by `check` and `clippy`.
#[derive(Clone, Debug)]
pub struct CheckOptions {
    /// Packages to select
    pub packages: Vec<String>,
    /// Select all packages in the workspace
    pub workspace: bool,
    /// Exclude packages
    pub exclude: Vec<String>,
    /// Alias for workspace
    pub all: bool,
    /// Select only this package's library
    pub lib: bool,
    /// Select only the named binaries
    pub bin: Vec<String>,
    /// Select all binaries
    pub bins: bool,
    /// Select only the named examples
    pub example: Vec<String>,
    /// Select all examples
    pub examples: bool,
    /// Select only the named test targets
    pub test: Vec<String>,
    /// Select all tests
    pub tests: bool,
    /// Select only the named bench targets
    pub bench: Vec<String>,
    /// Select all benches
    pub benches: bool,
    /// Select all targets
    pub all_targets: bool,
    /// Output a future incompatibility report at the end of the build
    pub future_incompat_report: bool,
}

impl CheckOptions {
    /// `acc` followed by the tokens of these options, in declaration order.
    pub open spec fn append_flags(&self, acc: Seq<Seq<char>>) -> Seq<Seq<char>> {
        acc
            + repeated(self.packages.deep_view(), "--package"@)
            + switch(self.workspace, "--workspace"@)
            + repeated(self.exclude.deep_view(), "--exclude"@)
            + switch(self.all, "--all"@)
            + switch(self.lib, "--lib"@)
            + repeated(self.bin.deep_view(), "--bin"@)
            + switch(self.bins, "--bins"@)
            + repeated(self.example.deep_view(), "--example"@)
            + switch(self.examples, "--examples"@)
            + repeated(self.test.deep_view(), "--test"@)
            + switch(self.tests, "--tests"@)
            + repeated(self.bench.deep_view(), "--bench"@)
            + switch(self.benches, "--benches"@)
            + switch(self.all_targets, "--all-targets"@)
            + switch(self.future_incompat_report, "--future-incompat-report"@)
    }

    /// Every option left unset.
    pub open spec fn is_unset(&self) -> bool {
        &&& self.packages@.len() == 0
        &&& !self.workspace
        &&& self.exclude@.len() == 0
        &&& !self.all
        &&& !self.lib
        &&& self.bin@.len() == 0
        &&& !self.bins
        &&& self.example@.len() == 0
        &&& !self.examples
        &&& self.test@.len() == 0
        &&& !self.tests
        &&& self.bench@.len() == 0
        &&& !self.benches
        &&& !self.all_targets
        &&& !self.future_incompat_report
    }

    /// Appends the tokens of these options to `args`.
    pub fn apply(&self, args: &mut Vec<String>)
        ensures
            final(args).deep_view() == self.append_flags(old(args).deep_view()),
    {
        push_repeated(args, &self.packages, "--package");
        push_switch(args, self.workspace, "--workspace");
        push_repeated(args, &self.exclude, "--exclude");
        push_switch(args, self.all, "--all");
        push_switch(args, self.lib, "--lib");
        push_repeated(args, &self.bin, "--bin");
        push_switch(args, self.bins, "--bins");
        push_repeated(args, &self.example, "--example");
        push_switch(args, self.examples, "--examples");
        push_repeated(args, &self.test, "--test");
        push_switch(args, self.tests, "--tests");
        push_repeated(args, &self.bench, "--bench");
        push_switch(args, self.benches, "--benches");
        push_switch(args, self.all_targets, "--all-targets");
        push_switch(args, self.future_incompat_report, "--future-incompat-report");
    }
}

impl Default for CheckOptions {
    fn default() -> (r: CheckOptions)
        ensures
            r.is_unset(),
    {
        CheckOptions {
            packages: Vec::new(),
            workspace: false,
            exclude: Vec::new(),
            all: false,
            lib: false,
            bin: Vec::new(),
            bins: false,
            example: Vec::new(),
            examples: false,
            test: Vec::new(),
            tests: false,
            bench: Vec::new(),
            benches: false,
            all_targets: false,
            future_incompat_report: false,
        }
    }
}

/// Options left unset add no token.
pub proof fn lemma_unset_check_options(x: CheckOptions, acc: Seq<Seq<char>>)
    requires
        x.is_unset(),
    ensures
        x.append_flags(acc) == acc,
{
    assert(x.packages.deep_view() =~= seq![]);
    assert(x.exclude.deep_view() =~= seq![]);
    assert(x.bin.deep_view() =~= seq![]);
    assert(x.example.deep_view() =~= seq![]);
    assert(x.test.deep_view() =~= seq![]);
    assert(x.bench.deep_view() =~= seq![]);
    assert(x.append_flags(acc) =~= acc);
}

/// Options of `check`: check a local package and all of its dependencies for errors.
#[derive(Clone, Debug)]
pub struct Check {
    /// Options shared by every subcommand
    pub common: CommonOptions,
    /// Package and target selection
    pub check: CheckOptions,
    /// Path to the manifest
    pub manifest_path: Option<String>,
    /// Build artifacts in release mode, with optimizations
    pub release: bool,
    /// Ignore `rust-version` specification in packages
    pub ignore_rust_version: bool,
    /// Output build graph in JSON
    pub unit_graph: bool,
}

impl Check {
    /// `acc` followed by the tokens of the options proper to `check`, in declaration order.
    pub open spec fn append_flags(&self, acc: Seq<Seq<char>>) -> Seq<Seq<char>> {
        acc
            + valued(self.manifest_path.deep_view(), "--manifest-path"@)
            + switch(self.release, "--release"@)
            + switch(self.ignore_rust_version, "--ignore-rust-version"@)
            + switch(self.unit_graph, "--unit-graph"@)
    }

    /// The whole invocation run by `program`.
    pub open spec fn tokens(&self, program: Seq<char>) -> Seq<Seq<char>> {
        let base = self.common.append_flags(seq![program, "check"@]);
        self.append_flags(self.check.append_flags(base))
    }

    /// Every option left unset.
    pub open spec fn is_unset(&self) -> bool {
        &&& self.common.is_unset()
        &&& self.check.is_unset()
        &&& self.manifest_path is None
        &&& !self.release
        &&& !self.ignore_rust_version
        &&& !self.unit_graph
    }

    /// The tokens of a `check` invocation run by `program`.
    pub fn command(&self, program: &str) -> (r: Vec<String>)
        ensures
            r.deep_view() == self.tokens(program@),
    {
        let mut args: Vec<String> = Vec::new();
        push_token(&mut args, program);
        push_token(&mut args, "check");
        assert(args.deep_view() =~= seq![program@, "check"@]);
        self.common.apply(&mut args);
        self.check.apply(&mut args);
        push_valued(&mut args, &self.manifest_path, "--manifest-path");
        push_switch(&mut args, self.release, "--release");
        push_switch(&mut args, self.ignore_rust_version, "--ignore-rust-version");
        push_switch(&mut args, self.unit_graph, "--unit-graph");
        args
    }
}

impl Default for Check {
    fn default() -> (r: Check)
        ensures
            r.is_unset(),
    {
        Check {
            common: CommonOptions::default(),
            check: CheckOptions::default(),
            manifest_path: None,
            release: false,
            ignore_rust_version: false,
            unit_graph: false,
        }
    }
}

impl std::ops::Deref for Check {
    type Target = CommonOptions;

    fn deref(&self) -> &CommonOptions {
        &self.common
    }
}

impl std::ops::DerefMut for Check {
    fn deref_mut(&mut self) -> &mut CommonOptions {
        &mut self.common
    }
}

/// A `check` record left unset renders as the program and the subcommand alone.
pub proof fn lemma_unset_check(x: Check, program: Seq<char>)
    requires
        x.is_unset(),
    ensures
        x.tokens(program) == seq![program, "check"@],
{
    lemma_unset_common(x.common, seq![program, "check"@]);
    lemma_unset_check_options(x.check, x.common.append_flags(seq![program, "check"@]));
    assert(x.tokens(program) =~= seq![program, "check"@]);
}

} // verus!
