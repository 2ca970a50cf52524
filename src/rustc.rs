//! `rustc`: compile a package, passing extra options to the compiler.
use vstd::prelude::*;

use crate::common::{lemma_unset_common, CommonOptions};
use crate::emit::{
    joined_flag, lemma_passthrough_last, passthrough, push_joined, push_passthrough, push_repeated,
    push_switch, push_token, push_valued, repeated, switch, valued,
};

verus! {

/// Options of `rustc`: compile a package, passing extra options to the compiler.
#[derive(Clone, Debug)]
pub struct Rustc {
    /// Options shared by every subcommand
    pub common: CommonOptions,
    /// Path to the manifest
    pub manifest_path: Option<String>,
    /// Build artifacts in release mode, with optimizations
    pub release: bool,
    /// Ignore `rust-version` specification in packages
    pub ignore_rust_version: bool,
    /// Output build graph in JSON
    pub unit_graph: bool,
    /// Packages to select
    pub packages: Vec<String>,
    /// Select only this package's library
    pub lib: bool,
    /// Select only the named binaries
    pub bin: Vec<String>,
    /// Select all binaries
    pub bins: bool,
    /// Select only the named examples
    pub example: Vec<String>,
    /// Select all examples
    pub examples: bool,
    /// Select only the named test targets
    pub test: Vec<String>,
    /// Select all tests
    pub tests: bool,
    /// Select only the named bench targets
    pub bench: Vec<String>,
    /// Select all benches
    pub benches: bool,
    /// Select all targets
    pub all_targets: bool,
    /// Output compiler information without compiling
    pub print: Option<String>,
    /// Crate types to build, passed on as one comma-separated value
    pub crate_type: Vec<String>,
    /// Output a future incompatibility report at the end of the build
    pub future_incompat_report: bool,
    /// Arguments passed on after `--`
    pub args: Vec<String>,
}

impl Rustc {
    /// `acc` followed by the tokens of the options proper to `rustc`, in declaration order.
    pub open spec fn append_flags(&self, acc: Seq<Seq<char>>) -> Seq<Seq<char>> {
        acc
            + valued(self.manifest_path.deep_view(), "--manifest-path"@)
            + switch(self.release, "--release"@)
            + switch(self.ignore_rust_version, "--ignore-rust-version"@)
            + switch(self.unit_graph, "--unit-graph"@)
            + repeated(self.packages.deep_view(), "--package"@)
            + switch(self.lib, "--lib"@)
            + repeated(self.bin.deep_view(), "--bin"@)
            + switch(self.bins, "--bins"@)
            + repeated(self.example.deep_view(), "--example"@)
            + switch(self.examples, "--examples"@)
            + repeated(self.test.deep_view(), "--test"@)
            + switch(self.tests, "--tests"@)
            + repeated(self.bench.deep_view(), "--bench"@)
            + switch(self.benches, "--benches"@)
            + switch(self.all_targets, "--all-targets"@)
            + valued(self.print.deep_view(), "--print"@)
            + joined_flag(self.crate_type.deep_view(), "--crate-type"@)
            + switch(self.future_incompat_report, "--future-incompat-report"@)
    }

    /// The invocation run by `program`, up to its trailing segment.
    pub open spec fn head_tokens(&self, program: Seq<char>) -> Seq<Seq<char>> {
        self.append_flags(self.common.append_flags(seq![program, "rustc"@]))
    }

    /// The whole invocation run by `program`.
    pub open spec fn tokens(&self, program: Seq<char>) -> Seq<Seq<char>> {
        self.head_tokens(program) + passthrough(self.args.deep_view())
    }

    /// Every option left unset.
    pub open spec fn is_unset(&self) -> bool {
        &&& self.common.is_unset()
        &&& self.manifest_path is None
        &&& !self.release
        &&& !self.ignore_rust_version
        &&& !self.unit_graph
        &&& self.packages@.len() == 0
        &&& !self.lib
        &&& self.bin@.len() == 0
        &&& !self.bins
        &&& self.example@.len() == 0
        &&& !self.examples
        &&& self.test@.len() == 0
        &&& !self.tests
        &&& self.bench@.len() == 0
        &&& !self.benches
        &&& !self.all_targets
        &&& self.print is None
        &&& self.crate_type@.len() == 0
        &&& !self.future_incompat_report
        &&& self.args@.len() == 0
    }

    /// The tokens of a `rustc` invocation run by `program`.
    pub fn command(&self, program: &str) -> (r: Vec<String>)
        ensures
            r.deep_view() == self.tokens(program@),
    {
        let mut args: Vec<String> = Vec::new();
        push_token(&mut args, program);
        push_token(&mut args, "rustc");
        assert(args.deep_view() =~= seq![program@, "rustc"@]);
        self.common.apply(&mut args);
        push_valued(&mut args, &self.manifest_path, "--manifest-path");
        push_switch(&mut args, self.release, "--release");
        push_switch(&mut args, self.ignore_rust_version, "--ignore-rust-version");
        push_switch(&mut args, self.unit_graph, "--unit-graph");
        push_repeated(&mut args, &self.packages, "--package");
        push_switch(&mut args, self.lib, "--lib");
        push_repeated(&mut args, &self.bin, "--bin");
        push_switch(&mut args, self.bins, "--bins");
        push_repeated(&mut args, &self.example, "--example");
        push_switch(&mut args, self.examples, "--examples");
        push_repeated(&mut args, &self.test, "--test");
        push_switch(&mut args, self.tests, "--tests");
        push_repeated(&mut args, &self.bench, "--bench");
        push_switch(&mut args, self.benches, "--benches");
        push_switch(&mut args, self.all_targets, "--all-targets");
        push_valued(&mut args, &self.print, "--print");
        push_joined(&mut args, &self.crate_type, "--crate-type");
        push_switch(&mut args, self.future_incompat_report, "--future-incompat-report");
        push_passthrough(&mut args, &self.args);
        args
    }
}

impl Default for Rustc {
    fn default() -> (r: Rustc)
        ensures
            r.is_unset(),
    {
        Rustc {
            common: CommonOptions::default(),
            manifest_path: None,
            release: false,
            ignore_rust_version: false,
            unit_graph: false,
            packages: Vec::new(),
            lib: false,
            bin: Vec::new(),
            bins: false,
            example: Vec::new(),
            examples: false,
            test: Vec::new(),
            tests: false,
            bench: Vec::new(),
            benches: false,
            all_targets: false,
            print: None,
            crate_type: Vec::new(),
            future_incompat_report: false,
            args: Vec::new(),
        }
    }
}

impl std::ops::Deref for Rustc {
    type Target = CommonOptions;

    fn deref(&self) -> &CommonOptions {
        &self.common
    }
}

impl std::ops::DerefMut for Rustc {
    fn deref_mut(&mut self) -> &mut CommonOptions {
        &mut self.common
    }
}

/// A `rustc` record left unset renders as the program and the subcommand alone.
pub proof fn lemma_unset_rustc(x: Rustc, program: Seq<char>)
    requires
        x.is_unset(),
    ensures
        x.tokens(program) == seq![program, "rustc"@],
{
    lemma_unset_common(x.common, seq![program, "rustc"@]);
    assert(x.packages.deep_view() =~= seq![]);
    assert(x.bin.deep_view() =~= seq![]);
    assert(x.example.deep_view() =~= seq![]);
    assert(x.test.deep_view() =~= seq![]);
    assert(x.bench.deep_view() =~= seq![]);
    assert(x.crate_type.deep_view() =~= seq![]);
    assert(x.args.deep_view() =~= seq![]);
    assert(x.tokens(program) =~= seq![program, "rustc"@]);
}

/// The values passed on close a `rustc` invocation: when there are any, the
/// last tokens are one `--` and then the values in order; when there are
/// none, nothing follows the flags, not even `--`.
pub proof fn lemma_rustc_trailing(x: Rustc, program: Seq<char>)
    ensures
        x.tokens(program).take(x.head_tokens(program).len() as int) == x.head_tokens(program),
        x.args@.len() > 0 ==> x.tokens(program).skip(x.head_tokens(program).len() as int)
            == seq!["--"@] + x.args.deep_view(),
        x.args@.len() == 0 ==> x.tokens(program) == x.head_tokens(program),
{
    lemma_passthrough_last(x.head_tokens(program), x.args.deep_view());
}

} // verus!
