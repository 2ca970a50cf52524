//! `run`: run a binary or example of the local package.
use vstd::prelude::*;

use crate::common::{lemma_unset_common, CommonOptions};
use crate::emit::{
    lemma_passthrough_last, passthrough, push_passthrough, push_repeated, push_switch, push_token,
    push_valued, repeated, switch, valued,
};

verus! {

/// Options of `run`: run a binary or example of the local package.
#[derive(Clone, Debug)]
pub struct Run {
    /// Options shared by every subcommand
    pub common: CommonOptions,
    /// Path to the manifest
    pub manifest_path: Option<String>,
    /// Build artifacts in release mode, with optimizations
    pub release: bool,
    /// Ignore `rust-version` specification in packages
    pub ignore_rust_version: bool,
    /// Output build graph in JSON
    pub unit_graph: bool,
    /// Packages to select
    pub packages: Vec<String>,
    /// Select only the named binaries
    pub bin: Vec<String>,
    /// Select only the named examples
    pub example: Vec<String>,
    /// Arguments passed on after `--`
    pub args: Vec<String>,
}

impl Run {
    /// `acc` followed by the tokens of the options proper to `run`, in declaration order.
    pub open spec fn append_flags(&self, acc: Seq<Seq<char>>) -> Seq<Seq<char>> {
        acc
            + valued(self.manifest_path.deep_view(), "--manifest-path"@)
            + switch(self.release, "--release"@)
            + switch(self.ignore_rust_version, "--ignore-rust-version"@)
            + switch(self.unit_graph, "--unit-graph"@)
            + repeated(self.packages.deep_view(), "--package"@)
            + repeated(self.bin.deep_view(), "--bin"@)
            + repeated(self.example.deep_view(), "--example"@)
    }

    /// The invocation run by `program`, up to its trailing segment.
    pub open spec fn head_tokens(&self, program: Seq<char>) -> Seq<Seq<char>> {
        self.append_flags(self.common.append_flags(seq![program, "run"@]))
    }

    /// The whole invocation run by `program`.
    pub open spec fn tokens(&self, program: Seq<char>) -> Seq<Seq<char>> {
        self.head_tokens(program) + passthrough(self.args.deep_view())
    }

    /// Every option left unset.
    pub open spec fn is_unset(&self) -> bool {
        &&& self.common.is_unset()
        &&& self.manifest_path is None
        &&& !self.release
        &&& !self.ignore_rust_version
        &&& !self.unit_graph
        &&& self.packages@.len() == 0
        &&& self.bin@.len() == 0
        &&& self.example@.len() == 0
        &&& self.args@.len() == 0
    }

    /// The tokens of a `run` invocation run by `program`.
    pub fn command(&self, program: &str) -> (r: Vec<String>)
        ensures
            r.deep_view() == self.tokens(program@),
    {
        let mut args: Vec<String> = Vec::new();
        push_token(&mut args, program);
        push_token(&mut args, "run");
        assert(args.deep_view() =~= seq![program@, "run"@]);
        self.common.apply(&mut args);
        push_valued(&mut args, &self.manifest_path, "--manifest-path");
        push_switch(&mut args, self.release, "--release");
        push_switch(&mut args, self.ignore_rust_version, "--ignore-rust-version");
        push_switch(&mut args, self.unit_graph, "--unit-graph");
        push_repeated(&mut args, &self.packages, "--package");
        push_repeated(&mut args, &self.bin, "--bin");
        push_repeated(&mut args, &self.example, "--example");
        push_passthrough(&mut args, &self.args);
        args
    }
}

impl Default for Run {
    fn default() -> (r: Run)
        ensures
            r.is_unset(),
    {
        Run {
            common: CommonOptions::default(),
            manifest_path: None,
            release: false,
            ignore_rust_version: false,
            unit_graph: false,
            packages: Vec::new(),
            bin: Vec::new(),
            example: Vec::new(),
            args: Vec::new(),
        }
    }
}

impl std::ops::Deref for Run {
    type Target = CommonOptions;

    fn deref(&self) -> &CommonOptions {
        &self.common
    }
}

impl std::ops::DerefMut for Run {
    fn deref_mut(&mut self) -> &mut CommonOptions {
        &mut self.common
    }
}

/// A `run` record left unset renders as the program and the subcommand alone.
pub proof fn lemma_unset_run(x: Run, program: Seq<char>)
    requires
        x.is_unset(),
    ensures
        x.tokens(program) == seq![program, "run"@],
{
    lemma_unset_common(x.common, seq![program, "run"@]);
    assert(x.packages.deep_view() =~= seq![]);
    assert(x.bin.deep_view() =~= seq![]);
    assert(x.example.deep_view() =~= seq![]);
    assert(x.args.deep_view() =~= seq![]);
    assert(x.tokens(program) =~= seq![program, "run"@]);
}

/// The values passed on close a `run` invocation: when there are any, the
/// last tokens are one `--` and then the values in order; when there are
/// none, nothing follows the flags, not even `--`.
pub proof fn lemma_run_trailing(x: Run, program: Seq<char>)
    ensures
        x.tokens(program).take(x.head_tokens(program).len() as int) == x.head_tokens(program),
        x.args@.len() > 0 ==> x.tokens(program).skip(x.head_tokens(program).len() as int)
            == seq!["--"@] + x.args.deep_view(),
        x.args@.len() == 0 ==> x.tokens(program) == x.head_tokens(program),
{
    lemma_passthrough_last(x.head_tokens(program), x.args.deep_view());
}

} // verus!
