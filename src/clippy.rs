//! `clippy`: check a package to catch common mistakes and improve the code.
use vstd::prelude::*;

use crate::check::{lemma_unset_check_options, CheckOptions};
use crate::common::{lemma_unset_common, CommonOptions};
use crate::emit::{
    lemma_passthrough_last, passthrough, push_passthrough, push_switch, push_token, push_valued,
    switch, valued,
};

verus! {

/// Options of `clippy`: check a package to catch common mistakes.
#[derive(Clone, Debug)]
pub struct Clippy {
    /// Options shared by every subcommand
    pub common: CommonOptions,
    /// Package and target selection
    pub check: CheckOptions,
    /// Path to the manifest
    pub manifest_path: Option<String>,
    /// Build artifacts in release mode, with optimizations
    pub release: bool,
    /// Ignore `rust-version` specification in packages
    pub ignore_rust_version: bool,
    /// Output build graph in JSON
    pub unit_graph: bool,
    /// Do not process dependencies
    pub no_deps: bool,
    /// Automatically apply lint suggestions
    pub fix: bool,
    /// Fix code even if the working directory is dirty
    pub allow_dirty: bool,
    /// Fix code even if the working directory has staged changes
    pub allow_staged: bool,
    /// Arguments passed on after `--`
    pub args: Vec<String>,
}

impl Clippy {
    /// `acc` followed by the tokens of the options proper to `clippy`, in declaration order.
    pub open spec fn append_flags(&self, acc: Seq<Seq<char>>) -> Seq<Seq<char>> {
        acc
            + valued(self.manifest_path.deep_view(), "--manifest-path"@)
            + switch(self.release, "--release"@)
            + switch(self.ignore_rust_version, "--ignore-rust-version"@)
            + switch(self.unit_graph, "--unit-graph"@)
            + switch(self.no_deps, "--no-deps"@)
            + switch(self.fix, "--fix"@)
            + switch(self.allow_dirty, "--allow-dirty"@)
            + switch(self.allow_staged, "--allow-staged"@)
    }

    /// The invocation run by `program`, up to its trailing segment.
    pub open spec fn head_tokens(&self, program: Seq<char>) -> Seq<Seq<char>> {
        let base = self.common.append_flags(seq![program, "clippy"@]);
        self.append_flags(self.check.append_flags(base))
    }

    /// The whole invocation run by `program`.
    pub open spec fn tokens(&self, program: Seq<char>) -> Seq<Seq<char>> {
        self.head_tokens(program) + passthrough(self.args.deep_view())
    }

    /// Every option left unset.
    pub open spec fn is_unset(&self) -> bool {
        &&& self.common.is_unset()
        &&& self.check.is_unset()
        &&& self.manifest_path is None
        &&& !self.release
        &&& !self.ignore_rust_version
        &&& !self.unit_graph
        &&& !self.no_deps
        &&& !self.fix
        &&& !self.allow_dirty
        &&& !self.allow_staged
        &&& self.args@.len() == 0
    }

    /// The tokens of a `clippy` invocation run by `program`.
    pub fn command(&self, program: &str) -> (r: Vec<String>)
        ensures
            r.deep_view() == self.tokens(program@),
    {
        let mut args: Vec<String> = Vec::new();
        push_token(&mut args, program);
        push_token(&mut args, "clippy");
        assert(args.deep_view() =~= seq![program@, "clippy"@]);
        self.common.apply(&mut args);
        self.check.apply(&mut args);
        push_valued(&mut args, &self.manifest_path, "--manifest-path");
        push_switch(&mut args, self.release, "--release");
        push_switch(&mut args, self.ignore_rust_version, "--ignore-rust-version");
        push_switch(&mut args, self.unit_graph, "--unit-graph");
        push_switch(&mut args, self.no_deps, "--no-deps");
        push_switch(&mut args, self.fix, "--fix");
        push_switch(&mut args, self.allow_dirty, "--allow-dirty");
        push_switch(&mut args, self.allow_staged, "--allow-staged");
        push_passthrough(&mut args, &self.args);
        args
    }
}

impl Default for Clippy {
    fn default() -> (r: Clippy)
        ensures
            r.is_unset(),
    {
        Clippy {
            common: CommonOptions::default(),
            check: CheckOptions::default(),
            manifest_path: None,
            release: false,
            ignore_rust_version: false,
            unit_graph: false,
            no_deps: false,
            fix: false,
            allow_dirty: false,
            allow_staged: false,
            args: Vec::new(),
        }
    }
}

impl std::ops::Deref for Clippy {
    type Target = CommonOptions;

    fn deref(&self) -> &CommonOptions {
        &self.common
    }
}

impl std::ops::DerefMut for Clippy {
    fn deref_mut(&mut self) -> &mut CommonOptions {
        &mut self.common
    }
}

/// A `clippy` record left unset renders as the program and the subcommand alone.
pub proof fn lemma_unset_clippy(x: Clippy, program: Seq<char>)
    requires
        x.is_unset(),
    ensures
        x.tokens(program) == seq![program, "clippy"@],
{
    lemma_unset_common(x.common, seq![program, "clippy"@]);
    lemma_unset_check_options(x.check, x.common.append_flags(seq![program, "clippy"@]));
    assert(x.args.deep_view() =~= seq![]);
    assert(x.tokens(program) =~= seq![program, "clippy"@]);
}

/// The values passed on close a `clippy` invocation: when there are any, the
/// last tokens are one `--` and then the values in order; when there are
/// none, nothing follows the flags, not even `--`.
pub proof fn lemma_clippy_trailing(x: Clippy, program: Seq<char>)
    ensures
        x.tokens(program).take(x.head_tokens(program).len() as int) == x.head_tokens(program),
        x.args@.len() > 0 ==> x.tokens(program).skip(x.head_tokens(program).len() as int)
            == seq!["--"@] + x.args.deep_view(),
        x.args@.len() == 0 ==> x.tokens(program) == x.head_tokens(program),
{
    lemma_passthrough_last(x.head_tokens(program), x.args.deep_view());
}

} // verus!
