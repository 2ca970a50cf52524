//! `metadata`: output the resolved dependencies of a package in machine-readable form.
use vstd::prelude::*;

use crate::emit::{
    push_repeated, push_switch, push_token, push_valued, push_verbosity, repeated, switch, valued,
    verbosity,
};

verus! {

/// Options of `metadata`: output the resolved dependencies of a package in machine-readable form.
#[derive(Clone, Debug)]
pub struct Metadata {
    /// Do not print log messages
    pub quiet: bool,
    /// Verbosity level
    pub verbose: u8,
    /// Features to activate
    pub features: Vec<String>,
    /// Activate all available features
    pub all_features: bool,
    /// Do not activate the `default` feature
    pub no_default_features: bool,
    /// Only include resolve dependencies matching the given target triple
    pub filter_platform: Vec<String>,
    /// Do not process dependencies
    pub no_deps: bool,
    /// Path to the manifest
    pub manifest_path: Option<String>,
    /// Format version
    pub format_version: Option<String>,
    /// Coloring: auto, always, never
    pub color: Option<String>,
    /// Require the lock file and cache to be up to date
    pub frozen: bool,
    /// Require the lock file to be up to date
    pub locked: bool,
    /// Run without accessing the network
    pub offline: bool,
    /// Configuration overrides, `KEY=VALUE`
    pub config: Vec<String>,
    /// Unstable flags, each passed after `-Z`
    pub unstable_flags: Vec<String>,
}

impl Metadata {
    /// `acc` followed by the tokens of the options proper to `metadata`, in declaration order.
    pub open spec fn append_flags(&self, acc: Seq<Seq<char>>) -> Seq<Seq<char>> {
        acc
            + switch(self.quiet, "--quiet"@)
            + verbosity(self.verbose as nat)
            + repeated(self.features.deep_view(), "--features"@)
            + switch(self.all_features, "--all-features"@)
            + switch(self.no_default_features, "--no-default-features"@)
            + repeated(self.filter_platform.deep_view(), "--filter-platform"@)
            + switch(self.no_deps, "--no-deps"@)
            + valued(self.manifest_path.deep_view(), "--manifest-path"@)
            + valued(self.format_version.deep_view(), "--format-version"@)
            + valued(self.color.deep_view(), "--color"@)
            + switch(self.frozen, "--frozen"@)
            + switch(self.locked, "--locked"@)
            + switch(self.offline, "--offline"@)
            + repeated(self.config.deep_view(), "--config"@)
            + repeated(self.unstable_flags.deep_view(), "-Z"@)
    }

    /// The whole invocation run by `program`.
    pub open spec fn tokens(&self, program: Seq<char>) -> Seq<Seq<char>> {
        self.append_flags(seq![program, "metadata"@])
    }

    /// Every option left unset.
    pub open spec fn is_unset(&self) -> bool {
        &&& !self.quiet
        &&& self.verbose == 0
        &&& self.features@.len() == 0
        &&& !self.all_features
        &&& !self.no_default_features
        &&& self.filter_platform@.len() == 0
        &&& !self.no_deps
        &&& self.manifest_path is None
        &&& self.format_version is None
        &&& self.color is None
        &&& !self.frozen
        &&& !self.locked
        &&& !self.offline
        &&& self.config@.len() == 0
        &&& self.unstable_flags@.len() == 0
    }

    /// The tokens of a `metadata` invocation run by `program`.
    pub fn command(&self, program: &str) -> (r: Vec<String>)
        ensures
            r.deep_view() == self.tokens(program@),
    {
        let mut args: Vec<String> = Vec::new();
        push_token(&mut args, program);
        push_token(&mut args, "metadata");
        assert(args.deep_view() =~= seq![program@, "metadata"@]);
        push_switch(&mut args, self.quiet, "--quiet");
        push_verbosity(&mut args, self.verbose);
        push_repeated(&mut args, &self.features, "--features");
        push_switch(&mut args, self.all_features, "--all-features");
        push_switch(&mut args, self.no_default_features, "--no-default-features");
        push_repeated(&mut args, &self.filter_platform, "--filter-platform");
        push_switch(&mut args, self.no_deps, "--no-deps");
        push_valued(&mut args, &self.manifest_path, "--manifest-path");
        push_valued(&mut args, &self.format_version, "--format-version");
        push_valued(&mut args, &self.color, "--color");
        push_switch(&mut args, self.frozen, "--frozen");
        push_switch(&mut args, self.locked, "--locked");
        push_switch(&mut args, self.offline, "--offline");
        push_repeated(&mut args, &self.config, "--config");
        push_repeated(&mut args, &self.unstable_flags, "-Z");
        args
    }
}

impl Default for Metadata {
    fn default() -> (r: Metadata)
        ensures
            r.is_unset(),
    {
        Metadata {
            quiet: false,
            verbose: 0,
            features: Vec::new(),
            all_features: false,
            no_default_features: false,
            filter_platform: Vec::new(),
            no_deps: false,
            manifest_path: None,
            format_version: None,
            color: None,
            frozen: false,
            locked: false,
            offline: false,
            config: Vec::new(),
            unstable_flags: Vec::new(),
        }
    }
}

/// A `metadata` record left unset renders as the program and the subcommand alone.
pub proof fn lemma_unset_metadata(x: Metadata, program: Seq<char>)
    requires
        x.is_unset(),
    ensures
        x.tokens(program) == seq![program, "metadata"@],
{
    assert(x.features.deep_view() =~= seq![]);
    assert(x.filter_platform.deep_view() =~= seq![]);
    assert(x.config.deep_view() =~= seq![]);
    assert(x.unstable_flags.deep_view() =~= seq![]);
    assert(x.tokens(program) =~= seq![program, "metadata"@]);
}

} // verus!
