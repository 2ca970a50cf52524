//! Options accepted by every subcommand, and the program that runs them.
use vstd::prelude::*;

use crate::emit::{
    numeral, push_number, push_repeated, push_switch, push_targets, push_timings,
    push_valued, push_verbosity, repeated, switch, timings, triples, valued, verbosity,
};

verus! {

/// Options shared by the subcommands; they render before any subcommand flag.
#[derive(Clone, Debug)]
pub struct CommonOptions {
    /// Do not print log messages
    pub quiet: bool,
    /// Number of parallel jobs
    pub jobs: Option<usize>,
    /// Do not abort the build as soon as there is an error
    pub keep_going: bool,
    /// Build artifacts with the named profile
    pub profile: Option<String>,
    /// Features to activate
    pub features: Vec<String>,
    /// Activate all available features
    pub all_features: bool,
    /// Do not activate the `default` feature
    pub no_default_features: bool,
    /// Target triples, each optionally followed by `.` and a suffix that is not passed on
    pub target: Vec<String>,
    /// Directory for all generated artifacts
    pub target_dir: Option<String>,
    /// Message formats
    pub message_format: Vec<String>,
    /// Verbosity level
    pub verbose: u8,
    /// Coloring: auto, always, never
    pub color: Option<String>,
    /// Require the lock file and cache to be up to date
    pub frozen: bool,
    /// Require the lock file to be up to date
    pub locked: bool,
    /// Run without accessing the network
    pub offline: bool,
    /// Configuration overrides, `KEY=VALUE`
    pub config: Vec<String>,
    /// Unstable flags, each passed after `-Z`
    pub unstable_flags: Vec<String>,
    /// Timing output formats; present without formats for the bare flag
    pub timings: Option<Vec<String>>,
}

/// The program that runs a command: `found` when an override was found,
/// else `cargo`.
pub open spec fn program_of(found: Option<Seq<char>>) -> Seq<char> {
    match found {
        Some(p) => p,
        None => "cargo"@,
    }
}

impl CommonOptions {
    /// `acc` followed by the tokens of these options, in declaration order.
    pub open spec fn append_flags(&self, acc: Seq<Seq<char>>) -> Seq<Seq<char>> {
        acc
            + switch(self.quiet, "--quiet"@)
            + valued(numeral(self.jobs), "--jobs"@)
            + switch(self.keep_going, "--keep-going"@)
            + valued(self.profile.deep_view(), "--profile"@)
            + repeated(self.features.deep_view(), "--features"@)
            + switch(self.all_features, "--all-features"@)
            + switch(self.no_default_features, "--no-default-features"@)
            + repeated(triples(self.target.deep_view()), "--target"@)
            + valued(self.target_dir.deep_view(), "--target-dir"@)
            + repeated(self.message_format.deep_view(), "--message-format"@)
            + verbosity(self.verbose as nat)
            + valued(self.color.deep_view(), "--color"@)
            + switch(self.frozen, "--frozen"@)
            + switch(self.locked, "--locked"@)
            + switch(self.offline, "--offline"@)
            + repeated(self.config.deep_view(), "--config"@)
            + repeated(self.unstable_flags.deep_view(), "-Z"@)
            + timings(self.timings.deep_view())
    }

    /// Every flag false, every option absent, every list empty, verbosity zero.
    pub open spec fn is_unset(&self) -> bool {
        &&& !self.quiet
        &&& self.jobs is None
        &&& !self.keep_going
        &&& self.profile is None
        &&& self.features@.len() == 0
        &&& !self.all_features
        &&& !self.no_default_features
        &&& self.target@.len() == 0
        &&& self.target_dir is None
        &&& self.message_format@.len() == 0
        &&& self.verbose == 0
        &&& self.color is None
        &&& !self.frozen
        &&& !self.locked
        &&& !self.offline
        &&& self.config@.len() == 0
        &&& self.unstable_flags@.len() == 0
        &&& self.timings is None
    }

    /// Appends the tokens of these options to `args`.
    pub fn apply(&self, args: &mut Vec<String>)
        ensures
            final(args).deep_view() == self.append_flags(old(args).deep_view()),
    {
        push_switch(args, self.quiet, "--quiet");
        push_number(args, self.jobs, "--jobs");
        push_switch(args, self.keep_going, "--keep-going");
        push_valued(args, &self.profile, "--profile");
        push_repeated(args, &self.features, "--features");
        push_switch(args, self.all_features, "--all-features");
        push_switch(args, self.no_default_features, "--no-default-features");
        push_targets(args, &self.target, "--target");
        push_valued(args, &self.target_dir, "--target-dir");
        push_repeated(args, &self.message_format, "--message-format");
        push_verbosity(args, self.verbose);
        push_valued(args, &self.color, "--color");
        push_switch(args, self.frozen, "--frozen");
        push_switch(args, self.locked, "--locked");
        push_switch(args, self.offline, "--offline");
        push_repeated(args, &self.config, "--config");
        push_repeated(args, &self.unstable_flags, "-Z");
        push_timings(args, &self.timings);
    }

    /// The program that runs a command, given the override found in the
    /// environment, if any.
    pub fn cargo_program(found: Option<String>) -> (r: String)
        ensures
            r@ == program_of(found.deep_view()),
    {
        match found {
            Some(p) => p,
            None => String::from_str("cargo"),
        }
    }
}

/// Options left unset add no token.
pub proof fn lemma_unset_common(c: CommonOptions, acc: Seq<Seq<char>>)
    requires
        c.is_unset(),
    ensures
        c.append_flags(acc) == acc,
{
    assert(c.features.deep_view() =~= seq![]);
    assert(c.target.deep_view() =~= seq![]);
    assert(triples(c.target.deep_view()) =~= seq![]);
    assert(c.message_format.deep_view() =~= seq![]);
    assert(c.config.deep_view() =~= seq![]);
    assert(c.unstable_flags.deep_view() =~= seq![]);
    assert(c.append_flags(acc) =~= acc);
}

impl Default for CommonOptions {
    fn default() -> (r: CommonOptions)
        ensures
            r.is_unset(),
    {
        CommonOptions {
            quiet: false,
            jobs: None,
            keep_going: false,
            profile: None,
            features: Vec::new(),
            all_features: false,
            no_default_features: false,
            target: Vec::new(),
            target_dir: None,
            message_format: Vec::new(),
            verbose: 0,
            color: None,
            frozen: false,
            locked: false,
            offline: false,
            config: Vec::new(),
            unstable_flags: Vec::new(),
            timings: None,
        }
    }
}

} // verus!
