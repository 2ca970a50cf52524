//! `install`: install a Rust binary.
use vstd::prelude::*;

use crate::common::{lemma_unset_common, CommonOptions};
use crate::emit::{
    push_all, push_repeated, push_switch, push_token, push_valued, repeated, switch, valued,
};

verus! {

/// Options of `install`: install a Rust binary.
#[derive(Clone, Debug)]
pub struct Install {
    /// Options shared by every subcommand
    pub common: CommonOptions,
    /// Version to install
    pub version: Option<String>,
    /// Git URL to install the crate from
    pub git: Option<String>,
    /// Branch to use when installing from git
    pub branch: Option<String>,
    /// Tag to use when installing from git
    pub tag: Option<String>,
    /// Specific commit to use when installing from git
    pub rev: Option<String>,
    /// Filesystem path to local crate to install
    pub path: Option<String>,
    /// List all installed packages and their versions
    pub list: bool,
    /// Force overwriting existing crates or binaries
    pub force: bool,
    /// Do not save tracking information
    pub no_track: bool,
    /// Build in debug mode instead of release mode
    pub debug: bool,
    /// Directory to install packages into
    pub root: Option<String>,
    /// Registry index to install from
    pub index: Option<String>,
    /// Registry to use
    pub registry: Option<String>,
    /// Select only the named binaries
    pub bin: Vec<String>,
    /// Select all binaries
    pub bins: bool,
    /// Select only the named examples
    pub example: Vec<String>,
    /// Select all examples
    pub examples: bool,
    /// Crates to install
    pub crates: Vec<String>,
}

impl Install {
    /// `acc` followed by the tokens of the options proper to `install`, in declaration order.
    pub open spec fn append_flags(&self, acc: Seq<Seq<char>>) -> Seq<Seq<char>> {
        acc
            + valued(self.version.deep_view(), "--version"@)
            + valued(self.git.deep_view(), "--git"@)
            + valued(self.branch.deep_view(), "--branch"@)
            + valued(self.tag.deep_view(), "--tag"@)
            + valued(self.rev.deep_view(), "--rev"@)
            + valued(self.path.deep_view(), "--path"@)
            + switch(self.list, "--list"@)
            + switch(self.force, "--force"@)
            + switch(self.no_track, "--no-track"@)
            + switch(self.debug, "--debug"@)
            + valued(self.root.deep_view(), "--root"@)
            + valued(self.index.deep_view(), "--index"@)
            + valued(self.registry.deep_view(), "--registry"@)
            + repeated(self.bin.deep_view(), "--bin"@)
            + switch(self.bins, "--bins"@)
            + repeated(self.example.deep_view(), "--example"@)
            + switch(self.examples, "--examples"@)
    }

    /// The invocation run by `program`, up to its trailing segment.
    pub open spec fn head_tokens(&self, program: Seq<char>) -> Seq<Seq<char>> {
        self.append_flags(self.common.append_flags(seq![program, "install"@]))
    }

    /// The whole invocation run by `program`.
    pub open spec fn tokens(&self, program: Seq<char>) -> Seq<Seq<char>> {
        self.head_tokens(program) + self.crates.deep_view()
    }

    /// Every option left unset.
    pub open spec fn is_unset(&self) -> bool {
        &&& self.common.is_unset()
        &&& self.version is None
        &&& self.git is None
        &&& self.branch is None
        &&& self.tag is None
        &&& self.rev is None
        &&& self.path is None
        &&& !self.list
        &&& !self.force
        &&& !self.no_track
        &&& !self.debug
        &&& self.root is None
        &&& self.index is None
        &&& self.registry is None
        &&& self.bin@.len() == 0
        &&& !self.bins
        &&& self.example@.len() == 0
        &&& !self.examples
        &&& self.crates@.len() == 0
    }

    /// The tokens of a `install` invocation run by `program`.
    pub fn command(&self, program: &str) -> (r: Vec<String>)
        ensures
            r.deep_view() == self.tokens(program@),
    {
        let mut args: Vec<String> = Vec::new();
        push_token(&mut args, program);
        push_token(&mut args, "install");
        assert(args.deep_view() =~= seq![program@, "install"@]);
        self.common.apply(&mut args);
        push_valued(&mut args, &self.version, "--version");
        push_valued(&mut args, &self.git, "--git");
        push_valued(&mut args, &self.branch, "--branch");
        push_valued(&mut args, &self.tag, "--tag");
        push_valued(&mut args, &self.rev, "--rev");
        push_valued(&mut args, &self.path, "--path");
        push_switch(&mut args, self.list, "--list");
        push_switch(&mut args, self.force, "--force");
        push_switch(&mut args, self.no_track, "--no-track");
        push_switch(&mut args, self.debug, "--debug");
        push_valued(&mut args, &self.root, "--root");
        push_valued(&mut args, &self.index, "--index");
        push_valued(&mut args, &self.registry, "--registry");
        push_repeated(&mut args, &self.bin, "--bin");
        push_switch(&mut args, self.bins, "--bins");
        push_repeated(&mut args, &self.example, "--example");
        push_switch(&mut args, self.examples, "--examples");
        push_all(&mut args, &self.crates);
        args
    }
}

impl Default for Install {
    fn default() -> (r: Install)
        ensures
            r.is_unset(),
    {
        Install {
            common: CommonOptions::default(),
            version: None,
            git: None,
            branch: None,
            tag: None,
            rev: None,
            path: None,
            list: false,
            force: false,
            no_track: false,
            debug: false,
            root: None,
            index: None,
            registry: None,
            bin: Vec::new(),
            bins: false,
            example: Vec::new(),
            examples: false,
            crates: Vec::new(),
        }
    }
}

impl std::ops::Deref for Install {
    type Target = CommonOptions;

    fn deref(&self) -> &CommonOptions {
        &self.common
    }
}

impl std::ops::DerefMut for Install {
    fn deref_mut(&mut self) -> &mut CommonOptions {
        &mut self.common
    }
}

/// A `install` record left unset renders as the program and the subcommand alone.
pub proof fn lemma_unset_install(x: Install, program: Seq<char>)
    requires
        x.is_unset(),
    ensures
        x.tokens(program) == seq![program, "install"@],
{
    lemma_unset_common(x.common, seq![program, "install"@]);
    assert(x.bin.deep_view() =~= seq![]);
    assert(x.example.deep_view() =~= seq![]);
    assert(x.crates.deep_view() =~= seq![]);
    assert(x.tokens(program) =~= seq![program, "install"@]);
}

} // verus!
