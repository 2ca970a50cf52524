//! `doc`: build a package's documentation.
use vstd::prelude::*;

use crate::common::{lemma_unset_common, CommonOptions};
use crate::emit::{push_repeated, push_switch, push_token, push_valued, repeated, switch, valued};

verus! {

/// Package and target selection of `doc`.
#[derive(Clone, Debug)]
pub struct DocOptions {
    /// Packages to select
    pub packages: Vec<String>,
    /// Select all packages in the workspace
    pub workspace: bool,
    /// Exclude packages
    pub exclude: Vec<String>,
    /// Alias for workspace
    pub all: bool,
    /// Select only this package's library
    pub lib: bool,
    /// Select only the named binaries
    pub bin: Vec<String>,
    /// Select all binaries
    pub bins: bool,
    /// Select only the named examples
    pub example: Vec<String>,
    /// Select all examples
    pub examples: bool,
    /// Do not process dependencies
    pub no_deps: bool,
    /// Document private items
    pub document_private_items: bool,
    /// Open the docs in a browser after the operation
    pub open: bool,
}

impl DocOptions {
    /// `acc` followed by the tokens of these options, in declaration order.
    pub open spec fn append_flags(&self, acc: Seq<Seq<char>>) -> Seq<Seq<char>> {
        acc
            + repeated(self.packages.deep_view(), "--package"@)
            + switch(self.workspace, "--workspace"@)
            + repeated(self.exclude.deep_view(), "--exclude"@)
            + switch(self.all, "--all"@)
            + switch(self.lib, "--lib"@)
            + repeated(self.bin.deep_view(), "--bin"@)
            + switch(self.bins, "--bins"@)
            + repeated(self.example.deep_view(), "--example"@)
            + switch(self.examples, "--examples"@)
            + switch(self.no_deps, "--no-deps"@)
            + switch(self.document_private_items, "--document-private-items"@)
            + switch(self.open, "--open"@)
    }

    /// Every option left unset.
    pub open spec fn is_unset(&self) -> bool {
        &&& self.packages@.len() == 0
        &&& !self.workspace
        &&& self.exclude@.len() == 0
        &&& !self.all
        &&& !self.lib
        &&& self.bin@.len() == 0
        &&& !self.bins
        &&& self.example@.len() == 0
        &&& !self.examples
        &&& !self.no_deps
        &&& !self.document_private_items
        &&& !self.open
    }

    /// Appends the tokens of these options to `args`.
    pub fn apply(&self, args: &mut Vec<String>)
        ensures
            final(args).deep_view() == self.append_flags(old(args).deep_view()),
    {
        push_repeated(args, &self.packages, "--package");
        push_switch(args, self.workspace, "--workspace");
        push_repeated(args, &self.exclude, "--exclude");
        push_switch(args, self.all, "--all");
        push_switch(args, self.lib, "--lib");
        push_repeated(args, &self.bin, "--bin");
        push_switch(args, self.bins, "--bins");
        push_repeated(args, &self.example, "--example");
        push_switch(args, self.examples, "--examples");
        push_switch(args, self.no_deps, "--no-deps");
        push_switch(args, self.document_private_items, "--document-private-items");
        push_switch(args, self.open, "--open");
    }
}

impl Default for DocOptions {
    fn default() -> (r: DocOptions)
        ensures
            r.is_unset(),
    {
        DocOptions {
            packages: Vec::new(),
            workspace: false,
            exclude: Vec::new(),
            all: false,
            lib: false,
            bin: Vec::new(),
            bins: false,
            example: Vec::new(),
            examples: false,
            no_deps: false,
            document_private_items: false,
            open: false,
        }
    }
}

/// Options left unset add no token.
pub proof fn lemma_unset_doc_options(x: DocOptions, acc: Seq<Seq<char>>)
    requires
        x.is_unset(),
    ensures
        x.append_flags(acc) == acc,
{
    assert(x.packages.deep_view() =~= seq![]);
    assert(x.exclude.deep_view() =~= seq![]);
    assert(x.bin.deep_view() =~= seq![]);
    assert(x.example.deep_view() =~= seq![]);
    assert(x.append_flags(acc) =~= acc);
}

/// Options of `doc`: build a package's documentation.
#[derive(Clone, Debug)]
pub struct Doc {
    /// Options shared by every subcommand
    pub common: CommonOptions,
    /// Package and target selection
    pub doc: DocOptions,
    /// Path to the manifest
    pub manifest_path: Option<String>,
    /// Build artifacts in release mode, with optimizations
    pub release: bool,
    /// Ignore `rust-version` specification in packages
    pub ignore_rust_version: bool,
    /// Output build graph in JSON
    pub unit_graph: bool,
}

impl Doc {
    /// `acc` followed by the tokens of the options proper to `doc`, in declaration order.
    pub open spec fn append_flags(&self, acc: Seq<Seq<char>>) -> Seq<Seq<char>> {
        acc
            + valued(self.manifest_path.deep_view(), "--manifest-path"@)
            + switch(self.release, "--release"@)
            + switch(self.ignore_rust_version, "--ignore-rust-version"@)
            + switch(self.unit_graph, "--unit-graph"@)
    }

    /// The whole invocation run by `program`.
    pub open spec fn tokens(&self, program: Seq<char>) -> Seq<Seq<char>> {
        let base = self.common.append_flags(seq![program, "doc"@]);
        self.append_flags(self.doc.append_flags(base))
    }

    /// Every option left unset.
    pub open spec fn is_unset(&self) -> bool {
        &&& self.common.is_unset()
        &&& self.doc.is_unset()
        &&& self.manifest_path is None
        &&& !self.release
        &&& !self.ignore_rust_version
        &&& !self.unit_graph
    }

    /// The tokens of a `doc` invocation run by `program`.
    pub fn command(&self, program: &str) -> (r: Vec<String>)
        ensures
            r.deep_view() == self.tokens(program@),
    {
        let mut args: Vec<String> = Vec::new();
        push_token(&mut args, program);
        push_token(&mut args, "doc");
        assert(args.deep_view() =~= seq![program@, "doc"@]);
        self.common.apply(&mut args);
        self.doc.apply(&mut args);
        push_valued(&mut args, &self.manifest_path, "--manifest-path");
        push_switch(&mut args, self.release, "--release");
        push_switch(&mut args, self.ignore_rust_version, "--ignore-rust-version");
        push_switch(&mut args, self.unit_graph, "--unit-graph");
        args
    }
}

impl Default for Doc {
    fn default() -> (r: Doc)
        ensures
            r.is_unset(),
    {
        Doc {
            common: CommonOptions::default(),
            doc: DocOptions::default(),
            manifest_path: None,
            release: false,
            ignore_rust_version: false,
            unit_graph: false,
        }
    }
}

impl std::ops::Deref for Doc {
    type Target = CommonOptions;

    fn deref(&self) -> &CommonOptions {
        &self.common
    }
}

impl std::ops::DerefMut for Doc {
    fn deref_mut(&mut self) -> &mut CommonOptions {
        &mut self.common
    }
}

/// A `doc` record left unset renders as the program and the subcommand alone.
pub proof fn lemma_unset_doc(x: Doc, program: Seq<char>)
    requires
        x.is_unset(),
    ensures
        x.tokens(program) == seq![program, "doc"@],
{
    lemma_unset_common(x.common, seq![program, "doc"@]);
    lemma_unset_doc_options(x.doc, x.common.append_flags(seq![program, "doc"@]));
    assert(x.tokens(program) =~= seq![program, "doc"@]);
}

} // verus!
