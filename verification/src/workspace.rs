//! The workspace of one submission: a directory of its own, named after a
//! token that no other submission has.

use crate::text::{
    append_decimal, decimal, is_digit, joined, lemma_decimal_digits, lemma_decimal_injective,
};
use vstd::prelude::*;
use vstd::string::StringExecFns;

verus! {

/// The token of the request that came in at `nanos` as the `turn`-th of its
/// process: the time in the upper 64 bits, the turn in the lower.
pub open spec fn token_of(nanos: u64, turn: u64) -> nat {
    (nanos as nat) * 0x1_0000_0000_0000_0000 + (turn as nat)
}

/// Computes [`token_of`].
pub fn mint_token(nanos: u64, turn: u64) -> (token: u128)
    ensures
        token == token_of(nanos, turn),
{
    (nanos as u128) * 0x1_0000_0000_0000_0000u128 + (turn as u128)
}

/// Requests that differ in their time or in their turn have different
/// tokens.
pub proof fn lemma_tokens_differ(nanos_a: u64, turn_a: u64, nanos_b: u64, turn_b: u64)
    requires
        nanos_a != nanos_b || turn_a != turn_b,
    ensures
        token_of(nanos_a, turn_a) != token_of(nanos_b, turn_b),
{
}

/// The paths of one workspace.
#[derive(Debug)]
pub struct Workspace {
    dir: String,
    source_path: String,
    binary_path: String,
}

/// The model of a [`Workspace`].
pub struct WorkspaceView {
    pub dir: Seq<char>,
    pub source_path: Seq<char>,
    pub binary_path: Seq<char>,
}

/// Whether `path` names something below the directory `dir`.
pub open spec fn is_under(dir: Seq<char>, path: Seq<char>) -> bool {
    dir.push('/').is_prefix_of(path)
}

impl WorkspaceView {
    /// The workspace named after `token`: a directory in the scratch area,
    /// with the source file and the binary directly in it.
    pub open spec fn for_token(token: nat) -> WorkspaceView {
        let dir = "/tmp/run-"@ + decimal(token);
        WorkspaceView { dir, source_path: dir + "/main.rs"@, binary_path: dir + "/app-bin"@ }
    }

    /// Whether `path` is this workspace's directory or lies below it.
    pub open spec fn holds(self, path: Seq<char>) -> bool {
        path == self.dir || is_under(self.dir, path)
    }
}

impl View for Workspace {
    type V = WorkspaceView;

    closed spec fn view(&self) -> WorkspaceView {
        WorkspaceView {
            dir: self.dir@,
            source_path: self.source_path@,
            binary_path: self.binary_path@,
        }
    }
}

impl DeepView for Workspace {
    type V = WorkspaceView;

    open spec fn deep_view(&self) -> WorkspaceView {
        self@
    }
}

impl Clone for Workspace {
    fn clone(&self) -> (copy: Self)
        ensures
            copy@ == self@,
    {
        Workspace {
            dir: self.dir.clone(),
            source_path: self.source_path.clone(),
            binary_path: self.binary_path.clone(),
        }
    }
}

impl Workspace {
    /// Names the workspace of the submission that holds `token`. Nothing is
    /// created on disk.
    pub fn for_token(token: u128) -> (workspace: Workspace)
        ensures
            workspace@ == WorkspaceView::for_token(token as nat),
    {
        let mut dir = String::from_str("/tmp/run-");
        append_decimal(&mut dir, token);
        let source_path = joined(dir.as_str(), "/main.rs");
        let binary_path = joined(dir.as_str(), "/app-bin");
        Workspace { dir, source_path, binary_path }
    }

    /// The directory of the workspace.
    pub fn dir(&self) -> (path: &str)
        ensures
            path@ == self@.dir,
    {
        self.dir.as_str()
    }

    /// Where the submitted source is written.
    pub fn source_path(&self) -> (path: &str)
        ensures
            path@ == self@.source_path,
    {
        self.source_path.as_str()
    }

    /// Where the compiler puts the binary.
    pub fn binary_path(&self) -> (path: &str)
        ensures
            path@ == self@.binary_path,
    {
        self.binary_path.as_str()
    }
}

/// A numeral followed by a slash starts a numeral followed by `rest`, where
/// `rest` is empty or starts with a slash, only if the numerals are the same.
proof fn lemma_numeral_boundary(a: nat, b: nat, rest: Seq<char>)
    requires
        decimal(a).push('/').is_prefix_of(decimal(b) + rest),
        rest.len() > 0 ==> rest[0] == '/',
    ensures
        a == b,
{
    let da = decimal(a);
    let db = decimal(b);
    let lhs = da.push('/');
    let rhs = db + rest;
    lemma_decimal_digits(a);
    lemma_decimal_digits(b);
    assert(lhs =~= rhs.subrange(0, lhs.len() as int));
    if da.len() < db.len() {
        assert(lhs[da.len() as int] == '/');
        assert(rhs.subrange(0, lhs.len() as int)[da.len() as int] == db[da.len() as int]);
        assert(is_digit(db[da.len() as int]));
    } else if da.len() > db.len() {
        assert(lhs[db.len() as int] == da[db.len() as int]);
        assert(rhs.subrange(0, lhs.len() as int)[db.len() as int] == rest[0]);
        assert(is_digit(da[db.len() as int]));
    } else {
        assert forall|i: int| 0 <= i < da.len() implies da[i] == db[i] by {
            assert(lhs[i] == da[i]);
            assert(rhs.subrange(0, lhs.len() as int)[i] == db[i]);
        }
        assert(da =~= db);
        lemma_decimal_injective(a, b);
    }
}

/// The directory named after `a` holds no path that is the directory named
/// after `b` followed by `rest`, unless `a` is `b`.
proof fn lemma_directory_boundary(a: nat, b: nat, rest: Seq<char>)
    requires
        a != b,
        rest.len() > 0 ==> rest[0] == '/',
    ensures
        !WorkspaceView::for_token(a).holds(WorkspaceView::for_token(b).dir + rest),
{
    let root = "/tmp/run-"@;
    let dir_a = WorkspaceView::for_token(a).dir;
    let path = WorkspaceView::for_token(b).dir + rest;
    assert(path =~= root + (decimal(b) + rest));
    lemma_decimal_digits(a);
    lemma_decimal_digits(b);
    if path == dir_a {
        assert(decimal(a) =~= dir_a.subrange(root.len() as int, dir_a.len() as int));
        assert(decimal(b) + rest =~= path.subrange(root.len() as int, path.len() as int));
        if rest.len() > 0 {
            let k = decimal(b).len() as int;
            assert((decimal(b) + rest)[k] == '/');
            assert(is_digit(decimal(a)[k]));
        } else {
            assert(decimal(b) + rest =~= decimal(b));
            lemma_decimal_injective(a, b);
        }
    }
    if is_under(dir_a, path) {
        let lhs = dir_a.push('/');
        assert(lhs =~= path.subrange(0, lhs.len() as int));
        let inner = decimal(a).push('/');
        let tail = decimal(b) + rest;
        assert(inner.len() <= tail.len());
        assert forall|i: int| 0 <= i < inner.len() implies inner[i] == tail.subrange(
            0,
            inner.len() as int,
        )[i] by {
            assert(lhs[root.len() + i] == inner[i]);
            assert(path.subrange(0, lhs.len() as int)[root.len() + i] == tail[i]);
        }
        assert(inner =~= tail.subrange(0, inner.len() as int));
        lemma_numeral_boundary(a, b, rest);
    }
}

/// A workspace holds its own source file and its own binary.
pub proof fn lemma_workspace_holds_own_files(token: nat)
    ensures
        WorkspaceView::for_token(token).holds(WorkspaceView::for_token(token).dir),
        WorkspaceView::for_token(token).holds(WorkspaceView::for_token(token).source_path),
        WorkspaceView::for_token(token).holds(WorkspaceView::for_token(token).binary_path),
{
    reveal_strlit("/main.rs");
    reveal_strlit("/app-bin");
    let w = WorkspaceView::for_token(token);
    assert(w.dir.push('/') =~= w.source_path.subrange(0, w.dir.len() as int + 1));
    assert(w.dir.push('/') =~= w.binary_path.subrange(0, w.dir.len() as int + 1));
}

/// Workspaces named after different tokens are apart: neither the directory
/// of the one nor any of its files is the directory of the other or lies
/// below it.
pub proof fn lemma_workspaces_apart(a: nat, b: nat)
    requires
        a != b,
    ensures
        !WorkspaceView::for_token(a).holds(WorkspaceView::for_token(b).dir),
        !WorkspaceView::for_token(a).holds(WorkspaceView::for_token(b).source_path),
        !WorkspaceView::for_token(a).holds(WorkspaceView::for_token(b).binary_path),
{
    reveal_strlit("/main.rs");
    reveal_strlit("/app-bin");
    let dir_b = WorkspaceView::for_token(b).dir;
    lemma_directory_boundary(a, b, Seq::empty());
    assert(dir_b + Seq::<char>::empty() =~= dir_b);
    lemma_directory_boundary(a, b, "/main.rs"@);
    lemma_directory_boundary(a, b, "/app-bin"@);
}

} // verus!
