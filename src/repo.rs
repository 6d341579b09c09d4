//! The repository handle: a working copy opened through git2, and the engine
//! operations that the synchronisation needs from it.
use vstd::prelude::*;
use crate::error::GitBotError;
use crate::sync::SyncState;
use vstd::string::to_string_from_display_ensures;

verus! {

#[verifier::external_type_specification]
#[verifier::external_body]
pub struct ExRepository(git2::Repository);

#[verifier::external_type_specification]
#[verifier::external_body]
pub struct ExGitError(git2::Error);

#[verifier::external_type_specification]
#[verifier::external_body]
pub struct ExIndex(git2::Index);

#[verifier::external_type_specification]
#[verifier::external_body]
pub struct ExOid(git2::Oid);

#[verifier::external_type_specification]
#[verifier::external_body]
pub struct ExTree<'repo>(git2::Tree<'repo>);

#[verifier::external_type_specification]
#[verifier::external_body]
pub struct ExCommit<'repo>(git2::Commit<'repo>);

#[verifier::external_type_specification]
#[verifier::external_body]
pub struct ExReference<'repo>(git2::Reference<'repo>);

#[verifier::external_type_specification]
#[verifier::external_body]
pub struct ExSignature<'a>(git2::Signature<'a>);

/// Relies on git2::Repository::open: opens the working copy at a path. What
/// it finds there depends on the disk, so nothing is promised of the result.
#[verifier::external_body]
fn open_repository(path: &str) -> (r: Result<git2::Repository, git2::Error>) {
    git2::Repository::open(path)
}

/// Relies on git2::Repository::statuses: the status flags of every entry of
/// the working tree, as their bits.
#[verifier::external_body]
fn status_flags(repo: &git2::Repository) -> (r: Result<Vec<u32>, git2::Error>) {
    repo.statuses(None).map(|s| s.iter().map(|e| e.status().bits()).collect())
}

/// Relies on git2::Repository::index: the repository's stage.
#[verifier::external_body]
fn repository_index(repo: &git2::Repository) -> (r: Result<git2::Index, git2::Error>) {
    repo.index()
}

/// Relies on git2::Index::add_all: stages every working-tree file matching
/// the pathspec, respecting the engine's ignore rules.
#[verifier::external_body]
fn index_add_all(index: &mut git2::Index, pathspec: &str) -> (r: Result<(), git2::Error>) {
    index.add_all([pathspec].iter(), git2::IndexAddOption::DEFAULT, None)
}

/// Relies on git2::Index::write: writes the stage back to disk.
#[verifier::external_body]
fn index_write(index: &mut git2::Index) -> (r: Result<(), git2::Error>) {
    index.write()
}

/// Relies on git2::Index::write_tree: a tree object built from the stage.
#[verifier::external_body]
fn index_write_tree(index: &mut git2::Index) -> (r: Result<git2::Oid, git2::Error>) {
    index.write_tree()
}

/// Relies on git2::Repository::find_tree: looks a tree object up by its id.
#[verifier::external_body]
fn find_tree<'r>(repo: &'r git2::Repository, id: git2::Oid) -> (r: Result<
    git2::Tree<'r>,
    git2::Error,
>) {
    repo.find_tree(id)
}

/// Relies on git2::Repository::signature: the identity configured in the
/// engine's own settings.
#[verifier::external_body]
fn repository_signature(repo: &git2::Repository) -> (r: Result<
    git2::Signature<'static>,
    git2::Error,
>) {
    repo.signature()
}

/// Relies on git2::Repository::head: the reference HEAD points to.
#[verifier::external_body]
fn repository_head<'r>(repo: &'r git2::Repository) -> (r: Result<
    git2::Reference<'r>,
    git2::Error,
>) {
    repo.head()
}

/// Relies on git2::Reference::peel_to_commit: the commit a reference leads to.
#[verifier::external_body]
fn peel_to_commit<'r>(reference: &git2::Reference<'r>) -> (r: Result<
    git2::Commit<'r>,
    git2::Error,
>) {
    reference.peel_to_commit()
}

/// A commit made by the synchronisation: its id, the id of its one parent,
/// and the name and email of the identity that authored and committed it,
/// each as bytes.
#[derive(Debug, Clone, PartialEq, Eq)]
pub struct CreatedCommit {
    pub id: Vec<u8>,
    pub parent: Vec<u8>,
    pub identity_name: Vec<u8>,
    pub identity_email: Vec<u8>,
}

/// What the commit object whose id has these bytes stores: its message, the
/// ids of its parents, and the (name, email) of its author and of its
/// committer.
pub uninterp spec fn commit_content_of(id: Seq<u8>) -> (
    Seq<char>,
    Seq<Seq<u8>>,
    (Seq<u8>, Seq<u8>),
    (Seq<u8>, Seq<u8>),
);

/// The message stored in the commit whose id has these bytes.
pub open spec fn commit_message_of(id: Seq<u8>) -> Seq<char> {
    commit_content_of(id).0
}

/// The parent ids stored in the commit whose id has these bytes.
pub open spec fn commit_parents_of(id: Seq<u8>) -> Seq<Seq<u8>> {
    commit_content_of(id).1
}

/// The commit `c` stores `message`, has `c.parent` as its one parent, and has
/// `c`'s identity as both author and committer.
pub open spec fn records(c: CreatedCommit, message: Seq<char>) -> bool {
    &&& commit_message_of(c.id@) == message
    &&& commit_parents_of(c.id@) == seq![c.parent@]
    &&& commit_content_of(c.id@).2 == (c.identity_name@, c.identity_email@)
    &&& commit_content_of(c.id@).3 == (c.identity_name@, c.identity_email@)
}

/// Relies on git2::Repository::commit: creates a commit of the tree with
/// `parent` as its one parent, `signature` as author and committer and
/// `message` stored as given, and moves the named reference to it; git2
/// refuses to move a branch unless the first parent is its current tip. The
/// new commit's id, its parent's id and the signature's name and email come
/// back as bytes.
#[verifier::external_body]
fn create_commit(
    repo: &git2::Repository,
    update_ref: &str,
    signature: &git2::Signature<'static>,
    message: &str,
    tree: &git2::Tree<'_>,
    parent: &git2::Commit<'_>,
) -> (r: Result<CreatedCommit, git2::Error>)
    ensures
        r is Ok ==> commit_content_of(r->Ok_0.id@) == (
            message@,
            seq![r->Ok_0.parent@],
            (r->Ok_0.identity_name@, r->Ok_0.identity_email@),
            (r->Ok_0.identity_name@, r->Ok_0.identity_email@),
        ),
{
    match repo.commit(Some(update_ref), signature, signature, message, tree, &[parent]) {
        Ok(id) => Ok(CreatedCommit {
            id: id.as_bytes().to_vec(),
            parent: parent.id().as_bytes().to_vec(),
            identity_name: signature.name_bytes().to_vec(),
            identity_email: signature.email_bytes().to_vec(),
        }),
        Err(e) => Err(e),
    }
}

/// The reference that a new commit moves: the current branch.
pub const HEAD_REF: &'static str = "HEAD";

/// The pathspec that stages everything under the working-copy root.
pub const STAGE_ALL_PATHSPEC: &'static str = "*";

/// A failure reported by the engine, kept as the engine's own text.
pub fn engine_failure(e: git2::Error) -> (r: GitBotError)
    ensures
        r is GitError,
        to_string_from_display_ensures::<git2::Error>(&e, r->GitError_0),
{
    GitBotError::GitError(e.to_string())
}

/// Opens the working copy at `path`.
pub fn open_at(path: &String) -> (r: Result<git2::Repository, GitBotError>)
    ensures
        r is Err ==> r->Err_0 is GitError,
{
    match open_repository(path.as_str()) {
        Ok(repo) => Ok(repo),
        Err(e) => Err(engine_failure(e)),
    }
}

/// The status flags of every working-tree entry of the repository.
pub fn read_status(repo: &git2::Repository) -> (r: Result<Vec<u32>, GitBotError>)
    ensures
        r is Err ==> r->Err_0 is GitError,
{
    match status_flags(repo) {
        Ok(v) => Ok(v),
        Err(e) => Err(engine_failure(e)),
    }
}

/// Stages every change of the working tree and writes the stage to disk; the
/// stage is handed back for the commit. Only a synchronisation that waits
/// for staging stages.
pub fn stage_all(repo: &git2::Repository, state: &SyncState) -> (r: Result<git2::Index, GitBotError>)
    requires
        *state is Staging,
    ensures
        r is Err ==> r->Err_0 is GitError,
{
    let mut index = match repository_index(repo) {
        Ok(i) => i,
        Err(e) => return Err(engine_failure(e)),
    };
    match index_add_all(&mut index, STAGE_ALL_PATHSPEC) {
        Ok(()) => {},
        Err(e) => return Err(engine_failure(e)),
    }
    match index_write(&mut index) {
        Ok(()) => Ok(index),
        Err(e) => Err(engine_failure(e)),
    }
}

/// Commits the stage with `message`, with the current branch tip as the one
/// parent and the engine's configured identity as author and committer, and
/// moves the branch to the new commit, which comes back. Only a
/// synchronisation that waits for the commit commits.
pub fn commit_stage(
    repo: &git2::Repository,
    index: &mut git2::Index,
    message: &String,
    state: &SyncState,
) -> (r: Result<CreatedCommit, GitBotError>)
    requires
        *state is Committing,
    ensures
        r is Err ==> r->Err_0 is GitError,
        r is Ok ==> records(r->Ok_0, message@),
{
    let tree_id = match index_write_tree(index) {
        Ok(id) => id,
        Err(e) => return Err(engine_failure(e)),
    };
    let tree = match find_tree(repo, tree_id) {
        Ok(t) => t,
        Err(e) => return Err(engine_failure(e)),
    };
    let signature = match repository_signature(repo) {
        Ok(s) => s,
        Err(e) => return Err(engine_failure(e)),
    };
    let head = match repository_head(repo) {
        Ok(h) => h,
        Err(e) => return Err(engine_failure(e)),
    };
    let parent = match peel_to_commit(&head) {
        Ok(c) => c,
        Err(e) => return Err(engine_failure(e)),
    };
    match create_commit(repo, HEAD_REF, &signature, message.as_str(), &tree, &parent) {
        Ok(created) => Ok(created),
        Err(e) => Err(engine_failure(e)),
    }
}

} // verus!
