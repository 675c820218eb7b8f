//! The calls into the repository library.
//!
//! Nothing in this file is proved. Each type is declared so that values of it
//! can be passed around, with nothing known of what they hold. Each function
//! hands one call on; what the repository answers depends on what is on disk,
//! so all but one state nothing about their result.

use crate::utils::git::{FileStatus, FileStatusView, GitFault, PatchLine};
use git2::{Commit, Diff, Index, Oid, Reference, Repository, Signature, Statuses, Tree};
use vstd::prelude::*;

verus! {

/// `git2::Repository`: an open repository.
#[verifier::external_type_specification]
#[verifier::external_body]
pub struct ExRepository(git2::Repository);

/// `git2::Error`: a failure of the repository library.
#[verifier::external_type_specification]
#[verifier::external_body]
pub struct ExGitError(git2::Error);

/// `git2::Statuses`: the list that a status scan gives.
#[verifier::external_type_specification]
#[verifier::external_body]
pub struct ExStatuses<'repo>(git2::Statuses<'repo>);

/// `git2::Reference`: a reference of a repository.
#[verifier::external_type_specification]
#[verifier::external_body]
pub struct ExReference<'repo>(git2::Reference<'repo>);

/// `git2::Tree`: a tree object.
#[verifier::external_type_specification]
#[verifier::external_body]
pub struct ExTree<'repo>(git2::Tree<'repo>);

/// `git2::Commit`: a commit object.
#[verifier::external_type_specification]
#[verifier::external_body]
pub struct ExCommit<'repo>(git2::Commit<'repo>);

/// `git2::Index`: the index of a repository.
#[verifier::external_type_specification]
#[verifier::external_body]
pub struct ExIndex(git2::Index);

/// `git2::Oid`: the id of an object.
#[verifier::external_type_specification]
#[verifier::external_body]
pub struct ExOid(git2::Oid);

/// `git2::Diff`: the difference between two snapshots.
#[verifier::external_type_specification]
#[verifier::external_body]
pub struct ExDiff<'repo>(git2::Diff<'repo>);

/// `git2::Signature`: who acts, and when.
#[verifier::external_type_specification]
#[verifier::external_body]
pub struct ExSignature<'a>(git2::Signature<'a>);

/// `Error::code` and `Error::message`: whether the code is `UnbornBranch`,
/// and the message.
#[verifier::external_body]
pub(crate) fn fault_of(error: &git2::Error) -> GitFault {
    GitFault {
        unborn_branch: matches!(error.code(), git2::ErrorCode::UnbornBranch),
        message: error.message().to_string(),
    }
}

/// `Repository::statuses` with the default options: the status list of index
/// and working tree.
#[verifier::external_body]
pub(crate) fn statuses_of<'r>(repo: &'r Repository) -> Result<Statuses<'r>, git2::Error> {
    repo.statuses(None)
}

/// What a status list holds: its entries in order, each with its path as
/// text (`StatusEntry::path`) and the six flags of its status that the
/// library reads (`StatusEntry::status`).
pub uninterp spec fn status_entries(statuses: &Statuses<'_>) -> Seq<FileStatusView>;

/// `Statuses::len`: the number of entries of the list.
#[verifier::external_body]
pub(crate) fn statuses_len(statuses: &Statuses<'_>) -> (count: usize)
    ensures
        count == status_entries(statuses).len(),
{
    statuses.len()
}

/// `Statuses::get`: the entry at `index`, with its path and the six flags
/// of its status that the library reads; `None` where `index` is out of
/// bounds, and there only.
#[verifier::external_body]
pub(crate) fn status_at(statuses: &Statuses<'_>, index: usize) -> (entry: Option<FileStatus>)
    ensures
        match entry {
            Some(found) => index < status_entries(statuses).len() && found@ == status_entries(
                statuses,
            )[index as int],
            None => index >= status_entries(statuses).len(),
        },
{
    statuses.get(index).map(|entry| FileStatus {
        path: entry.path().map(|path| path.to_string()),
        index_new: entry.status().is_index_new(),
        index_modified: entry.status().is_index_modified(),
        index_deleted: entry.status().is_index_deleted(),
        wt_new: entry.status().is_wt_new(),
        wt_modified: entry.status().is_wt_modified(),
        wt_deleted: entry.status().is_wt_deleted(),
    })
}

/// `Repository::head`: the reference that HEAD resolves to.
#[verifier::external_body]
pub(crate) fn head_of<'r>(repo: &'r Repository) -> Result<Reference<'r>, git2::Error> {
    repo.head()
}

/// `Reference::peel_to_tree`: the tree that the reference leads to.
#[verifier::external_body]
pub(crate) fn tree_of<'r>(reference: &Reference<'r>) -> Result<Tree<'r>, git2::Error> {
    reference.peel_to_tree()
}

/// `Reference::peel_to_commit`: the commit that the reference leads to.
#[verifier::external_body]
pub(crate) fn commit_of<'r>(reference: &Reference<'r>) -> Result<Commit<'r>, git2::Error> {
    reference.peel_to_commit()
}

/// `Repository::index`: the index of the repository.
#[verifier::external_body]
pub(crate) fn index_of(repo: &Repository) -> Result<Index, git2::Error> {
    repo.index()
}

/// `Index::add_all` with the default option and no callback: stages what
/// matches `pathspec` in the working tree.
#[verifier::external_body]
pub(crate) fn stage_matching(index: &mut Index, pathspec: &str) -> Result<(), git2::Error> {
    index.add_all([pathspec], git2::IndexAddOption::DEFAULT, None)
}

/// `Index::write`: writes the index back to disk.
#[verifier::external_body]
pub(crate) fn write_index(index: &mut Index) -> Result<(), git2::Error> {
    index.write()
}

/// `Index::write_tree`: writes the index as a tree and gives the tree's id.
#[verifier::external_body]
pub(crate) fn write_tree(index: &mut Index) -> Result<Oid, git2::Error> {
    index.write_tree()
}

/// `Repository::find_tree`: the tree with the id `id`.
#[verifier::external_body]
pub(crate) fn find_tree<'r>(repo: &'r Repository, id: Oid) -> Result<Tree<'r>, git2::Error> {
    repo.find_tree(id)
}

/// `Repository::diff_tree_to_tree` with both trees given and the default
/// options: the difference from `old` to `new`.
#[verifier::external_body]
pub(crate) fn diff_trees<'r>(repo: &'r Repository, old: &Tree<'r>, new: &Tree<'r>) -> Result<
    Diff<'r>,
    git2::Error,
> {
    repo.diff_tree_to_tree(Some(old), Some(new), None)
}

/// `Repository::diff_index_to_workdir` with the repository's own index and
/// fresh options: the difference from the index to the working tree.
#[verifier::external_body]
pub(crate) fn diff_workdir<'r>(repo: &'r Repository) -> Result<Diff<'r>, git2::Error> {
    repo.diff_index_to_workdir(None, Some(&mut git2::DiffOptions::new()))
}

/// `Diff::print` in patch format: each line that is handed out, with its
/// origin sign (`DiffLine::origin`) and its content (`DiffLine::content`), in
/// the order of the traversal.
#[verifier::external_body]
pub(crate) fn patch_lines(diff: &Diff<'_>) -> Result<Vec<PatchLine>, git2::Error> {
    let mut lines: Vec<PatchLine> = Vec::new();
    diff.print(
        git2::DiffFormat::Patch,
        |_delta, _hunk, line| {
            lines.push(PatchLine { origin: line.origin(), content: line.content().to_vec() });
            true
        },
    )?;
    Ok(lines)
}

/// `Repository::signature`: the signature that the repository is configured
/// with, at the present time.
#[verifier::external_body]
pub(crate) fn signature_of(repo: &Repository) -> Result<Signature<'static>, git2::Error> {
    repo.signature()
}

/// `Repository::commit`: creates a commit of `tree` with the one parent
/// `parent`, `signature` as author and committer, and the message `message`,
/// then points the reference `update_ref` at it. Gives the commit's id.
#[verifier::external_body]
pub(crate) fn create_commit(
    repo: &Repository,
    update_ref: &str,
    signature: &Signature<'_>,
    message: &str,
    tree: &Tree<'_>,
    parent: &Commit<'_>,
) -> Result<Oid, git2::Error> {
    repo.commit(Some(update_ref), signature, signature, message, tree, &[parent])
}

/// `Oid::as_bytes`: the twenty bytes of the id.
#[verifier::external_body]
pub(crate) fn oid_bytes(id: &Oid) -> (bytes: Vec<u8>)
    ensures
        bytes@.len() == 20,
{
    id.as_bytes().to_vec()
}

} // verus!
