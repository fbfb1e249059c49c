//! The calls into git2. What they return depends on the repository on disk
//! and on the network, so their contracts promise nothing about the outcome.
use vstd::prelude::*;

verus! {

#[verifier::external_type_specification]
#[verifier::external_body]
pub struct ExRepository(git2::Repository);

#[verifier::external_type_specification]
#[verifier::external_body]
pub struct ExError(git2::Error);

#[verifier::external_type_specification]
#[verifier::external_body]
pub struct ExRemote<'a>(git2::Remote<'a>);

#[verifier::external_type_specification]
#[verifier::external_body]
pub struct ExReference<'a>(git2::Reference<'a>);

#[verifier::external_type_specification]
#[verifier::external_body]
pub struct ExCommit<'a>(git2::Commit<'a>);

#[verifier::external_type_specification]
#[verifier::external_body]
pub struct ExObject<'a>(git2::Object<'a>);

#[verifier::external_type_specification]
#[verifier::external_body]
pub struct ExTree<'a>(git2::Tree<'a>);

#[verifier::external_type_specification]
#[verifier::external_body]
pub struct ExSignature<'a>(git2::Signature<'a>);

#[verifier::external_type_specification]
#[verifier::external_body]
pub struct ExIndex(git2::Index);

#[verifier::external_type_specification]
#[verifier::external_body]
pub struct ExOid(git2::Oid);

/// Relies on git2::Repository::open: opens the repository at `path`.
#[verifier::external_body]
pub(crate) fn open_repository(path: &str) -> (r: Result<git2::Repository, git2::Error>) {
    git2::Repository::open(path)
}

/// Relies on git2::Repository::clone: clones `url` into the directory `into`.
#[verifier::external_body]
pub(crate) fn clone_repository(url: &str, into: &str) -> (r: Result<
    git2::Repository,
    git2::Error,
>) {
    git2::Repository::clone(url, into)
}

/// Relies on git2::Repository::path: where the repository's git directory lies.
#[verifier::external_body]
pub(crate) fn repository_path(repo: &git2::Repository) -> (r: String) {
    repo.path().to_string_lossy().into_owned()
}

/// Relies on git2::Repository::tag_names: the names of all tags, as bytes.
#[verifier::external_body]
pub(crate) fn tag_names(repo: &git2::Repository) -> (r: Result<Vec<Vec<u8>>, git2::Error>) {
    let names = repo.tag_names(None)?;
    Ok(names.iter_bytes().map(|n| n.to_vec()).collect())
}

/// Relies on git2::Repository::find_remote: the remote called `name`.
#[verifier::external_body]
pub(crate) fn find_remote<'a>(repo: &'a git2::Repository, name: &str) -> (r: Result<
    git2::Remote<'a>,
    git2::Error,
>) {
    repo.find_remote(name)
}

/// Relies on git2::Remote::url: the remote's fetch URL.
#[verifier::external_body]
pub(crate) fn remote_url(remote: &git2::Remote) -> (r: Result<String, git2::Error>) {
    remote.url().map(|u| u.to_string())
}

/// Relies on git2::Remote::push: pushes `refspec` with default options.
#[verifier::external_body]
pub(crate) fn push(remote: &mut git2::Remote, refspec: &str) -> (r: Result<(), git2::Error>) {
    remote.push(&[refspec], None)
}

/// Relies on git2::Repository::head: the reference HEAD points to.
#[verifier::external_body]
pub(crate) fn head<'a>(repo: &'a git2::Repository) -> (r: Result<
    git2::Reference<'a>,
    git2::Error,
>) {
    repo.head()
}

/// Relies on git2::Reference::peel_to_commit: the commit a reference leads to.
#[verifier::external_body]
pub(crate) fn peel_to_commit<'a>(reference: &git2::Reference<'a>) -> (r: Result<
    git2::Commit<'a>,
    git2::Error,
>) {
    reference.peel_to_commit()
}

/// Relies on git2::Repository::branch: creates branch `name` at `target`;
/// without `force` it fails if the branch exists.
#[verifier::external_body]
pub(crate) fn branch(repo: &git2::Repository, name: &str, target: &git2::Commit, force: bool) -> (r:
    Result<(), git2::Error>) {
    repo.branch(name, target, force).map(|_| ())
}

/// Relies on git2::Repository::revparse_single: the object `spec` names.
#[verifier::external_body]
pub(crate) fn revparse_single<'a>(repo: &'a git2::Repository, spec: &str) -> (r: Result<
    git2::Object<'a>,
    git2::Error,
>) {
    repo.revparse_single(spec)
}

/// Relies on git2::Repository::checkout_tree: updates the working tree to
/// `target` with default (safe) options.
#[verifier::external_body]
pub(crate) fn checkout_tree(repo: &git2::Repository, target: &git2::Object) -> (r: Result<
    (),
    git2::Error,
>) {
    repo.checkout_tree(target, None)
}

/// Relies on git2::Repository::set_head: points HEAD at `refname`.
#[verifier::external_body]
pub(crate) fn set_head(repo: &git2::Repository, refname: &str) -> (r: Result<(), git2::Error>) {
    repo.set_head(refname)
}

/// Relies on git2::Repository::signature: the configured user, now.
#[verifier::external_body]
pub(crate) fn signature(repo: &git2::Repository) -> (r: Result<
    git2::Signature<'static>,
    git2::Error,
>) {
    repo.signature()
}

/// Relies on git2::Repository::index: the repository's index.
#[verifier::external_body]
pub(crate) fn index(repo: &git2::Repository) -> (r: Result<git2::Index, git2::Error>) {
    repo.index()
}

/// Relies on git2::Index::write_tree: writes the index as a tree.
#[verifier::external_body]
pub(crate) fn write_tree(index: &mut git2::Index) -> (r: Result<git2::Oid, git2::Error>) {
    index.write_tree()
}

/// Relies on git2::Repository::find_tree: the tree with id `id`.
#[verifier::external_body]
pub(crate) fn find_tree(repo: &git2::Repository, id: git2::Oid) -> (r: Result<
    git2::Tree<'_>,
    git2::Error,
>) {
    repo.find_tree(id)
}

/// Relies on git2::Repository::commit: records `tree` as a commit on top of
/// `parent`, by `signature` as author and committer, and moves `update_ref`
/// to it.
#[verifier::external_body]
pub(crate) fn commit(
    repo: &git2::Repository,
    update_ref: &str,
    signature: &git2::Signature,
    message: &str,
    tree: &git2::Tree,
    parent: &git2::Commit,
) -> (r: Result<(), git2::Error>) {
    repo.commit(Some(update_ref), signature, signature, message, tree, &[parent]).map(|_| ())
}

/// Relies on git2::Repository::tag_lightweight: tags `target` as `name`;
/// without `force` it fails if the tag exists.
#[verifier::external_body]
pub(crate) fn tag_lightweight(
    repo: &git2::Repository,
    name: &str,
    target: &git2::Object,
    force: bool,
) -> (r: Result<(), git2::Error>) {
    repo.tag_lightweight(name, target, force).map(|_| ())
}

} // verus!
