//! Release configuration and the identifiers a release renders from it.
use vstd::prelude::*;
use crate::sequence::RepoConfig;
use crate::version::{push_version, version_text, VersionUpdate};

verus! {

/// What a release does and how it names what it creates: each identifier is
/// its prefix followed by the text of the new version.
pub struct Config {
    pub repository: RepoConfig,
    pub branch_prefix: String,
    pub commit_prefix: String,
    pub tag_prefix: String,
    /// The remote that branches and tags are pushed to.
    pub remote_name: String,
}

/// `c` is the configuration a new project starts with.
pub open spec fn is_default(c: &Config) -> bool {
    &&& c.repository == (RepoConfig {
        enable_branch: true,
        enable_commit: true,
        enable_tag: true,
        enable_push: false,
    })
    &&& c.branch_prefix@ == seq!['r', 'e', 'l', 'e', 'a', 's', 'e', '/']
    &&& c.commit_prefix@ == seq!['R', 'e', 'l', 'e', 'a', 's', 'e', ' ']
    &&& c.tag_prefix@ == Seq::<char>::empty()
    &&& c.remote_name@ == seq!['o', 'r', 'i', 'g', 'i', 'n']
}

impl Default for Config {
    /// Branch, commit and tag enabled, push disabled; branches named
    /// `release/<version>`, commits `Release <version>`, tags `<version>`,
    /// pushed to `origin`.
    fn default() -> (r: Config)
        ensures
            is_default(&r),
    {
        proof {
            reveal_strlit("release/");
            reveal_strlit("Release ");
            reveal_strlit("");
            reveal_strlit("origin");
        }
        let r = Config {
            repository: RepoConfig {
                enable_branch: true,
                enable_commit: true,
                enable_tag: true,
                enable_push: false,
            },
            branch_prefix: String::from_str("release/"),
            commit_prefix: String::from_str("Release "),
            tag_prefix: String::from_str(""),
            remote_name: String::from_str("origin"),
        };
        assert(r.branch_prefix@ =~= seq!['r', 'e', 'l', 'e', 'a', 's', 'e', '/']);
        assert(r.commit_prefix@ =~= seq!['R', 'e', 'l', 'e', 'a', 's', 'e', ' ']);
        assert(r.tag_prefix@ =~= Seq::<char>::empty());
        assert(r.remote_name@ =~= seq!['o', 'r', 'i', 'g', 'i', 'n']);
        r
    }
}

/// The identifiers of one release.
pub struct ProjectStrings {
    pub branch_name: String,
    pub commit_message: String,
    pub tag_name: String,
    pub remote_name: String,
}

impl ProjectStrings {
    /// Renders the identifiers of the release that `update` describes.
    pub fn new(config: &Config, update: &VersionUpdate) -> (r: ProjectStrings)
        ensures
            r.branch_name@ == config.branch_prefix@ + version_text(update.new),
            r.commit_message@ == config.commit_prefix@ + version_text(update.new),
            r.tag_name@ == config.tag_prefix@ + version_text(update.new),
            r.remote_name@ == config.remote_name@,
    {
        let mut branch_name = config.branch_prefix.clone();
        push_version(&mut branch_name, update.new);
        let mut commit_message = config.commit_prefix.clone();
        push_version(&mut commit_message, update.new);
        let mut tag_name = config.tag_prefix.clone();
        push_version(&mut tag_name, update.new);
        ProjectStrings {
            branch_name,
            commit_message,
            tag_name,
            remote_name: config.remote_name.clone(),
        }
    }
}

} // verus!
