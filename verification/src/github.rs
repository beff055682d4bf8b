//! The data the repository-hosting API hands back for releases,
//! branches and tags.  The HTTP calls themselves are transport and live
//! in the surrounding application; the library only carries the
//! resolved values — above all the commit hash that becomes part of a
//! source install's entry type.

use vstd::prelude::*;

verus! {

/// One published release of a repository.
#[derive(Debug, Clone)]
pub struct Release {
    pub url: String,
    pub assets_url: String,
    pub upload_url: String,
    pub html_url: String,
    pub id: u64,
    pub node_id: String,
    pub tag_name: String,
    pub name: String,
    pub draft: bool,
    pub prerelease: bool,
    pub created_at: String,
    pub published_at: String,
    pub assets: Vec<Asset>,
    pub tarball_url: String,
    pub zipball_url: String,
    pub body: String,
}

/// One downloadable asset of a release.
#[derive(Debug, Clone)]
pub struct Asset {
    pub url: String,
    pub id: u64,
    pub node_id: String,
    pub name: String,
    pub label: String,
    pub content_type: String,
    pub state: String,
    pub size: u64,
    pub download_count: u64,
    pub created_at: String,
    pub updated_at: String,
    pub browser_download_url: String,
}

/// A repository branch with the commit it points at.
#[derive(Debug, Clone)]
pub struct Branch {
    pub name: String,
    pub commit: Commit,
}

/// A repository tag with the commit it points at.
#[derive(Debug, Clone)]
pub struct Tag {
    pub name: String,
    pub commit: Commit,
}

/// A commit reference.
#[derive(Debug, Clone)]
pub struct Commit {
    pub sha: String,
}

} // verus!
