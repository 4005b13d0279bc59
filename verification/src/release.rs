//! The rules by which the assets of a release are laid out for upload: each
//! under its own name, and once more under the name that stands for the
//! latest release.

use crate::text::{from_chars, matches_at, replace_all, replaced, same_text, slice, starts_with, to_chars};
use vstd::prelude::*;
use vstd::string::*;

verus! {

/// What the tag of a release of this application begins with.
pub const RELEASE_TAG_PREFIX: &'static str = "app-v";

/// The word that stands for the version in the names of the latest assets.
pub const LATEST_WORD: &'static str = "latest";

/// The asset that tells the updater where the latest release is.
pub const UPDATER_MANIFEST: &'static str = "latest.json";

/// Where the assets lie when they are published.
pub const PUBLISHED_DOWNLOADS: &'static str =
    "https://github.com/monk-io/sonaric-desktop/releases/download/";

/// Where the assets lie once they are uploaded.
pub const UPLOADED_DOWNLOADS: &'static str = "https://storage.googleapis.com/sonaric-releases/desktop/";

/// Where the releases are asked for.
pub const RELEASES_URL: &'static str =
    "https://api.github.com/repos/monk-io/sonaric-desktop/releases/tags/";

/// The directory in which the assets are laid out.
pub const UPLOAD_DIR: &'static str = "./upload/";

/// The version that the tag `tag` names: what follows the prefix of release
/// tags. A tag without the prefix names none.
pub open spec fn tagged_version(tag: Seq<char>) -> Option<Seq<char>> {
    if starts_with(tag, RELEASE_TAG_PREFIX@) {
        Some(tag.subrange(RELEASE_TAG_PREFIX@.len() as int, tag.len() as int))
    } else {
        None
    }
}

/// The version that the tag `tag` names.
pub fn release_version(tag: &str) -> (r: Option<String>)
    ensures
        match r {
            Some(v) => tagged_version(tag@) == Some(v@),
            None => tagged_version(tag@) is None,
        },
{
    let chars = to_chars(tag);
    let prefix = to_chars(RELEASE_TAG_PREFIX);
    if matches_at(&chars, &prefix, 0) {
        Some(from_chars(&slice(&chars, prefix.len(), chars.len())))
    } else {
        None
    }
}

/// The name of the asset `name` of the release of `version` as the latest
/// one: the version in it gives way to the word `latest`, wherever it
/// stands.
pub fn latest_name(name: &str, version: &str) -> (r: String)
    ensures
        r@ == replaced(name@, version@, LATEST_WORD@),
{
    replace_all(name, version, LATEST_WORD)
}

/// The content of the updater's manifest for the uploaded assets: every
/// address of a published asset becomes the address of the uploaded one.
pub fn rebase_downloads(content: &str) -> (r: String)
    ensures
        r@ == replaced(content@, PUBLISHED_DOWNLOADS@, UPLOADED_DOWNLOADS@),
{
    replace_all(content, PUBLISHED_DOWNLOADS, UPLOADED_DOWNLOADS)
}

/// Whether the asset `name` is the updater's manifest.
pub fn is_updater_manifest(name: &str) -> (r: bool)
    ensures
        r == (name@ == UPDATER_MANIFEST@),
{
    same_text(name, UPDATER_MANIFEST)
}

/// The address at which the release with the tag `tag` is asked for.
pub fn release_url(tag: &str) -> (r: String)
    ensures
        r@ == RELEASES_URL@ + tag@,
{
    let mut r = RELEASES_URL.to_owned();
    r.append(tag);
    r
}

/// Where the asset `name` of the release with the tag `tag` is laid down.
pub fn upload_path(tag: &str, name: &str) -> (r: String)
    ensures
        r@ == UPLOAD_DIR@ + tag@ + "/"@ + name@,
{
    let mut r = UPLOAD_DIR.to_owned();
    r.append(tag);
    r.append("/");
    r.append(name);
    r
}

/// Where an asset is laid down under its name as the latest one.
pub fn latest_path(latest_name: &str) -> (r: String)
    ensures
        r@ == UPLOAD_DIR@ + latest_name@,
{
    let mut r = UPLOAD_DIR.to_owned();
    r.append(latest_name);
    r
}

} // verus!
