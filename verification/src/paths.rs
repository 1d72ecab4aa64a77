//! Where a vault and its items live on disk.
//!
//! Paths are held as text. Joining and taking paths apart is left to
//! `std::path`, so the layout follows the rules of the platform the crate is
//! built for.

use vstd::prelude::*;
use vstd::string::StrSliceExecFns;

verus! {

/// The path `std::path` gives for `child` adjoined to `base`.
pub uninterp spec fn joined_path(base: Seq<char>, child: Seq<char>) -> Seq<char>;

/// The path of the directory that holds `path`, if `std::path` finds one.
pub uninterp spec fn parent_path(path: Seq<char>) -> Option<Seq<char>>;

/// The file name of `path` without its extension, if `path` has a file name.
pub uninterp spec fn file_stem_of(path: Seq<char>) -> Option<Seq<char>>;

/// The extension of the file name of `path`, without the dot, if it has one.
pub uninterp spec fn extension_of(path: Seq<char>) -> Option<Seq<char>>;

/// `Path::join` of std, on paths given and returned as text. The result
/// depends on the two texts alone.
#[verifier::external_body]
pub(crate) fn path_join(base: &str, child: &str) -> (joined: String)
    ensures
        joined@ == joined_path(base@, child@),
{
    std::path::Path::new(base).join(child).to_string_lossy().into_owned()
}

/// `Path::parent` of std, on a path given as text. The result depends on the
/// text alone.
#[verifier::external_body]
pub(crate) fn path_parent(path: &str) -> (parent: Option<String>)
    ensures
        crate::record::opt_text(parent) == parent_path(path@),
{
    match std::path::Path::new(path).parent() {
        Some(p) => Some(p.to_string_lossy().into_owned()),
        None => None,
    }
}

/// `Path::file_stem` of std, on a path given as text. The result depends on
/// the text alone.
#[verifier::external_body]
pub(crate) fn path_file_stem(path: &str) -> (stem: Option<String>)
    ensures
        crate::record::opt_text(stem) == file_stem_of(path@),
{
    match std::path::Path::new(path).file_stem() {
        Some(p) => Some(p.to_string_lossy().into_owned()),
        None => None,
    }
}

/// `Path::extension` of std, on a path given as text. The result depends on
/// the text alone.
#[verifier::external_body]
pub(crate) fn path_extension(path: &str) -> (extension: Option<String>)
    ensures
        crate::record::opt_text(extension) == extension_of(path@),
{
    match std::path::Path::new(path).extension() {
        Some(p) => Some(p.to_string_lossy().into_owned()),
        None => None,
    }
}

/// Whether `path` starts with `~/`.
pub open spec fn is_home_relative(path: Seq<char>) -> bool {
    path.len() >= 2 && path[0] == '~' && path[1] == '/'
}

/// `path` with a leading `~/` replaced by the home directory. Any other
/// path, and any path when no home directory is known, stays as it is.
pub open spec fn expanded_path(path: Seq<char>, home: Option<Seq<char>>) -> Seq<char> {
    match home {
        Some(h) if is_home_relative(path) => joined_path(h, path.skip(2)),
        _ => path,
    }
}

/// Expands a leading `~/` to the home directory `home`.
pub fn expand_tilde_path(path: &str, home: Option<&str>) -> (expanded: String)
    ensures
        expanded@ == expanded_path(
            path@,
            match home {
                Some(h) => Some(h@),
                None => None,
            },
        ),
{
    let n = path.unicode_len();
    if n >= 2 && path.get_char(0) == '~' && path.get_char(1) == '/' {
        if let Some(h) = home {
            let rest = path.substring_char(2, n);
            assert(rest@ == path@.skip(2));
            return path_join(h, rest);
        }
    }
    path.to_owned()
}

/// The name of the directory that holds a vault, below the base path.
pub open spec fn vault_dir_name() -> Seq<char> {
    "video-transcriber-vault"@
}

/// The name of the store file, inside the vault directory.
pub open spec fn store_file_name() -> Seq<char> {
    "vault.toml"@
}

/// The vault directory below `base_path`.
pub fn get_vault_path(base_path: &str) -> (vault_path: String)
    ensures
        vault_path@ == joined_path(base_path@, vault_dir_name()),
{
    path_join(base_path, "video-transcriber-vault")
}

/// The store file of the vault at `vault_path`.
pub fn get_vault_config_path(vault_path: &str) -> (config_path: String)
    ensures
        config_path@ == joined_path(vault_path@, store_file_name()),
{
    path_join(vault_path, "vault.toml")
}

/// The directory of the item `video_id` in the vault at `vault_path`.
pub fn get_video_dir_path(vault_path: &str, video_id: &str) -> (video_dir: String)
    ensures
        video_dir@ == joined_path(vault_path@, video_id@),
{
    path_join(vault_path, video_id)
}

} // verus!
