//! The volume and mount that place a flag file inside a container.
use crate::error::Error;
use crate::flag::entropy::{expands_to, substitute_entropy};
use crate::text::owned;
use vstd::prelude::*;

verus! {

/// Which flag file a volume carries.
#[derive(PartialEq, Eq, Structural, Clone, Copy, Debug)]
pub enum FlagFileKind {
    /// The flag text followed by a newline.
    Content,
    /// An executable that prints the flag.
    Executable,
}

/// A config map volume holding one flag file, and its read-only mount.
#[derive(Clone, Debug)]
pub struct FlagVolume {
    pub volume_name: String,
    pub config_map_name: String,
    /// Key of the file in the config map.
    pub key: String,
    /// Name of the file inside the volume.
    pub file_name: String,
    pub item_mode: Option<u32>,
    pub default_mode: u32,
    pub mount_path: String,
    pub sub_path: String,
    pub read_only: bool,
}

pub const CONTENT_NAME: &'static str = "flag-content";
pub const EXECUTABLE_NAME: &'static str = "flag-executable";
pub const CONTENT_KEY: &'static str = "content";
pub const EXECUTABLE_KEY: &'static str = "executable";

/// `r--r--r--`.
pub const CONTENT_MODE: u32 = 0o444;

/// `r-xr-xr-x`.
pub const EXECUTABLE_MODE: u32 = 0o555;

/// Name of the config map and of the volume of a flag file.
pub open spec fn config_map_name(kind: FlagFileKind) -> Seq<char> {
    match kind {
        FlagFileKind::Content => CONTENT_NAME@,
        FlagFileKind::Executable => EXECUTABLE_NAME@,
    }
}

/// Key of a flag file in its config map.
pub open spec fn file_key(kind: FlagFileKind) -> Seq<char> {
    match kind {
        FlagFileKind::Content => CONTENT_KEY@,
        FlagFileKind::Executable => EXECUTABLE_KEY@,
    }
}

/// File mode of a flag file when the challenge names none.
pub open spec fn default_file_mode(kind: FlagFileKind) -> u32 {
    match kind {
        FlagFileKind::Content => CONTENT_MODE,
        FlagFileKind::Executable => EXECUTABLE_MODE,
    }
}

/// Whether `v` mounts the flag file of `kind` read-only at `mount_path`,
/// showing only `file_name`, with the file mode `mode` or else the default.
pub open spec fn flag_volume_is(
    v: FlagVolume,
    kind: FlagFileKind,
    mode: Option<u32>,
    mount_path: Seq<char>,
    file_name: Seq<char>,
) -> bool {
    &&& v.volume_name@ == config_map_name(kind)
    &&& v.config_map_name@ == config_map_name(kind)
    &&& v.key@ == file_key(kind)
    &&& v.file_name@ == file_name
    &&& v.item_mode == mode
    &&& v.default_mode == match mode {
        Some(m) => m,
        None => default_file_mode(kind),
    }
    &&& v.mount_path@ == mount_path
    &&& v.sub_path@ == file_name
    &&& v.read_only
}

/// The last component of a path, if it has one that is valid text.
pub uninterp spec fn file_name_of(path: Seq<char>) -> Option<Seq<char>>;

/// Relies on std's `Path::file_name` (then `OsStr::to_str`): the result
/// depends on the path text alone.
#[verifier::external_body]
fn path_file_name(path: &str) -> (r: Option<String>)
    ensures
        r is Some == file_name_of(path@) is Some,
        r matches Some(f) ==> file_name_of(path@) == Some(f@),
{
    std::path::Path::new(path).file_name().and_then(|n| n.to_str()).map(|n| n.to_string())
}

/// The volume and mount of a flag file at `mount_path`, named `file_name`.
pub fn flag_volume(kind: FlagFileKind, mode: Option<u32>, mount_path: String, file_name: &str) -> (r: FlagVolume)
    ensures
        flag_volume_is(r, kind, mode, mount_path@, file_name@),
{
    let name = match kind {
        FlagFileKind::Content => CONTENT_NAME,
        FlagFileKind::Executable => EXECUTABLE_NAME,
    };
    let key = match kind {
        FlagFileKind::Content => CONTENT_KEY,
        FlagFileKind::Executable => EXECUTABLE_KEY,
    };
    let default_mode = match mode {
        Some(m) => m,
        None => match kind {
            FlagFileKind::Content => CONTENT_MODE,
            FlagFileKind::Executable => EXECUTABLE_MODE,
        },
    };
    FlagVolume {
        volume_name: owned(name),
        config_map_name: owned(name),
        key: owned(key),
        file_name: owned(file_name),
        item_mode: mode,
        default_mode,
        mount_path,
        sub_path: owned(file_name),
        read_only: true,
    }
}

/// Expands the placeholder of `path` and builds the volume of a flag file
/// there; fails when the expanded path has no file name.
pub fn flag_volume_at(kind: FlagFileKind, path: &str, mode: Option<u32>) -> (r: Result<FlagVolume, Error>)
    ensures
        exists|p: Seq<char>|
            {
                &&& expands_to(path@, p)
                &&& (r is Ok <==> file_name_of(p) is Some)
                &&& (r matches Ok(v) ==> flag_volume_is(v, kind, mode, p, file_name_of(p)->0))
            },
        r matches Err(e) ==> e is FlagGenerationError,
{
    let expanded = substitute_entropy(path);
    match path_file_name(expanded.as_str()) {
        Some(f) => Ok(flag_volume(kind, mode, expanded, f.as_str())),
        None => Err(Error::FlagGenerationError(owned("Invalid path"))),
    }
}

} // verus!
