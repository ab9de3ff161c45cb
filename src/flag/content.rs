//! Delivery of the flag as a read-only file.
use crate::error::Error;
use crate::flag::entropy::expands_to;
use crate::flag::volume::{file_name_of, flag_volume_at, flag_volume_is, FlagFileKind, FlagVolume};
use crate::model::ContentFlag;
use vstd::prelude::*;

verus! {

/// Builds the volume and mount of the flag file: the placeholder of the path
/// is expanded, the file is mounted read-only at the expanded path, with mode
/// `0o444` unless the challenge names one.
pub fn build_volume_mount(config: &ContentFlag, _flag: &str) -> (r: Result<FlagVolume, Error>)
    ensures
        exists|p: Seq<char>|
            {
                &&& expands_to(config.path@, p)
                &&& (r is Ok <==> file_name_of(p) is Some)
                &&& (r matches Ok(v) ==> flag_volume_is(v, FlagFileKind::Content, config.mode, p, file_name_of(p)->0))
            },
        r matches Err(e) ==> e is FlagGenerationError,
{
    flag_volume_at(FlagFileKind::Content, config.path.as_str(), config.mode)
}

} // verus!
