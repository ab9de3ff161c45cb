//! The config maps that carry file-based flags.
use crate::error::Error;
use crate::flag::executable::{elf_image, generate_elf_executable, utf8, MAX_FLAG_BYTES};
use crate::flag::volume::{CONTENT_KEY, CONTENT_NAME, EXECUTABLE_KEY, EXECUTABLE_NAME};
use crate::labels::{COMPONENT, MANAGED_BY, MANAGER};
use crate::model::DynamicFlag;
use crate::text::{join2, owned, pair, pairs_view};
use vstd::prelude::*;

verus! {

/// A config map holding one flag file, as text or as bytes.
#[derive(Clone, Debug)]
pub struct FlagConfigMap {
    pub name: String,
    pub namespace: String,
    pub labels: Vec<(String, String)>,
    pub key: String,
    pub text: Option<String>,
    pub binary: Option<Vec<u8>>,
}

/// Labels of a flag config map: the manager and its role.
pub open spec fn flag_labels_of(component: Seq<char>) -> Seq<(Seq<char>, Seq<char>)> {
    seq![(MANAGED_BY@, MANAGER@), (COMPONENT@, component)]
}

/// Whether `m` is the config map `flag-content` whose key `content` holds the
/// flag followed by a newline.
pub open spec fn content_map_is(m: FlagConfigMap, flag: Seq<char>, namespace: Seq<char>) -> bool {
    &&& m.name@ == CONTENT_NAME@
    &&& m.namespace@ == namespace
    &&& pairs_view(m.labels@) == flag_labels_of(CONTENT_NAME@)
    &&& m.key@ == CONTENT_KEY@
    &&& m.text matches Some(t) && t@ == flag + seq!['\n']
    &&& m.binary is None
}

/// Whether `m` is the config map `flag-executable` whose binary key
/// `executable` holds the executable that prints the flag.
pub open spec fn executable_map_is(m: FlagConfigMap, flag: Seq<char>, namespace: Seq<char>) -> bool {
    &&& m.name@ == EXECUTABLE_NAME@
    &&& m.namespace@ == namespace
    &&& pairs_view(m.labels@) == flag_labels_of(EXECUTABLE_NAME@)
    &&& m.key@ == EXECUTABLE_KEY@
    &&& m.text is None
    &&& m.binary matches Some(b) && b@ == elf_image(utf8(flag))
}

fn flag_labels(component: &str) -> (r: Vec<(String, String)>)
    ensures
        pairs_view(r@) == flag_labels_of(component@),
{
    let mut labels: Vec<(String, String)> = Vec::new();
    labels.push(pair(MANAGED_BY, MANAGER));
    labels.push(pair(COMPONENT, component));
    proof {
        assert(pairs_view(labels@) =~= flag_labels_of(component@));
    }
    labels
}

/// The config maps of a container's file-based flags: `flag-content` when
/// the flag comes as a file, then `flag-executable` when it comes as an
/// executable. Fails only when the flag is too long for the executable.
pub fn build_flag_configmaps(flag: &str, dynamic_flag: &DynamicFlag, namespace: &str) -> (r: Result<Vec<FlagConfigMap>, Error>)
    ensures
        r is Err <==> (dynamic_flag.executable is Some && utf8(flag@).len() > MAX_FLAG_BYTES),
        r matches Err(e) ==> e is FlagGenerationError,
        r matches Ok(maps) ==> {
            let n = if dynamic_flag.content is Some { 1int } else { 0int };
            &&& maps@.len() == n + if dynamic_flag.executable is Some { 1int } else { 0int }
            &&& dynamic_flag.content is Some ==> content_map_is(maps@[0], flag@, namespace@)
            &&& dynamic_flag.executable is Some ==> executable_map_is(maps@[n], flag@, namespace@)
        },
{
    let mut maps: Vec<FlagConfigMap> = Vec::new();
    if dynamic_flag.content.is_some() {
        let text = join2(flag, "\n");
        proof {
            reveal_strlit("\n");
            assert("\n"@ =~= seq!['\n']);
        }
        maps.push(FlagConfigMap {
            name: owned(CONTENT_NAME),
            namespace: owned(namespace),
            labels: flag_labels(CONTENT_NAME),
            key: owned(CONTENT_KEY),
            text: Some(text),
            binary: None,
        });
        assert(content_map_is(maps@[0], flag@, namespace@));
    }
    if dynamic_flag.executable.is_some() {
        let image = match generate_elf_executable(flag) {
            Ok(image) => image,
            Err(e) => {
                return Err(e);
            },
        };
        maps.push(FlagConfigMap {
            name: owned(EXECUTABLE_NAME),
            namespace: owned(namespace),
            labels: flag_labels(EXECUTABLE_NAME),
            key: owned(EXECUTABLE_KEY),
            text: None,
            binary: Some(image),
        });
    }
    Ok(maps)
}

} // verus!
