//! The name of the namespace that holds an instance's resources.
use vstd::prelude::*;

verus! {

/// The longest name a namespace may have.
pub const NAME_LIMIT: usize = 63;

/// How many characters of the challenge name fit beside the prefix, the owner
/// id and the two separators.
pub open spec fn kept_name_len(prefix_len: nat, name_len: nat, id_len: nat) -> nat {
    if prefix_len + id_len + 2 >= NAME_LIMIT {
        0
    } else if name_len > NAME_LIMIT - (prefix_len + id_len + 2) {
        (NAME_LIMIT - (prefix_len + id_len + 2)) as nat
    } else {
        name_len
    }
}

/// `{prefix}-{name}-{id}`, with the challenge name cut short so that the whole
/// fits in `NAME_LIMIT` characters.
pub open spec fn namespace_name(prefix: Seq<char>, name: Seq<char>, id: Seq<char>) -> Seq<char> {
    prefix + seq!['-'] + name.subrange(0, kept_name_len(prefix.len(), name.len(), id.len()) as int)
        + seq!['-'] + id
}

/// Builds the namespace name of an instance from the configured prefix, the
/// challenge name and the owner id.
pub fn generate_namespace_name(namespace_prefix: &str, challenge_name: &str, id: &str) -> (r: String)
    ensures
        r@ == namespace_name(namespace_prefix@, challenge_name@, id@),
{
    let p = namespace_prefix.unicode_len();
    let n = challenge_name.unicode_len();
    let i = id.unicode_len();
    let keep: usize = if p >= NAME_LIMIT - 2 || i >= NAME_LIMIT - 2 - p {
        0
    } else if n > NAME_LIMIT - 2 - p - i {
        NAME_LIMIT - 2 - p - i
    } else {
        n
    };
    let cut = challenge_name.substring_char(0, keep);
    let r = String::from_str(namespace_prefix).concat("-").concat(cut).concat("-").concat(id);
    proof {
        reveal_strlit("-");
    }
    r
}

/// For a prefix and an owner id that leave room for the separators, the name
/// is at most `NAME_LIMIT` characters long, starts with `{prefix}-` and ends
/// with `-{id}`.
pub proof fn namespace_name_shape(prefix: Seq<char>, name: Seq<char>, id: Seq<char>)
    requires
        prefix.len() + id.len() + 2 <= NAME_LIMIT,
    ensures
        namespace_name(prefix, name, id).len() <= NAME_LIMIT,
        namespace_name(prefix, name, id).subrange(0, prefix.len() + 1 as int) == prefix + seq!['-'],
        namespace_name(prefix, name, id).subrange(
            namespace_name(prefix, name, id).len() - id.len() - 1,
            namespace_name(prefix, name, id).len() as int,
        ) == seq!['-'] + id,
{
    let r = namespace_name(prefix, name, id);
    let k = kept_name_len(prefix.len(), name.len(), id.len());
    assert(r.len() == prefix.len() + k + id.len() + 2);
    assert(r.subrange(0, prefix.len() + 1 as int) =~= prefix + seq!['-']);
    assert(r.subrange(r.len() - id.len() - 1, r.len() as int) =~= seq!['-'] + id);
}

} // verus!
