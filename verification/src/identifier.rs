//! The 128-bit identifiers that stand for verbs on the wire and that number
//! requests.

use vstd::prelude::*;
use vstd::string::StringExecFns;

verus! {

/// The identifier with every bit clear. It is set aside for the knock and is
/// never derived.
pub const NIL_IDENTIFIER: u128 = 0;

/// The bits of an identifier that hold its version (four bits) and its variant
/// (two bits).
pub const LAYOUT_MASK: u128 = 0x0000_0000_0000_f000_c000_0000_0000_0000;

/// The layout bits of a name-based identifier: version 5, variant `10`.
pub const NAME_BASED_LAYOUT: u128 = 0x0000_0000_0000_5000_8000_0000_0000_0000;

/// The layout bits of a random identifier: version 4, variant `10`.
pub const RANDOM_LAYOUT: u128 = 0x0000_0000_0000_4000_8000_0000_0000_0000;

/// The character between the verb and the token in a name.
pub const NAME_SEPARATOR: &'static str = "_";

/// `id` carries the version and variant of a name-based identifier.
pub open spec fn is_name_based(id: u128) -> bool {
    id & LAYOUT_MASK == NAME_BASED_LAYOUT
}

/// `id` carries the version and variant of a random identifier.
pub open spec fn is_random(id: u128) -> bool {
    id & LAYOUT_MASK == RANDOM_LAYOUT
}

/// `raw` with its layout bits replaced by those of a name-based identifier.
pub open spec fn with_name_based_layout(raw: u128) -> u128 {
    (raw & !LAYOUT_MASK) | NAME_BASED_LAYOUT
}

/// What the name-based hash over the object-identifier namespace gives for
/// `name`. Nothing is stated of it but that it depends on the name alone and,
/// where it is computed, that it has the name-based layout.
pub uninterp spec fn name_based_identifier(name: Seq<char>) -> u128;

/// The name that is hashed for a verb under a token: the verb, the separator,
/// the token.
pub open spec fn wire_name(verb: Seq<char>, token: Seq<char>) -> Seq<char> {
    verb + NAME_SEPARATOR@ + token
}

/// The identifier that `name` derives. The hash sets the layout bits itself, so
/// this is its result as it stands; spelling the layout out makes it known of
/// every name, hashed or not.
pub open spec fn derived_identifier(name: Seq<char>) -> u128 {
    with_name_based_layout(name_based_identifier(name))
}

/// Setting the name-based layout yields a name-based identifier, which is never
/// the nil one, and leaves a name-based identifier as it is.
pub proof fn lemma_name_based_layout(raw: u128)
    ensures
        is_name_based(with_name_based_layout(raw)),
        with_name_based_layout(raw) != NIL_IDENTIFIER,
        is_name_based(raw) ==> with_name_based_layout(raw) == raw,
{
    assert(((raw & !0x0000_0000_0000_f000_c000_0000_0000_0000u128)
        | 0x0000_0000_0000_5000_8000_0000_0000_0000u128)
        & 0x0000_0000_0000_f000_c000_0000_0000_0000u128
        == 0x0000_0000_0000_5000_8000_0000_0000_0000u128) by (bit_vector);
    assert(((raw & !0x0000_0000_0000_f000_c000_0000_0000_0000u128)
        | 0x0000_0000_0000_5000_8000_0000_0000_0000u128) != 0u128) by (bit_vector);
    assert(raw & 0x0000_0000_0000_f000_c000_0000_0000_0000u128
        == 0x0000_0000_0000_5000_8000_0000_0000_0000u128 ==> ((raw
        & !0x0000_0000_0000_f000_c000_0000_0000_0000u128)
        | 0x0000_0000_0000_5000_8000_0000_0000_0000u128) == raw) by (bit_vector);
}

/// A random identifier is never the nil one, nor a name-based one.
pub proof fn lemma_random_layout(id: u128)
    requires
        is_random(id),
    ensures
        id != NIL_IDENTIFIER,
        !is_name_based(id),
{
    assert(id & 0x0000_0000_0000_f000_c000_0000_0000_0000u128
        == 0x0000_0000_0000_4000_8000_0000_0000_0000u128 ==> id != 0u128) by (bit_vector);
}

/// Hashes `name` with `uuid::Uuid::new_v5` under `uuid::Uuid::NAMESPACE_OID`
/// and hands the identifier back as one number, most significant byte first.
/// Trusted: that the result is a function of the name (the hash is SHA-1 over
/// the namespace and the name's bytes, with no other input), and that it has
/// version 5 and the variant `10`, which the builder stamps on every digest.
#[verifier::external_body]
fn hash_name(name: &str) -> (id: u128)
    ensures
        id == name_based_identifier(name@),
        is_name_based(id),
{
    uuid::Uuid::new_v5(&uuid::Uuid::NAMESPACE_OID, name.as_bytes()).as_u128()
}

/// Draws a random identifier with `uuid::Uuid::new_v4`. Trusted: only that the
/// result has version 4 and the variant `10`, which the call masks into
/// whatever the generator returned. Two calls are not known to differ.
#[verifier::external_body]
fn random_identifier() -> (id: u128)
    ensures
        is_random(id),
{
    uuid::Uuid::new_v4().as_u128()
}

/// The identifier that stands for `verb` under the secret `token`: the
/// name-based hash, over the object-identifier namespace
/// `6ba7b812-9dad-11d1-80b4-00c04fd430c8`, of the verb, the separator and the
/// token, each as UTF-8. Both sides of a connection compute it alike; any
/// change to the namespace, the separator or the encoding changes every
/// identifier.
pub fn derive_identifier(verb: &str, token: &str) -> (id: u128)
    ensures
        id == derived_identifier(wire_name(verb@, token@)),
        is_name_based(id),
        id != NIL_IDENTIFIER,
{
    let name = String::from_str(verb).concat(NAME_SEPARATOR).concat(token);
    let id = hash_name(name.as_str());
    proof {
        lemma_name_based_layout(id);
    }
    id
}

/// A fresh identifier for a request. It is random, so nothing but its layout is
/// known of it.
pub fn fresh_identifier() -> (id: u128)
    ensures
        is_random(id),
        id != NIL_IDENTIFIER,
{
    let id = random_identifier();
    proof {
        lemma_random_layout(id);
    }
    id
}

} // verus!
