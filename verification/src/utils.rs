//! The digests that key the function tables.

use vstd::prelude::*;
use vstd::string::StringSliceAdditionalSpecFns;
use vstd::wrapping::u64_specs::wrapping_mul;
use crate::any::{Dynamic, values_of, type_ids_of};

verus! {

/// The digest of nothing.
pub const HASH_SEED: u64 = 0xcbf29ce484222325;

/// The factor by which a digest is stirred after each item.
pub const HASH_FACTOR: u64 = 0x100000001b3;

/// The digest `h` after one more item.
pub open spec fn mix(h: u64, item: u64) -> u64 {
    wrapping_mul(h ^ item, HASH_FACTOR)
}

/// The digest `h` after the given bytes, in order.
pub open spec fn mix_bytes(h: u64, bytes: Seq<u8>) -> u64
    decreases bytes.len(),
{
    if bytes.len() == 0 {
        h
    } else {
        mix(mix_bytes(h, bytes.drop_last()), bytes.last() as u64)
    }
}

/// The digest `h` after the given words, in order.
pub open spec fn mix_words(h: u64, words: Seq<u64>) -> u64
    decreases words.len(),
{
    if words.len() == 0 {
        h
    } else {
        mix(mix_words(h, words.drop_last()), words.last())
    }
}

/// The digest of a name.
pub open spec fn name_hash(name: Seq<char>) -> u64 {
    mix_bytes(HASH_SEED, vstd::utf8::encode_utf8(name))
}

/// The digest of a function name with the type identities of its parameters:
/// the key of a native function.
pub open spec fn fn_hash(name: Seq<char>, type_ids: Seq<u64>) -> u64 {
    mix_words(name_hash(name), type_ids)
}

/// The digest of a function name with the number of its parameters: the key
/// of a script-defined function.
pub open spec fn fn_def_hash(name: Seq<char>, num_params: nat) -> u64 {
    mix(name_hash(name), num_params as u64)
}

fn stir(h: u64, item: u64) -> (r: u64)
    ensures
        r == mix(h, item),
{
    (h ^ item).wrapping_mul(HASH_FACTOR)
}

fn hash_name(name: &str) -> (h: u64)
    ensures
        h == name_hash(name@),
{
    let bytes = name.as_bytes();
    let mut h: u64 = HASH_SEED;
    let mut i: usize = 0;
    while i < bytes.len()
        invariant
            i <= bytes.len(),
            h == mix_bytes(HASH_SEED, bytes@.subrange(0, i as int)),
        decreases bytes.len() - i,
    {
        assert(bytes@.subrange(0, i + 1).drop_last() =~= bytes@.subrange(0, i as int));
        h = stir(h, bytes[i] as u64);
        i += 1;
    }
    assert(bytes@.subrange(0, i as int) =~= bytes@);
    h
}

/// Calculate a `u64` digest key from a function name and the type identities
/// of its parameters.
pub fn calc_fn_hash(fn_name: &str, type_ids: &Vec<u64>) -> (h: u64)
    ensures
        h == fn_hash(fn_name@, type_ids@),
{
    let mut h: u64 = hash_name(fn_name);
    let mut i: usize = 0;
    while i < type_ids.len()
        invariant
            i <= type_ids.len(),
            h == mix_words(name_hash(fn_name@), type_ids@.subrange(0, i as int)),
        decreases type_ids.len() - i,
    {
        assert(type_ids@.subrange(0, i + 1).drop_last() =~= type_ids@.subrange(0, i as int));
        h = stir(h, type_ids[i]);
        i += 1;
    }
    assert(type_ids@.subrange(0, i as int) =~= type_ids@);
    h
}

/// Calculate a `u64` digest key from a function name and the type identities
/// of the given arguments.
pub fn calc_fn_spec(fn_name: &str, args: &Vec<Dynamic>) -> (h: u64)
    ensures
        h == fn_hash(fn_name@, type_ids_of(values_of(args@))),
{
    let mut ids: Vec<u64> = Vec::new();
    let mut i: usize = 0;
    while i < args.len()
        invariant
            i <= args.len(),
            ids.len() == i,
            forall|j: int| 0 <= j < i ==> ids[j] == args[j]@.type_id(),
        decreases args.len() - i,
    {
        ids.push(args[i].type_id());
        i += 1;
    }
    assert(ids@ =~= type_ids_of(values_of(args@)));
    calc_fn_hash(fn_name, &ids)
}

/// Calculate a `u64` digest key from a function name and its number of parameters.
pub fn calc_fn_def(fn_name: &str, num_params: usize) -> (h: u64)
    ensures
        h == fn_def_hash(fn_name@, num_params as nat),
{
    stir(hash_name(fn_name), num_params as u64)
}

} // verus!
