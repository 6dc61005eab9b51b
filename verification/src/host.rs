//! The host values that a match is stored in, and the host calls that the
//! match makes on them. Nothing in this file is proved: each function states
//! what `soroban_sdk` does, and the rest of the crate is proved from that.
//!
//! A host vector or byte string is a handle to a value that the host never
//! changes: an update yields a new value under a new handle. What a handle
//! holds is therefore a function of the handle, which is what `mask_cells`,
//! `history_shape`, `digest_bytes` and `proof_bytes` stand for.
//!
//! The host does not promise that the items of a vector are of its item
//! type: a handle can be given any item type, and reading an item as what it
//! is not can end the invocation. Every call here that reads an item as a value
//! of the item type therefore asks that the items are of that type.
//! `mask_typed` says so of a mask, and `mask_to_vec` decides it. Of a history
//! nothing is taken on trust: `history_shape` is what its items are found to
//! be when each is looked at part by part, `history_raw` reads just that, and
//! `history_typed` and `history_entries` are defined over it.
//!
//! Host calls are metered: one that exhausts the host's budget ends the
//! invocation, as running out of memory would.

use soroban_sdk::TryFromVal;
use vstd::prelude::*;

verus! {

/// `soroban_sdk::Env`, the handle to the host; nothing is known of it.
#[verifier::external_type_specification]
#[verifier::external_body]
pub struct ExEnv(soroban_sdk::Env);

/// `soroban_sdk::Vec`, a vector kept by the host.
#[verifier::external_type_specification]
#[verifier::external_body]
#[verifier::reject_recursive_types(T)]
pub struct ExHostVec<T>(soroban_sdk::Vec<T>);

/// `soroban_sdk::BytesN`, a byte string of fixed length kept by the host.
#[verifier::external_type_specification]
#[verifier::external_body]
pub struct ExBytesN<const N: usize>(soroban_sdk::BytesN<N>);

/// `Clone` for `soroban_sdk::Vec`: another handle to the same host vector.
pub assume_specification<T>[ <soroban_sdk::Vec<T> as Clone>::clone ](
    v: &soroban_sdk::Vec<T>,
) -> (r: soroban_sdk::Vec<T>)
    ensures
        r == *v,
;

/// `Clone` for `soroban_sdk::BytesN`: another handle to the same host bytes.
pub assume_specification<const N: usize>[ <soroban_sdk::BytesN<N> as Clone>::clone ](
    b: &soroban_sdk::BytesN<N>,
) -> (r: soroban_sdk::BytesN<N>)
    ensures
        r == *b,
;

/// Whether every item of the host vector `mask` is a `bool`.
pub uninterp spec fn mask_typed(mask: soroban_sdk::Vec<bool>) -> bool;

/// What the items of the host vector `history` are found to be, in order.
/// An item that is no vector stands as `None`; one that is a vector stands
/// as its parts, each part as the number it is, if it is one, and as the
/// `bool` it is, if it is one.
pub uninterp spec fn history_shape(history: soroban_sdk::Vec<(u32, u32, bool)>) -> Seq<
    Option<Seq<(Option<u32>, Option<bool>)>>,
>;

/// What the entry `(x, y, hit)` is found to be once it is an item of a
/// history: a vector of two numbers and a `bool`.
pub open spec fn entry_shape(entry: (u32, u32, bool)) -> Option<Seq<(Option<u32>, Option<bool>)>> {
    Some(seq![(Some(entry.0), None), (Some(entry.1), None), (None, Some(entry.2))])
}

/// The entry that an item of this shape is, if it is one: a vector of
/// exactly a number, a number and a `bool`.
pub open spec fn shape_entry(item: Option<Seq<(Option<u32>, Option<bool>)>>) -> Option<
    (u32, u32, bool),
> {
    match item {
        Some(parts) => if parts.len() == 3 && parts[0].0 is Some && parts[1].0 is Some
            && parts[2].1 is Some {
            Some((parts[0].0->Some_0, parts[1].0->Some_0, parts[2].1->Some_0))
        } else {
            None
        },
        None => None,
    }
}

/// Whether every item of these shapes is an entry.
pub open spec fn shapes_typed(shapes: Seq<Option<Seq<(Option<u32>, Option<bool>)>>>) -> bool {
    forall|j: int| 0 <= j < shapes.len() ==> shape_entry(#[trigger] shapes[j]) is Some
}

/// The entries that items of these shapes are, in order.
pub open spec fn shapes_entries(shapes: Seq<Option<Seq<(Option<u32>, Option<bool>)>>>) -> Seq<
    (u32, u32, bool),
> {
    Seq::new(shapes.len(), |j: int| shape_entry(shapes[j])->Some_0)
}

/// Whether every item of the host vector `history` is an entry: a triple of
/// two numbers and a `bool`.
pub open spec fn history_typed(history: soroban_sdk::Vec<(u32, u32, bool)>) -> bool {
    shapes_typed(history_shape(history))
}

/// The items that the host vector `mask` holds, in order.
pub uninterp spec fn mask_cells(mask: soroban_sdk::Vec<bool>) -> Seq<bool>;

/// The entries `(x, y, hit)` that the host vector `history` holds, in order,
/// where every item is one.
pub open spec fn history_entries(history: soroban_sdk::Vec<(u32, u32, bool)>) -> Seq<
    (u32, u32, bool),
> {
    shapes_entries(history_shape(history))
}

/// The bytes that the host byte string `digest` holds, in order.
pub uninterp spec fn digest_bytes(digest: soroban_sdk::BytesN<32>) -> Seq<u8>;

/// The bytes that the host byte string `proof` holds, in order.
pub uninterp spec fn proof_bytes(proof: soroban_sdk::BytesN<256>) -> Seq<u8>;

/// `soroban_sdk::Vec::from_array`: a host vector holding the items of the
/// array, in order.
#[verifier::external_body]
pub(crate) fn mask_from_array(env: &soroban_sdk::Env, cells: [bool; 100]) -> (mask:
    soroban_sdk::Vec<bool>)
    ensures
        mask_typed(mask),
        mask_cells(mask) == cells@,
{
    soroban_sdk::Vec::from_array(env, cells)
}

/// `soroban_sdk::Vec::try_iter`: hands out the items in order, or the
/// failure to read one as a `bool`. The items are collected into a vector of
/// the standard library; `None` stands for a failure.
#[verifier::external_body]
pub(crate) fn mask_to_vec(mask: &soroban_sdk::Vec<bool>) -> (cells: Option<Vec<bool>>)
    ensures
        match cells {
            Some(v) => mask_typed(*mask) && v@ == mask_cells(*mask),
            None => !mask_typed(*mask),
        },
{
    mask.try_iter().collect::<Result<Vec<bool>, _>>().ok()
}

/// `soroban_sdk::Vec::get`: the item at position `i`, or `None` when `i` is
/// not below the length. It ends the invocation on an item that is no
/// `bool`, so the vector must hold none.
#[verifier::external_body]
pub(crate) fn mask_get(mask: &soroban_sdk::Vec<bool>, i: u32) -> (cell: Option<bool>)
    requires
        mask_typed(*mask),
    ensures
        cell == if i < mask_cells(*mask).len() {
            Some(mask_cells(*mask)[i as int])
        } else {
            None
        },
{
    mask.get(i)
}

/// `soroban_sdk::Vec::set`: replaces the item at position `i`, which must be
/// below the length, and leaves the others as they were.
#[verifier::external_body]
pub(crate) fn mask_set(mask: &mut soroban_sdk::Vec<bool>, i: u32, cell: bool)
    requires
        mask_typed(*old(mask)),
        i < mask_cells(*old(mask)).len(),
    ensures
        mask_typed(*final(mask)),
        mask_cells(*final(mask)) == mask_cells(*old(mask)).update(i as int, cell),
{
    mask.set(i, cell)
}

/// `soroban_sdk::Vec::new`: an empty host vector.
#[verifier::external_body]
pub(crate) fn history_new(env: &soroban_sdk::Env) -> (history: soroban_sdk::Vec<(u32, u32, bool)>)
    ensures
        history_shape(history) == Seq::<Option<Seq<(Option<u32>, Option<bool>)>>>::empty(),
{
    soroban_sdk::Vec::new(env)
}

/// `soroban_sdk::Vec::push_back`: puts the item behind the last one. The
/// entry becomes a host vector of its three parts.
#[verifier::external_body]
pub(crate) fn history_push(history: &mut soroban_sdk::Vec<(u32, u32, bool)>, entry: (u32, u32, bool))
    ensures
        history_shape(*final(history)) == history_shape(*old(history)).push(entry_shape(entry)),
{
    history.push_back(entry)
}

/// `soroban_sdk::Vec::to_vals`, `Vec::iter` over raw values and
/// `TryFromVal::try_from_val`: the items as the host holds them, each read as
/// a vector if it is one, and each part of it read as a number and as a
/// `bool`, keeping what it is. A raw value is handed out as it is, and a
/// failed reading comes back as an error, which stands here as `None`: no
/// item is read as what it is not.
#[verifier::external_body]
pub(crate) fn history_raw(history: &soroban_sdk::Vec<(u32, u32, bool)>) -> (raw: Vec<
    Option<Vec<(Option<u32>, Option<bool>)>>,
>)
    ensures
        raw.deep_view() == history_shape(*history),
{
    let env = history.env();
    let as_parts = |parts: soroban_sdk::Vec<soroban_sdk::Val>| {
        parts.iter().map(|p| (u32::try_from_val(env, &p).ok(), bool::try_from_val(env, &p).ok()))
            .collect()
    };
    history.to_vals().iter()
        .map(|item| soroban_sdk::Vec::<soroban_sdk::Val>::try_from_val(env, &item).ok().map(as_parts))
        .collect()
}

/// `soroban_sdk::BytesN::from_array`: host bytes holding the bytes of the
/// array, in order.
#[verifier::external_body]
pub(crate) fn digest_from_array(env: &soroban_sdk::Env, bytes: &[u8; 32]) -> (digest:
    soroban_sdk::BytesN<32>)
    ensures
        digest_bytes(digest) == bytes@,
{
    soroban_sdk::BytesN::from_array(env, bytes)
}

/// `soroban_sdk::BytesN::from_array`, at the length of a proof: host bytes
/// holding the bytes of the array, in order.
#[verifier::external_body]
pub(crate) fn proof_from_array(env: &soroban_sdk::Env, bytes: &[u8; 256]) -> (proof:
    soroban_sdk::BytesN<256>)
    ensures
        proof_bytes(proof) == bytes@,
{
    soroban_sdk::BytesN::from_array(env, bytes)
}

/// `!=` on `soroban_sdk::BytesN`: the host compares what the two hold, and
/// they differ exactly when they hold different bytes.
#[verifier::external_body]
pub(crate) fn proof_differs(a: &soroban_sdk::BytesN<256>, b: &soroban_sdk::BytesN<256>) -> (r: bool)
    ensures
        r == (proof_bytes(*a) != proof_bytes(*b)),
{
    a != b
}

} // verus!
