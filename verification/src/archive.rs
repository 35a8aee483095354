//! The trusted boundary to the serialized tensor archive.
//!
//! An open archive is a read-only bag of named tensors, each carrying a
//! declared shape and a raw byte payload. Everything the loader states
//! about a build is phrased over `archive_map`, the mathematical contents
//! of that bag.

use vstd::prelude::*;
use safetensors::SafeTensors;

verus! {

#[verifier::external_type_specification]
#[verifier::external_body]
pub struct ExSafeTensors<'a>(SafeTensors<'a>);

/// The named tensors an open archive holds: each name maps to the pair of
/// the tensor's declared shape and its raw byte payload.
pub uninterp spec fn archive_map(a: &SafeTensors) -> Map<Seq<char>, (Seq<usize>, Seq<u8>)>;

/// Relies on `safetensors::SafeTensors::tensor`, which returns a view of
/// the tensor stored under `name` (exposing its declared shape and raw
/// bytes) and fails exactly when the archive holds no tensor of that
/// name; `TensorView::shape` and `TensorView::data` read the view out.
#[verifier::external_body]
pub(crate) fn lookup_tensor(archive: &SafeTensors, name: &str) -> (r: Option<(Vec<usize>, Vec<u8>)>)
    ensures
        r is Some <==> archive_map(archive).dom().contains(name@),
        r matches Some(t) ==> t.0@ == archive_map(archive)[name@].0 && t.1@ == archive_map(
            archive,
        )[name@].1,
{
    match archive.tensor(name) {
        Ok(view) => Some((view.shape().to_vec(), view.data().to_vec())),
        Err(_) => None,
    }
}

} // verus!
