//! A dense tensor: flat element data plus its declared shape.

use vstd::prelude::*;

verus! {

/// A shaped numeric container. The element type is generic so that
/// normalization vectors and projection matrices may later pick
/// different in-memory representations.
#[derive(Debug)]
pub struct Tensor<T> {
    /// Flat element data in row-major order.
    pub data: Vec<T>,
    /// Declared shape, one extent per dimension.
    pub shape: Vec<usize>,
}

impl<T> Tensor<T> {
    /// Wraps flat element data and a shape into a tensor. The loader does
    /// not itself check that the data length matches the shape's product.
    pub fn new(data: Vec<T>, shape: Vec<usize>) -> (r: Self)
        ensures
            r.data == data,
            r.shape == shape,
    {
        Tensor { data, shape }
    }
}

} // verus!
