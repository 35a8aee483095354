//! The slice of the model configuration that weight loading reads.

use vstd::prelude::*;

verus! {

/// Model hyperparameters already parsed from the checkpoint's
/// configuration file; only the fields the loader consults.
pub struct LlamaConfigJson {
    /// Number of decoder layers; the per-layer sequences of the store
    /// have exactly this length.
    pub num_hidden_layers: usize,
    /// When set, the embedding table is loaded from the same source
    /// tensor as the output head.
    pub tie_word_embeddings: bool,
}

} // verus!
