//! The parameter store and the weight loader that builds it.

use vstd::prelude::*;
use vstd::string::StringExecFns;
use safetensors::SafeTensors;
use crate::archive::{archive_map, lookup_tensor};
use crate::config::LlamaConfigJson;
use crate::decode::{decode_le_words, decode_words};
use crate::names::{
    attn_norm_name, embedding_name, ffn_norm_name, layer_name_string,
    lm_head_name, output_norm_name, w_down_name, w_gate_name, w_up_name, wk_name, wo_name,
    wq_name, wv_name,
};
use crate::tensor::Tensor;

verus! {

/// The contents of an open archive: names to (shape, raw payload).
pub type ArchiveModel = Map<Seq<char>, (Seq<usize>, Seq<u8>)>;

/// The bit pattern of the neutral scale multiplier, the 32-bit IEEE-754
/// encoding of one: multiplying by it has no effect.
pub const NEUTRAL_SCALE: u32 = 0x3F80_0000;

/// All weight tensors of one loaded model instance; immutable after
/// construction. Element types are the 32-bit patterns of the stored
/// values: `T` is the light representation used by normalization
/// vectors, `U` the heavy one used by projection matrices.
#[derive(Debug)]
pub struct LLamaParams<T, U> {
    /// Token-id to embedding lookup table, shaped (vocab_size, dim).
    pub embedding_table: Tensor<U>,
    /// Attention-norm vector of each layer, shaped (hidden_size,).
    pub rms_att_w: Vec<Tensor<T>>,
    /// Query projection of each layer.
    pub wq: Vec<Tensor<U>>,
    /// Key projection of each layer.
    pub wk: Vec<Tensor<U>>,
    /// Value projection of each layer.
    pub wv: Vec<Tensor<U>>,
    /// Output projection of each layer.
    pub wo: Vec<Tensor<U>>,
    /// Ffn-norm vector of each layer.
    pub rms_ffn_w: Vec<Tensor<T>>,
    /// Up projection of each layer.
    pub w_up: Vec<Tensor<U>>,
    /// Gate projection of each layer.
    pub w_gate: Vec<Tensor<U>>,
    /// Down projection of each layer.
    pub w_down: Vec<Tensor<U>>,
    /// Output normalization vector, shaped (hidden_size,).
    pub rms_out_w: Tensor<T>,
    /// Output-head projection matrix, shaped (vocab_size, dim).
    pub lm_head: Tensor<U>,
    /// Per-weight quantization scale factors.
    pub weight_scales: WeightScales,
}

/// Per-weight-role quantization multipliers for a reduced-precision
/// compute path. Entries are 32-bit patterns of the scale values; at
/// construction every entry is the neutral multiplier.
#[derive(Debug)]
pub struct WeightScales {
    /// One scale per layer for the query projection.
    pub wq_scales: Vec<u32>,
    /// One scale per layer for the key projection.
    pub wk_scales: Vec<u32>,
    /// One scale per layer for the value projection.
    pub wv_scales: Vec<u32>,
    /// One scale per layer for the output projection.
    pub wo_scales: Vec<u32>,
    /// One scale per layer for the gating projection.
    pub w_gate_scales: Vec<u32>,
    /// One scale per layer for the up projection.
    pub w_up_scales: Vec<u32>,
    /// One scale per layer for the down projection.
    pub w_down_scales: Vec<u32>,
    /// Scale of the embedding table.
    pub embedding_scale: u32,
    /// Scale of the output head.
    pub lm_head_scale: u32,
}

/// A failed build: the one terminating error, identifying the offending
/// tensor name.
#[derive(Debug)]
pub enum LoadError {
    /// The archive holds no tensor under the resolved name.
    MissingTensorError(String),
    /// The tensor's raw byte length is not a multiple of the 4-byte
    /// element width.
    CorruptDataError(String),
}

/// The tensor name a load error reports.
pub open spec fn error_name(e: LoadError) -> Seq<char> {
    match e {
        LoadError::MissingTensorError(n) => n@,
        LoadError::CorruptDataError(n) => n@,
    }
}

impl LoadError {
    /// The offending tensor name.
    pub fn name(&self) -> (r: &str)
        ensures
            r@ == error_name(*self),
    {
        match self {
            LoadError::MissingTensorError(n) => n.as_str(),
            LoadError::CorruptDataError(n) => n.as_str(),
        }
    }
}

/// Does the archive hold a tensor of this name?
pub open spec fn has_tensor(m: ArchiveModel, name: Seq<char>) -> bool {
    m.dom().contains(name)
}

/// Is the tensor of this name present with a decodable payload (its raw
/// byte length a multiple of 4)?
pub open spec fn tensor_decodes(m: ArchiveModel, name: Seq<char>) -> bool {
    has_tensor(m, name) && m[name].1.len() % 4 == 0
}

/// The declared shape of the tensor stored under `name`.
pub open spec fn tensor_shape(m: ArchiveModel, name: Seq<char>) -> Seq<usize> {
    m[name].0
}

/// The decoded 32-bit words of the tensor stored under `name`.
pub open spec fn tensor_values(m: ArchiveModel, name: Seq<char>) -> Seq<u32> {
    decode_words(m[name].1)
}

/// `t` is exactly the decoded form of the archive entry under `name`.
pub open spec fn tensor_from(t: Tensor<u32>, m: ArchiveModel, name: Seq<char>) -> bool {
    t.shape@ == tensor_shape(m, name) && t.data@ == tensor_values(m, name)
}

/// The first tensor, in extraction order, that fails to load for layer
/// `i`; `None` when all nine roles load.
pub open spec fn layer_failure(m: ArchiveModel, i: nat) -> Option<Seq<char>> {
    if !tensor_decodes(m, attn_norm_name(i)) {
        Option::Some(attn_norm_name(i))
    } else if !tensor_decodes(m, wq_name(i)) {
        Option::Some(wq_name(i))
    } else if !tensor_decodes(m, wk_name(i)) {
        Option::Some(wk_name(i))
    } else if !tensor_decodes(m, wv_name(i)) {
        Option::Some(wv_name(i))
    } else if !tensor_decodes(m, wo_name(i)) {
        Option::Some(wo_name(i))
    } else if !tensor_decodes(m, ffn_norm_name(i)) {
        Option::Some(ffn_norm_name(i))
    } else if !tensor_decodes(m, w_up_name(i)) {
        Option::Some(w_up_name(i))
    } else if !tensor_decodes(m, w_gate_name(i)) {
        Option::Some(w_gate_name(i))
    } else if !tensor_decodes(m, w_down_name(i)) {
        Option::Some(w_down_name(i))
    } else {
        Option::None
    }
}

/// The first failing tensor among layers `lo..n`, scanning layers in
/// increasing order.
pub open spec fn layers_failure(m: ArchiveModel, lo: nat, n: nat) -> Option<Seq<char>>
    decreases n - lo,
{
    if lo >= n {
        Option::None
    } else if layer_failure(m, lo) is Some {
        layer_failure(m, lo)
    } else {
        layers_failure(m, lo + 1, n)
    }
}

/// The first failing tensor of a whole build with `n` layers, in
/// extraction order: the nine per-layer tensors of layers `0..n`, then
/// the embedding table, the output norm, the output head. `None` exactly
/// when the build succeeds.
pub open spec fn first_failure(m: ArchiveModel, n: nat, tie: bool) -> Option<Seq<char>> {
    if layers_failure(m, 0, n) is Some {
        layers_failure(m, 0, n)
    } else if !tensor_decodes(m, embedding_name(tie)) {
        Option::Some(embedding_name(tie))
    } else if !tensor_decodes(m, output_norm_name()) {
        Option::Some(output_norm_name())
    } else if !tensor_decodes(m, lm_head_name()) {
        Option::Some(lm_head_name())
    } else {
        Option::None
    }
}

/// Every entry of `s` is the neutral scale and there is one per layer.
pub open spec fn all_neutral(s: Seq<u32>, n: nat) -> bool {
    s.len() == n && (forall|j: int| 0 <= j < n ==> s[j] == NEUTRAL_SCALE)
}

/// Every per-layer scale sequence has exactly `n` neutral entries and
/// both standalone scalars are neutral.
pub open spec fn scales_neutral(s: WeightScales, n: nat) -> bool {
    &&& all_neutral(s.wq_scales@, n)
    &&& all_neutral(s.wk_scales@, n)
    &&& all_neutral(s.wv_scales@, n)
    &&& all_neutral(s.wo_scales@, n)
    &&& all_neutral(s.w_gate_scales@, n)
    &&& all_neutral(s.w_up_scales@, n)
    &&& all_neutral(s.w_down_scales@, n)
    &&& s.embedding_scale == NEUTRAL_SCALE
    &&& s.lm_head_scale == NEUTRAL_SCALE
}

/// The store a successful build must return, as a function of the archive
/// contents `m`, the layer count `n` and the tie flag: all nine per-layer
/// sequences have length `n` and hold, index-aligned, the decoded tensors
/// resolved by the naming template; the three global tensors are resolved
/// from their fixed names (the embedding table from the output head's
/// name when tied); the scales are neutral.
pub open spec fn store_matches(
    p: LLamaParams<u32, u32>,
    m: ArchiveModel,
    n: nat,
    tie: bool,
) -> bool {
    &&& p.rms_att_w@.len() == n
    &&& p.wq@.len() == n
    &&& p.wk@.len() == n
    &&& p.wv@.len() == n
    &&& p.wo@.len() == n
    &&& p.rms_ffn_w@.len() == n
    &&& p.w_up@.len() == n
    &&& p.w_gate@.len() == n
    &&& p.w_down@.len() == n
    &&& forall|i: int| 0 <= i < n ==> tensor_from(#[trigger] p.rms_att_w@[i], m, attn_norm_name(i as nat))
    &&& forall|i: int| 0 <= i < n ==> tensor_from(#[trigger] p.wq@[i], m, wq_name(i as nat))
    &&& forall|i: int| 0 <= i < n ==> tensor_from(#[trigger] p.wk@[i], m, wk_name(i as nat))
    &&& forall|i: int| 0 <= i < n ==> tensor_from(#[trigger] p.wv@[i], m, wv_name(i as nat))
    &&& forall|i: int| 0 <= i < n ==> tensor_from(#[trigger] p.wo@[i], m, wo_name(i as nat))
    &&& forall|i: int| 0 <= i < n ==> tensor_from(#[trigger] p.rms_ffn_w@[i], m, ffn_norm_name(i as nat))
    &&& forall|i: int| 0 <= i < n ==> tensor_from(#[trigger] p.w_up@[i], m, w_up_name(i as nat))
    &&& forall|i: int| 0 <= i < n ==> tensor_from(#[trigger] p.w_gate@[i], m, w_gate_name(i as nat))
    &&& forall|i: int| 0 <= i < n ==> tensor_from(#[trigger] p.w_down@[i], m, w_down_name(i as nat))
    &&& tensor_from(p.embedding_table, m, embedding_name(tie))
    &&& tensor_from(p.rms_out_w, m, output_norm_name())
    &&& tensor_from(p.lm_head, m, lm_head_name())
    &&& scales_neutral(p.weight_scales, n)
}

/// Fetches the tensor stored under `name` and decodes its raw payload
/// into 32-bit little-endian words: `Ok` exactly when the name is present
/// with a decodable payload, and each error names the offending tensor.
pub fn extract_tensor(archive: &SafeTensors, name: String) -> (r: Result<Tensor<u32>, LoadError>)
    ensures
        r is Ok <==> tensor_decodes(archive_map(archive), name@),
        r matches Ok(t) ==> tensor_from(t, archive_map(archive), name@),
        r matches Err(e) ==> error_name(e) == name@,
        r matches Err(e) ==> (e is MissingTensorError <==> !has_tensor(
            archive_map(archive),
            name@,
        )),
{
    match lookup_tensor(archive, name.as_str()) {
        None => Err(LoadError::MissingTensorError(name)),
        Some((shape, data)) => match decode_le_words(&data) {
            None => Err(LoadError::CorruptDataError(name)),
            Some(words) => Ok(Tensor::new(words, shape)),
        },
    }
}

/// A vector of `n` neutral scale entries.
fn neutral_scales(n: usize) -> (r: Vec<u32>)
    ensures
        all_neutral(r@, n as nat),
{
    let mut r: Vec<u32> = Vec::new();
    let mut i: usize = 0;
    while i < n
        invariant
            i <= n,
            r@.len() == i,
            forall|j: int| 0 <= j < i ==> r@[j] == NEUTRAL_SCALE,
        decreases n - i,
    {
        r.push(NEUTRAL_SCALE);
        i += 1;
    }
    r
}

impl WeightScales {
    /// A placeholder scale set for `n_layers` layers: every per-layer
    /// entry and both standalone scalars are the neutral multiplier. Real
    /// calibration replaces these elsewhere.
    pub fn neutral(n_layers: usize) -> (r: Self)
        ensures
            scales_neutral(r, n_layers as nat),
    {
        WeightScales {
            wq_scales: neutral_scales(n_layers),
            wk_scales: neutral_scales(n_layers),
            wv_scales: neutral_scales(n_layers),
            wo_scales: neutral_scales(n_layers),
            w_gate_scales: neutral_scales(n_layers),
            w_up_scales: neutral_scales(n_layers),
            w_down_scales: neutral_scales(n_layers),
            embedding_scale: NEUTRAL_SCALE,
            lm_head_scale: NEUTRAL_SCALE,
        }
    }
}

struct LayerWeights {
    rms_att: Tensor<u32>,
    wq: Tensor<u32>,
    wk: Tensor<u32>,
    wv: Tensor<u32>,
    wo: Tensor<u32>,
    rms_ffn: Tensor<u32>,
    w_up: Tensor<u32>,
    w_gate: Tensor<u32>,
    w_down: Tensor<u32>,
}

/// Loads the nine per-layer tensors of layer `i`, in extraction order.
fn load_layer(archive: &SafeTensors, i: usize) -> (r: Result<LayerWeights, LoadError>)
    ensures
        r is Ok <==> layer_failure(archive_map(archive), i as nat) is None,
        r matches Ok(lw) ==> {
            let m = archive_map(archive);
            &&& tensor_from(lw.rms_att, m, attn_norm_name(i as nat))
            &&& tensor_from(lw.wq, m, wq_name(i as nat))
            &&& tensor_from(lw.wk, m, wk_name(i as nat))
            &&& tensor_from(lw.wv, m, wv_name(i as nat))
            &&& tensor_from(lw.wo, m, wo_name(i as nat))
            &&& tensor_from(lw.rms_ffn, m, ffn_norm_name(i as nat))
            &&& tensor_from(lw.w_up, m, w_up_name(i as nat))
            &&& tensor_from(lw.w_gate, m, w_gate_name(i as nat))
            &&& tensor_from(lw.w_down, m, w_down_name(i as nat))
        },
        r matches Err(e) ==> layer_failure(archive_map(archive), i as nat) == Option::Some(
            error_name(e),
        ) && (e is MissingTensorError <==> !has_tensor(archive_map(archive), error_name(e))),
{
    let rms_att = match extract_tensor(archive, layer_name_string(i, ".input_layernorm.weight")) {
        Ok(t) => t,
        Err(e) => return Err(e),
    };
    let wq = match extract_tensor(archive, layer_name_string(i, ".self_attn.q_proj.weight")) {
        Ok(t) => t,
        Err(e) => return Err(e),
    };
    let wk = match extract_tensor(archive, layer_name_string(i, ".self_attn.k_proj.weight")) {
        Ok(t) => t,
        Err(e) => return Err(e),
    };
    let wv = match extract_tensor(archive, layer_name_string(i, ".self_attn.v_proj.weight")) {
        Ok(t) => t,
        Err(e) => return Err(e),
    };
    let wo = match extract_tensor(archive, layer_name_string(i, ".self_attn.o_proj.weight")) {
        Ok(t) => t,
        Err(e) => return Err(e),
    };
    let rms_ffn = match extract_tensor(
        archive,
        layer_name_string(i, ".post_attention_layernorm.weight"),
    ) {
        Ok(t) => t,
        Err(e) => return Err(e),
    };
    let w_up = match extract_tensor(archive, layer_name_string(i, ".mlp.up_proj.weight")) {
        Ok(t) => t,
        Err(e) => return Err(e),
    };
    let w_gate = match extract_tensor(archive, layer_name_string(i, ".mlp.gate_proj.weight")) {
        Ok(t) => t,
        Err(e) => return Err(e),
    };
    let w_down = match extract_tensor(archive, layer_name_string(i, ".mlp.down_proj.weight")) {
        Ok(t) => t,
        Err(e) => return Err(e),
    };
    Ok(LayerWeights { rms_att, wq, wk, wv, wo, rms_ffn, w_up, w_gate, w_down })
}

impl LLamaParams<u32, u32> {
    /// Builds the full parameter store from an open archive and the model
    /// configuration: one deterministic pass over layer indices in
    /// increasing order, then the three global tensors (the embedding
    /// table from the output head's source name when embeddings are
    /// tied), then the neutral scale set. Fails, returning the first
    /// offending tensor name in extraction order, rather than returning a
    /// partial store.
    pub fn from_safetensors(safetensor: &SafeTensors, config: &LlamaConfigJson) -> (r: Result<
        Self,
        LoadError,
    >)
        ensures
            r is Ok <==> first_failure(
                archive_map(safetensor),
                config.num_hidden_layers as nat,
                config.tie_word_embeddings,
            ) is None,
            r matches Ok(p) ==> store_matches(
                p,
                archive_map(safetensor),
                config.num_hidden_layers as nat,
                config.tie_word_embeddings,
            ),
            r matches Err(e) ==> first_failure(
                archive_map(safetensor),
                config.num_hidden_layers as nat,
                config.tie_word_embeddings,
            ) == Option::Some(error_name(e)) && (e is MissingTensorError <==> !has_tensor(
                archive_map(safetensor),
                error_name(e),
            )),
    {
        let ghost m = archive_map(safetensor);
        let ghost tie = config.tie_word_embeddings;
        let n_layers = config.num_hidden_layers;
        let ghost n = n_layers as nat;
        let mut rms_att_w: Vec<Tensor<u32>> = Vec::new();
        let mut wq: Vec<Tensor<u32>> = Vec::new();
        let mut wk: Vec<Tensor<u32>> = Vec::new();
        let mut wv: Vec<Tensor<u32>> = Vec::new();
        let mut wo: Vec<Tensor<u32>> = Vec::new();
        let mut rms_ffn_w: Vec<Tensor<u32>> = Vec::new();
        let mut w_up: Vec<Tensor<u32>> = Vec::new();
        let mut w_gate: Vec<Tensor<u32>> = Vec::new();
        let mut w_down: Vec<Tensor<u32>> = Vec::new();
        let mut i: usize = 0;
        while i < n_layers
            invariant
                i <= n_layers,
                n_layers == config.num_hidden_layers,
                n == n_layers as nat,
                m == archive_map(safetensor),
                layers_failure(m, 0, n) == layers_failure(m, i as nat, n),
                rms_att_w@.len() == i,
                wq@.len() == i,
                wk@.len() == i,
                wv@.len() == i,
                wo@.len() == i,
                rms_ffn_w@.len() == i,
                w_up@.len() == i,
                w_gate@.len() == i,
                w_down@.len() == i,
                forall|j: int|
                    0 <= j < i ==> tensor_from(#[trigger] rms_att_w@[j], m, attn_norm_name(j as nat)),
                forall|j: int| 0 <= j < i ==> tensor_from(#[trigger] wq@[j], m, wq_name(j as nat)),
                forall|j: int| 0 <= j < i ==> tensor_from(#[trigger] wk@[j], m, wk_name(j as nat)),
                forall|j: int| 0 <= j < i ==> tensor_from(#[trigger] wv@[j], m, wv_name(j as nat)),
                forall|j: int| 0 <= j < i ==> tensor_from(#[trigger] wo@[j], m, wo_name(j as nat)),
                forall|j: int|
                    0 <= j < i ==> tensor_from(#[trigger] rms_ffn_w@[j], m, ffn_norm_name(j as nat)),
                forall|j: int| 0 <= j < i ==> tensor_from(#[trigger] w_up@[j], m, w_up_name(j as nat)),
                forall|j: int|
                    0 <= j < i ==> tensor_from(#[trigger] w_gate@[j], m, w_gate_name(j as nat)),
                forall|j: int|
                    0 <= j < i ==> tensor_from(#[trigger] w_down@[j], m, w_down_name(j as nat)),
            decreases n_layers - i,
        {
            let lw = match load_layer(safetensor, i) {
                Ok(lw) => lw,
                Err(e) => {
                    proof {
                        assert(layers_failure(m, i as nat, n) == layer_failure(m, i as nat));
                    }
                    return Err(e);
                },
            };
            rms_att_w.push(lw.rms_att);
            wq.push(lw.wq);
            wk.push(lw.wk);
            wv.push(lw.wv);
            wo.push(lw.wo);
            rms_ffn_w.push(lw.rms_ffn);
            w_up.push(lw.w_up);
            w_gate.push(lw.w_gate);
            w_down.push(lw.w_down);
            proof {
                assert(layers_failure(m, i as nat, n) == layers_failure(m, i as nat + 1, n));
            }
            i += 1;
        }
        assert(layers_failure(m, 0, n) is None);
        let embedding_table = match extract_tensor(
            safetensor,
            if config.tie_word_embeddings {
                String::from_str("lm_head.weight")
            } else {
                String::from_str("model.embed_tokens.weight")
            },
        ) {
            Ok(t) => t,
            Err(e) => return Err(e),
        };
        let rms_out_w = match extract_tensor(safetensor, String::from_str("model.norm.weight")) {
            Ok(t) => t,
            Err(e) => return Err(e),
        };
        let lm_head = match extract_tensor(safetensor, String::from_str("lm_head.weight")) {
            Ok(t) => t,
            Err(e) => return Err(e),
        };
        let weight_scales = WeightScales::neutral(n_layers);
        Ok(
            LLamaParams {
                embedding_table,
                rms_att_w,
                wq,
                wk,
                wv,
                wo,
                rms_ffn_w,
                w_up,
                w_gate,
                w_down,
                rms_out_w,
                lm_head,
                weight_scales,
            },
        )
    }
}

proof fn lemma_layers_failure_none(m: ArchiveModel, lo: nat, n: nat)
    ensures
        layers_failure(m, lo, n) is None <==> (forall|i: nat|
            lo <= i < n ==> #[trigger] layer_failure(m, i) is None),
    decreases n - lo,
{
    if lo < n {
        lemma_layers_failure_none(m, lo + 1, n);
    }
}

/// Law: a build succeeds exactly when every tensor the naming template
/// resolves — the nine roles of every layer and the three globals — is
/// present in the archive with a decodable payload.
pub proof fn lemma_build_success_condition(m: ArchiveModel, n: nat, tie: bool)
    ensures
        first_failure(m, n, tie) is None <==> {
            &&& forall|i: nat| i < n ==> #[trigger] layer_failure(m, i) is None
            &&& tensor_decodes(m, embedding_name(tie))
            &&& tensor_decodes(m, output_norm_name())
            &&& tensor_decodes(m, lm_head_name())
        },
{
    lemma_layers_failure_none(m, 0, n);
}

/// Law: with zero layers the build is degenerate but valid — it succeeds
/// exactly when the three global tensors are present and decodable,
/// whatever else the archive lacks.
pub proof fn lemma_zero_layers_success(m: ArchiveModel, tie: bool)
    ensures
        first_failure(m, 0, tie) is None <==> (tensor_decodes(m, embedding_name(tie))
            && tensor_decodes(m, output_norm_name()) && tensor_decodes(m, lm_head_name())),
{
}

/// Law: every successfully built store has each per-layer weight
/// sequence and each per-layer scale sequence of length exactly `n`,
/// index-aligned by construction.
pub proof fn lemma_store_lengths(p: LLamaParams<u32, u32>, m: ArchiveModel, n: nat, tie: bool)
    requires
        store_matches(p, m, n, tie),
    ensures
        p.rms_att_w@.len() == n,
        p.wq@.len() == n,
        p.wk@.len() == n,
        p.wv@.len() == n,
        p.wo@.len() == n,
        p.rms_ffn_w@.len() == n,
        p.w_up@.len() == n,
        p.w_gate@.len() == n,
        p.w_down@.len() == n,
        p.weight_scales.wq_scales@.len() == n,
        p.weight_scales.wk_scales@.len() == n,
        p.weight_scales.wv_scales@.len() == n,
        p.weight_scales.wo_scales@.len() == n,
        p.weight_scales.w_gate_scales@.len() == n,
        p.weight_scales.w_up_scales@.len() == n,
        p.weight_scales.w_down_scales@.len() == n,
{
}

/// Law: immediately after a successful build, every entry of every scale
/// sequence and both standalone scale scalars are the neutral
/// multiplier.
pub proof fn lemma_scales_neutral(p: LLamaParams<u32, u32>, m: ArchiveModel, n: nat, tie: bool)
    requires
        store_matches(p, m, n, tie),
    ensures
        forall|j: int| 0 <= j < n ==> p.weight_scales.wq_scales@[j] == NEUTRAL_SCALE,
        forall|j: int| 0 <= j < n ==> p.weight_scales.wk_scales@[j] == NEUTRAL_SCALE,
        forall|j: int| 0 <= j < n ==> p.weight_scales.wv_scales@[j] == NEUTRAL_SCALE,
        forall|j: int| 0 <= j < n ==> p.weight_scales.wo_scales@[j] == NEUTRAL_SCALE,
        forall|j: int| 0 <= j < n ==> p.weight_scales.w_gate_scales@[j] == NEUTRAL_SCALE,
        forall|j: int| 0 <= j < n ==> p.weight_scales.w_up_scales@[j] == NEUTRAL_SCALE,
        forall|j: int| 0 <= j < n ==> p.weight_scales.w_down_scales@[j] == NEUTRAL_SCALE,
        p.weight_scales.embedding_scale == NEUTRAL_SCALE,
        p.weight_scales.lm_head_scale == NEUTRAL_SCALE,
{
}

/// Law: under a tied-embedding configuration a successful build returns
/// the embedding table and the output head with identical shape and
/// values, both resolved from the output head's source name.
pub proof fn lemma_tied_embedding(p: LLamaParams<u32, u32>, m: ArchiveModel, n: nat)
    requires
        store_matches(p, m, n, true),
    ensures
        p.embedding_table.shape@ == p.lm_head.shape@,
        p.embedding_table.data@ == p.lm_head.data@,
{
}

/// Law: a tensor whose archive payload is the little-endian encoding of
/// known words is rebuilt with exactly that shape and those words.
pub proof fn lemma_tensor_round_trip(
    t: Tensor<u32>,
    m: ArchiveModel,
    name: Seq<char>,
    shape: Seq<usize>,
    vals: Seq<u32>,
)
    requires
        has_tensor(m, name),
        m[name] == (shape, crate::decode::encode_words(vals)),
        tensor_from(t, m, name),
    ensures
        t.shape@ == shape,
        t.data@ == vals,
{
    crate::decode::lemma_decode_encode_round_trip(vals);
}

} // verus!
