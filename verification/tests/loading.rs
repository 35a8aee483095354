use llama_params::config::LlamaConfigJson;
use llama_params::decode::decode_le_words;
use llama_params::names::{decimal_string, layer_name_string};
use llama_params::params::{LLamaParams, LoadError, WeightScales, NEUTRAL_SCALE};
use llama_params::tensor::Tensor;
use safetensors::tensor::TensorView;
use safetensors::{serialize, Dtype, SafeTensors};

/// One named entry of a synthetic archive.
struct Entry {
    name: String,
    dtype: Dtype,
    shape: Vec<usize>,
    bytes: Vec<u8>,
}

fn f32_le_bytes(vals: &[f32]) -> Vec<u8> {
    let mut out: Vec<u8> = Vec::new();
    for v in vals {
        out.extend_from_slice(&v.to_le_bytes());
    }
    out
}

fn f32_entry(name: &str, shape: Vec<usize>, vals: &[f32]) -> Entry {
    Entry {
        name: name.to_string(),
        dtype: Dtype::F32,
        shape,
        bytes: f32_le_bytes(vals),
    }
}

fn serialize_entries(entries: &[Entry]) -> Vec<u8> {
    let views: Vec<(String, TensorView)> = entries
        .iter()
        .map(|e| {
            (
                e.name.clone(),
                TensorView::new(e.dtype, e.shape.clone(), &e.bytes).unwrap(),
            )
        })
        .collect();
    serialize(views.iter().map(|(n, v)| (n.as_str(), v)), None).unwrap()
}

const SUFFIXES: [&str; 9] = [
    ".input_layernorm.weight",
    ".self_attn.q_proj.weight",
    ".self_attn.k_proj.weight",
    ".self_attn.v_proj.weight",
    ".self_attn.o_proj.weight",
    ".post_attention_layernorm.weight",
    ".mlp.up_proj.weight",
    ".mlp.gate_proj.weight",
    ".mlp.down_proj.weight",
];

/// Deterministic distinct values for the tensor with sequence number `k`.
fn vals_for(k: usize) -> Vec<f32> {
    vec![
        k as f32 + 0.25,
        -(k as f32) - 1.5,
        k as f32 * 2.0,
        1.0 / (k as f32 + 2.0),
    ]
}

/// A complete archive for `n_layers` layers. When `tie` is set, no
/// standalone embedding tensor is stored; otherwise it gets its own entry.
fn full_entries(n_layers: usize, tie: bool) -> Vec<Entry> {
    let mut entries: Vec<Entry> = Vec::new();
    let mut k: usize = 0;
    for i in 0..n_layers {
        for suffix in SUFFIXES.iter() {
            let name = format!("model.layers.{i}{suffix}");
            entries.push(f32_entry(&name, vec![2, 2], &vals_for(k)));
            k += 1;
        }
    }
    if !tie {
        entries.push(f32_entry("model.embed_tokens.weight", vec![2, 2], &vals_for(k)));
    }
    k += 1;
    entries.push(f32_entry("model.norm.weight", vec![4], &vals_for(k)));
    k += 1;
    entries.push(f32_entry("lm_head.weight", vec![2, 2], &vals_for(k)));
    entries
}

fn tensor_f32(t: &Tensor<u32>) -> Vec<f32> {
    t.data.iter().map(|b| f32::from_bits(*b)).collect()
}

fn assert_tensor(t: &Tensor<u32>, shape: &[usize], vals: &[f32]) {
    assert_eq!(t.shape, shape.to_vec());
    assert_eq!(tensor_f32(t), vals.to_vec());
}

fn build(
    bytes: &[u8],
    n_layers: usize,
    tie: bool,
) -> Result<LLamaParams<u32, u32>, LoadError> {
    let archive = SafeTensors::deserialize(bytes).unwrap();
    let config = LlamaConfigJson {
        num_hidden_layers: n_layers,
        tie_word_embeddings: tie,
    };
    LLamaParams::from_safetensors(&archive, &config)
}

#[test]
fn build_two_layers_round_trip() {
    let entries = full_entries(2, false);
    let bytes = serialize_entries(&entries);
    let p = build(&bytes, 2, false).unwrap();
    assert_eq!(p.rms_att_w.len(), 2);
    assert_eq!(p.wq.len(), 2);
    assert_eq!(p.wk.len(), 2);
    assert_eq!(p.wv.len(), 2);
    assert_eq!(p.wo.len(), 2);
    assert_eq!(p.rms_ffn_w.len(), 2);
    assert_eq!(p.w_up.len(), 2);
    assert_eq!(p.w_gate.len(), 2);
    assert_eq!(p.w_down.len(), 2);
    for i in 0..2usize {
        let base = 9 * i;
        assert_tensor(&p.rms_att_w[i], &[2, 2], &vals_for(base));
        assert_tensor(&p.wq[i], &[2, 2], &vals_for(base + 1));
        assert_tensor(&p.wk[i], &[2, 2], &vals_for(base + 2));
        assert_tensor(&p.wv[i], &[2, 2], &vals_for(base + 3));
        assert_tensor(&p.wo[i], &[2, 2], &vals_for(base + 4));
        assert_tensor(&p.rms_ffn_w[i], &[2, 2], &vals_for(base + 5));
        assert_tensor(&p.w_up[i], &[2, 2], &vals_for(base + 6));
        assert_tensor(&p.w_gate[i], &[2, 2], &vals_for(base + 7));
        assert_tensor(&p.w_down[i], &[2, 2], &vals_for(base + 8));
    }
    assert_tensor(&p.embedding_table, &[2, 2], &vals_for(18));
    assert_tensor(&p.rms_out_w, &[4], &vals_for(19));
    assert_tensor(&p.lm_head, &[2, 2], &vals_for(20));
}

#[test]
fn tied_embedding_matches_lm_head() {
    let entries = full_entries(1, true);
    let bytes = serialize_entries(&entries);
    let p = build(&bytes, 1, true).unwrap();
    assert_eq!(p.embedding_table.shape, p.lm_head.shape);
    assert_eq!(p.embedding_table.data, p.lm_head.data);
    assert_tensor(&p.embedding_table, &[2, 2], &vals_for(11));
}

#[test]
fn untied_embedding_is_distinct() {
    let entries = full_entries(1, false);
    let bytes = serialize_entries(&entries);
    let p = build(&bytes, 1, false).unwrap();
    assert_tensor(&p.embedding_table, &[2, 2], &vals_for(9));
    assert_tensor(&p.lm_head, &[2, 2], &vals_for(11));
    assert_ne!(p.embedding_table.data, p.lm_head.data);
}

#[test]
fn missing_q_proj_layer_three() {
    let mut entries = full_entries(4, false);
    entries.retain(|e| e.name != "model.layers.3.self_attn.q_proj.weight");
    let bytes = serialize_entries(&entries);
    let err = build(&bytes, 4, false).unwrap_err();
    match &err {
        LoadError::MissingTensorError(name) => {
            assert_eq!(name, "model.layers.3.self_attn.q_proj.weight");
        }
        LoadError::CorruptDataError(_) => panic!("expected a missing-tensor error"),
    }
    assert_eq!(err.name(), "model.layers.3.self_attn.q_proj.weight");
}

#[test]
fn corrupt_length_reports_name() {
    let mut entries = full_entries(2, false);
    let victim = "model.layers.1.mlp.gate_proj.weight";
    for e in entries.iter_mut() {
        if e.name == victim {
            e.dtype = Dtype::U8;
            e.shape = vec![7];
            e.bytes = vec![1, 2, 3, 4, 5, 6, 7];
        }
    }
    let bytes = serialize_entries(&entries);
    let err = build(&bytes, 2, false).unwrap_err();
    match &err {
        LoadError::CorruptDataError(name) => assert_eq!(name, victim),
        LoadError::MissingTensorError(_) => panic!("expected a corrupt-data error"),
    }
}

#[test]
fn first_failure_in_extraction_order() {
    // Layer 0's attention norm is missing and the output head is corrupt:
    // the reported failure is the earlier one in extraction order.
    let mut entries = full_entries(1, false);
    entries.retain(|e| e.name != "model.layers.0.input_layernorm.weight");
    for e in entries.iter_mut() {
        if e.name == "lm_head.weight" {
            e.dtype = Dtype::U8;
            e.shape = vec![3];
            e.bytes = vec![9, 9, 9];
        }
    }
    let bytes = serialize_entries(&entries);
    let err = build(&bytes, 1, false).unwrap_err();
    match &err {
        LoadError::MissingTensorError(name) => {
            assert_eq!(name, "model.layers.0.input_layernorm.weight");
        }
        LoadError::CorruptDataError(_) => panic!("expected the missing tensor to be reported"),
    }
}

#[test]
fn scales_are_neutral_after_build() {
    let entries = full_entries(3, false);
    let bytes = serialize_entries(&entries);
    let p = build(&bytes, 3, false).unwrap();
    let s = &p.weight_scales;
    for v in [
        &s.wq_scales,
        &s.wk_scales,
        &s.wv_scales,
        &s.wo_scales,
        &s.w_gate_scales,
        &s.w_up_scales,
        &s.w_down_scales,
    ] {
        assert_eq!(v.len(), 3);
        for bits in v.iter() {
            assert_eq!(f32::from_bits(*bits), 1.0);
        }
    }
    assert_eq!(f32::from_bits(s.embedding_scale), 1.0);
    assert_eq!(f32::from_bits(s.lm_head_scale), 1.0);
    assert_eq!(f32::from_bits(NEUTRAL_SCALE), 1.0);
}

#[test]
fn zero_layers_build_succeeds() {
    let entries = full_entries(0, false);
    let bytes = serialize_entries(&entries);
    let p = build(&bytes, 0, false).unwrap();
    assert!(p.rms_att_w.is_empty());
    assert!(p.wq.is_empty());
    assert!(p.wk.is_empty());
    assert!(p.wv.is_empty());
    assert!(p.wo.is_empty());
    assert!(p.rms_ffn_w.is_empty());
    assert!(p.w_up.is_empty());
    assert!(p.w_gate.is_empty());
    assert!(p.w_down.is_empty());
    assert!(p.weight_scales.wq_scales.is_empty());
    assert!(p.weight_scales.w_down_scales.is_empty());
    assert_tensor(&p.embedding_table, &[2, 2], &vals_for(0));
    assert_tensor(&p.rms_out_w, &[4], &vals_for(1));
    assert_tensor(&p.lm_head, &[2, 2], &vals_for(2));
}

#[test]
fn neutral_scales_standalone() {
    let s = WeightScales::neutral(5);
    assert_eq!(s.wk_scales.len(), 5);
    assert!(s.wv_scales.iter().all(|b| f32::from_bits(*b) == 1.0));
    assert_eq!(f32::from_bits(s.embedding_scale), 1.0);
}

#[test]
fn decode_exact_values() {
    let vals = [1.0f32, -2.5, 0.0, 3.25e7];
    let bytes = f32_le_bytes(&vals);
    let words = decode_le_words(&bytes).unwrap();
    assert_eq!(words.len(), 4);
    for (w, v) in words.iter().zip(vals.iter()) {
        assert_eq!(f32::from_bits(*w), *v);
    }
}

#[test]
fn decode_rejects_ragged_length() {
    let bytes = vec![0u8, 1, 2, 3, 4];
    assert!(decode_le_words(&bytes).is_none());
    assert!(decode_le_words(&Vec::new()).is_some());
}

#[test]
fn layer_names_follow_template() {
    assert_eq!(
        layer_name_string(0, ".input_layernorm.weight"),
        "model.layers.0.input_layernorm.weight"
    );
    assert_eq!(
        layer_name_string(12, ".mlp.up_proj.weight"),
        "model.layers.12.mlp.up_proj.weight"
    );
    assert_eq!(decimal_string(0), "0");
    assert_eq!(decimal_string(907), "907");
}

#[test]
fn extract_tensor_reads_archive() {
    let entries = vec![f32_entry("solo", vec![1, 2], &[4.5, -1.25])];
    let bytes = serialize_entries(&entries);
    let archive = SafeTensors::deserialize(&bytes).unwrap();
    let t = llama_params::params::extract_tensor(&archive, "solo".to_string()).unwrap();
    assert_tensor(&t, &[1, 2], &[4.5, -1.25]);
    let err = llama_params::params::extract_tensor(&archive, "absent".to_string()).unwrap_err();
    assert!(matches!(err, LoadError::MissingTensorError(_)));
    assert_eq!(err.name(), "absent");
}
