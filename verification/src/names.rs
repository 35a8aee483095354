//! Source-tensor name resolution: the fixed naming template that maps a
//! layer index and a weight role to the archive name of its tensor.

use vstd::prelude::*;
use vstd::string::StringExecFns;

verus! {

/// The decimal digit character for `d`.
pub open spec fn digit_char(d: nat) -> char {
    if d == 0 {
        '0'
    } else if d == 1 {
        '1'
    } else if d == 2 {
        '2'
    } else if d == 3 {
        '3'
    } else if d == 4 {
        '4'
    } else if d == 5 {
        '5'
    } else if d == 6 {
        '6'
    } else if d == 7 {
        '7'
    } else if d == 8 {
        '8'
    } else {
        '9'
    }
}

/// The decimal numeral of `n`, most significant digit first, no leading
/// zeros (`0` itself is the single digit `0`).
pub open spec fn decimal(n: nat) -> Seq<char>
    decreases n,
{
    if n < 10 {
        seq![digit_char(n)]
    } else {
        decimal(n / 10).push(digit_char(n % 10))
    }
}

/// The archive name of the per-layer tensor with the given role suffix:
/// `model.layers.{i}{suffix}`.
pub open spec fn layer_name(i: nat, suffix: Seq<char>) -> Seq<char> {
    "model.layers."@ + decimal(i) + suffix
}

/// Name of layer `i`'s attention-norm vector.
pub open spec fn attn_norm_name(i: nat) -> Seq<char> {
    layer_name(i, ".input_layernorm.weight"@)
}

/// Name of layer `i`'s query projection matrix.
pub open spec fn wq_name(i: nat) -> Seq<char> {
    layer_name(i, ".self_attn.q_proj.weight"@)
}

/// Name of layer `i`'s key projection matrix.
pub open spec fn wk_name(i: nat) -> Seq<char> {
    layer_name(i, ".self_attn.k_proj.weight"@)
}

/// Name of layer `i`'s value projection matrix.
pub open spec fn wv_name(i: nat) -> Seq<char> {
    layer_name(i, ".self_attn.v_proj.weight"@)
}

/// Name of layer `i`'s output projection matrix.
pub open spec fn wo_name(i: nat) -> Seq<char> {
    layer_name(i, ".self_attn.o_proj.weight"@)
}

/// Name of layer `i`'s ffn-norm vector.
pub open spec fn ffn_norm_name(i: nat) -> Seq<char> {
    layer_name(i, ".post_attention_layernorm.weight"@)
}

/// Name of layer `i`'s up projection matrix.
pub open spec fn w_up_name(i: nat) -> Seq<char> {
    layer_name(i, ".mlp.up_proj.weight"@)
}

/// Name of layer `i`'s gate projection matrix.
pub open spec fn w_gate_name(i: nat) -> Seq<char> {
    layer_name(i, ".mlp.gate_proj.weight"@)
}

/// Name of layer `i`'s down projection matrix.
pub open spec fn w_down_name(i: nat) -> Seq<char> {
    layer_name(i, ".mlp.down_proj.weight"@)
}

/// Name of the standalone embedding table tensor.
pub open spec fn embed_tokens_name() -> Seq<char> {
    "model.embed_tokens.weight"@
}

/// Name of the output normalization vector.
pub open spec fn output_norm_name() -> Seq<char> {
    "model.norm.weight"@
}

/// Name of the output-head projection matrix.
pub open spec fn lm_head_name() -> Seq<char> {
    "lm_head.weight"@
}

/// The source name the embedding table is loaded from: the output head's
/// own name when embeddings are tied to it, a distinct name otherwise.
pub open spec fn embedding_name(tie: bool) -> Seq<char> {
    if tie {
        lm_head_name()
    } else {
        embed_tokens_name()
    }
}

/// Law: the embedding table and the output head resolve to the same
/// source name exactly when the tie flag is set.
pub proof fn lemma_embedding_source(tie: bool)
    ensures
        tie <==> embedding_name(tie) == lm_head_name(),
{
    if !tie {
        reveal_strlit("model.embed_tokens.weight");
        reveal_strlit("lm_head.weight");
        assert(embed_tokens_name().len() != lm_head_name().len());
    }
}

fn digit_str(d: usize) -> (r: &'static str)
    requires
        d < 10,
    ensures
        r@ == seq![digit_char(d as nat)],
{
    let r: &'static str = if d == 0 {
        "0"
    } else if d == 1 {
        "1"
    } else if d == 2 {
        "2"
    } else if d == 3 {
        "3"
    } else if d == 4 {
        "4"
    } else if d == 5 {
        "5"
    } else if d == 6 {
        "6"
    } else if d == 7 {
        "7"
    } else if d == 8 {
        "8"
    } else {
        "9"
    };
    proof {
        reveal_strlit("0");
        reveal_strlit("1");
        reveal_strlit("2");
        reveal_strlit("3");
        reveal_strlit("4");
        reveal_strlit("5");
        reveal_strlit("6");
        reveal_strlit("7");
        reveal_strlit("8");
        reveal_strlit("9");
        assert(r@ =~= seq![digit_char(d as nat)]);
    }
    r
}

/// Renders `n` in decimal.
pub fn decimal_string(n: usize) -> (r: String)
    ensures
        r@ == decimal(n as nat),
    decreases n,
{
    if n < 10 {
        String::from_str(digit_str(n))
    } else {
        let r = decimal_string(n / 10).concat(digit_str(n % 10));
        proof {
            assert(decimal((n as nat) / 10) + seq![digit_char((n as nat) % 10)] =~= decimal(
                (n as nat) / 10,
            ).push(digit_char((n as nat) % 10)));
        }
        r
    }
}

/// Builds the archive name `model.layers.{i}{suffix}`.
pub fn layer_name_string(i: usize, suffix: &str) -> (r: String)
    ensures
        r@ == layer_name(i as nat, suffix@),
{
    let mut r = String::from_str("model.layers.");
    let num = decimal_string(i);
    r.append(num.as_str());
    r.append(suffix);
    proof {
        assert(r@ =~= layer_name(i as nat, suffix@));
    }
    r
}

} // verus!
