//! The architecture of one transformer variant.
use crate::error::{ConfigField, Error};
use vstd::prelude::*;

verus! {

/// Whether the binary32 number with the bit pattern `bits` is greater than
/// zero: its sign bit is clear, and it is neither zero nor a NaN.
pub open spec fn spec_positive_binary32(bits: u32) -> bool {
    0 < bits <= 0x7f80_0000
}

/// The hyperparameters of a model. Plain data: it is filled once, when the
/// model is loaded, and only read afterwards.
#[derive(Debug, Clone, Copy, PartialEq, Eq)]
pub struct Config {
    /// The width of the model.
    pub hidden_size: i64,
    /// The number of attention heads.
    pub num_heads: i64,
    /// The number of key/value heads; fewer than `num_heads` where groups of
    /// query heads share them.
    pub num_kv_heads: i64,
    /// The intermediate width of the feed-forward block.
    pub ffn_size: i64,
    /// The epsilon of the normalization layers, a binary32 number, as its bit
    /// pattern.
    pub norm_eps_bits: u32,
    /// The number of decoder blocks.
    pub num_layers: i64,
    /// The number of tokens in the vocabulary.
    pub vocab_size: i64,
    /// The longest sequence the model supports.
    pub max_ctx_length: i64,
    /// Whether the query, key and value projections of the attention carry a
    /// bias. The feed-forward block does not go by it.
    pub has_qkv_proj_bias: bool,
}

impl Config {
    /// The field's value is in its range.
    pub open spec fn field_ok(self, field: ConfigField) -> bool {
        match field {
            ConfigField::HiddenSize => self.hidden_size > 0,
            ConfigField::NumHeads => self.num_heads > 0 && self.hidden_size % self.num_heads == 0,
            ConfigField::NumKvHeads => 0 < self.num_kv_heads <= self.num_heads && self.num_heads
                % self.num_kv_heads == 0,
            ConfigField::FfnSize => self.ffn_size > 0,
            ConfigField::NormEps => spec_positive_binary32(self.norm_eps_bits),
            ConfigField::NumLayers => self.num_layers > 0,
            ConfigField::VocabSize => self.vocab_size > 0,
            ConfigField::MaxCtxLength => self.max_ctx_length > 0,
        }
    }

    /// Every size is positive, the heads divide the width, the key/value
    /// heads divide the heads and are no more than they, and the epsilon is
    /// greater than zero.
    pub open spec fn wf(self) -> bool {
        forall|field: ConfigField| self.field_ok(field)
    }

    /// The first field, in the order of declaration, whose value is outside
    /// its range.
    pub open spec fn first_invalid(self) -> Option<ConfigField> {
        if !self.field_ok(ConfigField::HiddenSize) {
            Some(ConfigField::HiddenSize)
        } else if !self.field_ok(ConfigField::NumHeads) {
            Some(ConfigField::NumHeads)
        } else if !self.field_ok(ConfigField::NumKvHeads) {
            Some(ConfigField::NumKvHeads)
        } else if !self.field_ok(ConfigField::FfnSize) {
            Some(ConfigField::FfnSize)
        } else if !self.field_ok(ConfigField::NormEps) {
            Some(ConfigField::NormEps)
        } else if !self.field_ok(ConfigField::NumLayers) {
            Some(ConfigField::NumLayers)
        } else if !self.field_ok(ConfigField::VocabSize) {
            Some(ConfigField::VocabSize)
        } else if !self.field_ok(ConfigField::MaxCtxLength) {
            Some(ConfigField::MaxCtxLength)
        } else {
            None
        }
    }

    /// Checks every field against its range, in the order of declaration.
    pub fn validate(&self) -> (r: Result<(), Error>)
        ensures
            r is Ok <==> self.wf(),
            match r {
                Ok(_) => self.first_invalid() is None,
                Err(e) => self.first_invalid() == Some(e->field) && e is Value,
            },
    {
        if self.hidden_size <= 0 {
            return Err(Error::Value { field: ConfigField::HiddenSize });
        }
        if self.num_heads <= 0 || self.hidden_size % self.num_heads != 0 {
            return Err(Error::Value { field: ConfigField::NumHeads });
        }
        if self.num_kv_heads <= 0 || self.num_kv_heads > self.num_heads || self.num_heads
            % self.num_kv_heads != 0 {
            return Err(Error::Value { field: ConfigField::NumKvHeads });
        }
        if self.ffn_size <= 0 {
            return Err(Error::Value { field: ConfigField::FfnSize });
        }
        if self.norm_eps_bits == 0 || self.norm_eps_bits > 0x7f80_0000 {
            return Err(Error::Value { field: ConfigField::NormEps });
        }
        if self.num_layers <= 0 {
            return Err(Error::Value { field: ConfigField::NumLayers });
        }
        if self.vocab_size <= 0 {
            return Err(Error::Value { field: ConfigField::VocabSize });
        }
        if self.max_ctx_length <= 0 {
            return Err(Error::Value { field: ConfigField::MaxCtxLength });
        }
        Ok(())
    }
}

} // verus!
