use llama_mlp::{Config, ConfigField, Error};

fn sample() -> Config {
    Config {
        hidden_size: 4096,
        num_heads: 32,
        num_kv_heads: 8,
        ffn_size: 11008,
        norm_eps_bits: 1e-5f32.to_bits(),
        num_layers: 32,
        vocab_size: 32000,
        max_ctx_length: 4096,
        has_qkv_proj_bias: false,
    }
}

fn refused(config: Config) -> ConfigField {
    match config.validate() {
        Err(Error::Value { field }) => field,
        other => panic!("{other:?}"),
    }
}

#[test]
fn validate_accepts_a_model() {
    assert_eq!(sample().validate(), Ok(()));
    assert_eq!(Config { has_qkv_proj_bias: true, ..sample() }.validate(), Ok(()));
    assert_eq!(Config { num_kv_heads: 32, ..sample() }.validate(), Ok(()));
    assert_eq!(Config { num_kv_heads: 1, ..sample() }.validate(), Ok(()));
}

#[test]
fn validate_names_each_field() {
    assert_eq!(refused(Config { hidden_size: 0, ..sample() }), ConfigField::HiddenSize);
    assert_eq!(refused(Config { hidden_size: -4096, ..sample() }), ConfigField::HiddenSize);
    assert_eq!(refused(Config { num_heads: 0, ..sample() }), ConfigField::NumHeads);
    assert_eq!(refused(Config { num_heads: 33, ..sample() }), ConfigField::NumHeads);
    assert_eq!(refused(Config { num_kv_heads: 0, ..sample() }), ConfigField::NumKvHeads);
    assert_eq!(refused(Config { num_kv_heads: 64, ..sample() }), ConfigField::NumKvHeads);
    assert_eq!(refused(Config { num_kv_heads: 5, ..sample() }), ConfigField::NumKvHeads);
    assert_eq!(refused(Config { ffn_size: -1, ..sample() }), ConfigField::FfnSize);
    assert_eq!(refused(Config { num_layers: 0, ..sample() }), ConfigField::NumLayers);
    assert_eq!(refused(Config { vocab_size: 0, ..sample() }), ConfigField::VocabSize);
    assert_eq!(refused(Config { max_ctx_length: i64::MIN, ..sample() }), ConfigField::MaxCtxLength);
}

#[test]
fn validate_names_the_first_field() {
    let config = Config { hidden_size: 0, ffn_size: 0, max_ctx_length: 0, ..sample() };
    assert_eq!(refused(config), ConfigField::HiddenSize);
    let config = Config { ffn_size: 0, max_ctx_length: 0, ..sample() };
    assert_eq!(refused(config), ConfigField::FfnSize);
}

#[test]
fn validate_reads_the_epsilon_as_binary32() {
    for eps in [1e-5f32, 1e-6, f32::MIN_POSITIVE, 1.0, f32::MAX, f32::INFINITY] {
        assert!(eps > 0.0);
        assert_eq!(Config { norm_eps_bits: eps.to_bits(), ..sample() }.validate(), Ok(()));
    }
    assert_eq!(Config { norm_eps_bits: 1, ..sample() }.validate(), Ok(()));
    for eps in [0.0f32, -0.0, -1e-5, f32::NEG_INFINITY, f32::NAN, -f32::NAN] {
        assert!(!(eps > 0.0));
        assert_eq!(
            refused(Config { norm_eps_bits: eps.to_bits(), ..sample() }),
            ConfigField::NormEps
        );
    }
    assert_eq!(refused(Config { norm_eps_bits: u32::MAX, ..sample() }), ConfigField::NormEps);
    assert_eq!(refused(Config { norm_eps_bits: 0x7f80_0001, ..sample() }), ConfigField::NormEps);
}
