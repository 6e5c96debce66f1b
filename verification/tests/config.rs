use denoise_stream::config::{
    reduce_mask_from_i32, reduce_mask_to_i32, ConfigStore, MaskReduction, SuppressionParams,
    SuppressionSettings, DEFAULT_ATTEN_LIM_DB, DEFAULT_MAX_DB_DF_THRESH,
    DEFAULT_MAX_DB_ERB_THRESH, DEFAULT_MIN_DB_THRESH, DEFAULT_POST_FILTER_BETA,
};
use denoise_stream::sample::{
    clamp_non_negative, duplicate, magnitude, magnitude_or_zero, nan, SILENCE,
};

fn settings(atten: f32, min: f32, erb: f32, df: f32, beta: f32, mode: i32) -> SuppressionSettings {
    SuppressionSettings {
        attenuation_limit_db: atten.to_bits(),
        min_db_threshold: min.to_bits(),
        max_db_erb_threshold: erb.to_bits(),
        max_db_df_threshold: df.to_bits(),
        post_filter_beta: beta.to_bits(),
        reduce_mask_mode: mode,
    }
}

#[test]
fn default_constants_are_the_reference_levels() {
    assert_eq!(f32::from_bits(DEFAULT_ATTEN_LIM_DB), 100.0);
    assert_eq!(f32::from_bits(DEFAULT_MIN_DB_THRESH), -10.0);
    assert_eq!(f32::from_bits(DEFAULT_MAX_DB_ERB_THRESH), 30.0);
    assert_eq!(f32::from_bits(DEFAULT_MAX_DB_DF_THRESH), 20.0);
    assert_eq!(f32::from_bits(DEFAULT_POST_FILTER_BETA), 0.02);
    assert_eq!(f32::from_bits(SILENCE), 0.0);
}

#[test]
fn new_store_holds_defaults_at_revision_zero() {
    let store = ConfigStore::new();
    let (params, revision) = store.read();
    assert_eq!(revision, 0);
    assert_eq!(store.revision(), 0);
    assert_eq!(f32::from_bits(params.atten_lim_db), 100.0);
    assert_eq!(f32::from_bits(params.min_db_thresh), -10.0);
    assert_eq!(f32::from_bits(params.max_db_erb_thresh), 30.0);
    assert_eq!(f32::from_bits(params.max_db_df_thresh), 20.0);
    assert_eq!(f32::from_bits(params.post_filter_beta), 0.02);
    assert!(matches!(params.reduce_mask, MaskReduction::Mean));
    let by_default = ConfigStore::default();
    assert_eq!(by_default.revision(), 0);
    let defaults = SuppressionParams::default();
    assert_eq!(defaults.atten_lim_db, params.atten_lim_db);
    assert_eq!(defaults.post_filter_beta, params.post_filter_beta);
}

#[test]
fn write_clamps_attenuation_and_post_filter() {
    let mut store = ConfigStore::new();
    store.write(&settings(-40.0, -15.0, 35.0, -3.5, -0.5, 1));
    let (params, revision) = store.read();
    assert_eq!(revision, 1);
    assert_eq!(f32::from_bits(params.atten_lim_db), 40.0);
    assert_eq!(f32::from_bits(params.min_db_thresh), -15.0);
    assert_eq!(f32::from_bits(params.max_db_erb_thresh), 35.0);
    assert_eq!(f32::from_bits(params.max_db_df_thresh), -3.5);
    assert_eq!(f32::from_bits(params.post_filter_beta), 0.0);
    assert!(matches!(params.reduce_mask, MaskReduction::Max));
}

#[test]
fn write_keeps_values_of_the_legal_domain() {
    let mut store = ConfigStore::new();
    store.write(&settings(12.5, 1.0, 2.0, 3.0, 0.25, 2));
    let (params, _) = store.read();
    assert_eq!(f32::from_bits(params.atten_lim_db), 12.5);
    assert_eq!(f32::from_bits(params.post_filter_beta), 0.25);
    assert!(matches!(params.reduce_mask, MaskReduction::Mean));
}

#[test]
fn write_turns_a_nan_strength_into_zero() {
    let mut store = ConfigStore::new();
    store.write(&settings(1.0, 0.0, 0.0, 0.0, f32::NAN, 0));
    let (params, _) = store.read();
    assert_eq!(params.post_filter_beta, 0);
    assert!(matches!(params.reduce_mask, MaskReduction::Off));
    store.write(&settings(1.0, 0.0, 0.0, 0.0, f32::INFINITY, 0));
    let (params, _) = store.read();
    assert_eq!(f32::from_bits(params.post_filter_beta), f32::INFINITY);
    store.write(&settings(1.0, 0.0, 0.0, 0.0, f32::NEG_INFINITY, 0));
    let (params, _) = store.read();
    assert_eq!(f32::from_bits(params.post_filter_beta), 0.0);
}

#[test]
fn write_turns_a_nan_limit_into_zero() {
    let mut store = ConfigStore::new();
    store.write(&settings(f32::NAN, -1.0, 2.0, 3.0, 0.5, 1));
    let (params, revision) = store.read();
    assert_eq!(revision, 1);
    assert_eq!(params.atten_lim_db, 0);
    assert_eq!(f32::from_bits(params.atten_lim_db), 0.0);
    assert!(f32::from_bits(params.atten_lim_db) >= 0.0);
    assert_eq!(f32::from_bits(params.min_db_thresh), -1.0);
    assert_eq!(f32::from_bits(params.post_filter_beta), 0.5);
    store.write(&settings(-f32::NAN, 0.0, 0.0, 0.0, 0.0, 0));
    assert_eq!(store.read().0.atten_lim_db, 0);
    store.write(&settings(f32::NEG_INFINITY, 0.0, 0.0, 0.0, 0.0, 0));
    assert_eq!(f32::from_bits(store.read().0.atten_lim_db), f32::INFINITY);
    store.write(&settings(-0.0, 0.0, 0.0, 0.0, 0.0, 0));
    assert_eq!(store.read().0.atten_lim_db, 0);
    store.write(&settings(f32::NAN, f32::NAN, f32::NAN, f32::NAN, f32::NAN, 0));
    let (params, _) = store.read();
    assert_eq!(params.atten_lim_db, 0);
    assert_eq!(params.post_filter_beta, 0);
    assert!(f32::from_bits(params.min_db_thresh).is_nan());
    assert!(f32::from_bits(params.max_db_erb_thresh).is_nan());
    assert!(f32::from_bits(params.max_db_df_thresh).is_nan());
}

#[test]
fn magnitude_or_zero_is_the_absolute_value_of_a_number() {
    for value in [0.0f32, 1.0, -1.0, 0.5, -123.25, 1e-30, -1e30, f32::MAX, f32::MIN] {
        assert_eq!(magnitude_or_zero(value.to_bits()), value.abs().to_bits());
    }
    assert_eq!(magnitude_or_zero(f32::NAN.to_bits()), 0);
    assert_eq!(magnitude_or_zero((-f32::NAN).to_bits()), 0);
    assert_eq!(magnitude_or_zero(0x7f80_0001), 0);
    assert_eq!(magnitude_or_zero((-0.0f32).to_bits()), 0);
    assert_eq!(
        f32::from_bits(magnitude_or_zero(f32::NEG_INFINITY.to_bits())),
        f32::INFINITY
    );
}

#[test]
fn every_write_moves_the_revision() {
    let mut store = ConfigStore::new();
    let same = settings(100.0, -10.0, 30.0, 20.0, 0.02, 2);
    for expected in 1..=5u64 {
        let before = store.revision();
        store.write(&same);
        assert_eq!(store.revision(), expected);
        assert!(store.revision() > before);
    }
}

#[test]
fn writing_the_same_settings_again_keeps_the_parameters() {
    let mut store = ConfigStore::new();
    let same = settings(-7.0, -11.0, 31.0, 21.0, -1.0, 9);
    store.write(&same);
    let (first, first_revision) = store.read();
    store.write(&same);
    let (second, second_revision) = store.read();
    assert_ne!(first_revision, second_revision);
    assert_eq!(second_revision, first_revision + 1);
    assert_eq!(first.atten_lim_db, second.atten_lim_db);
    assert_eq!(first.min_db_thresh, second.min_db_thresh);
    assert_eq!(first.max_db_erb_thresh, second.max_db_erb_thresh);
    assert_eq!(first.max_db_df_thresh, second.max_db_df_thresh);
    assert_eq!(first.post_filter_beta, second.post_filter_beta);
    assert_eq!(reduce_mask_to_i32(first.reduce_mask), reduce_mask_to_i32(second.reduce_mask));
}

#[test]
fn writing_stored_parameters_back_changes_nothing() {
    let mut store = ConfigStore::new();
    store.write(&settings(-7.0, -11.0, 31.0, 21.0, -1.0, 9));
    let (first, _) = store.read();
    store.write(&first.settings());
    let (second, _) = store.read();
    assert_eq!(first.atten_lim_db, second.atten_lim_db);
    assert_eq!(first.post_filter_beta, second.post_filter_beta);
    assert_eq!(reduce_mask_to_i32(first.reduce_mask), 0);
    assert_eq!(reduce_mask_to_i32(second.reduce_mask), 0);
}

#[test]
fn sanitized_matches_what_a_write_stores() {
    let raw = settings(-3.0, 4.0, 5.0, 6.0, 0.5, 1);
    let params = SuppressionParams::sanitized(&raw);
    assert_eq!(f32::from_bits(params.atten_lim_db), 3.0);
    assert_eq!(f32::from_bits(params.post_filter_beta), 0.5);
    let seen = params.settings();
    assert_eq!(seen.reduce_mask_mode, 1);
    assert_eq!(f32::from_bits(seen.attenuation_limit_db), 3.0);
    assert_eq!(f32::from_bits(seen.min_db_threshold), 4.0);
    assert_eq!(f32::from_bits(seen.max_db_erb_threshold), 5.0);
    assert_eq!(f32::from_bits(seen.max_db_df_threshold), 6.0);
}

#[test]
fn mode_numbers_map_to_modes() {
    assert!(matches!(reduce_mask_from_i32(0), MaskReduction::Off));
    assert!(matches!(reduce_mask_from_i32(1), MaskReduction::Max));
    assert!(matches!(reduce_mask_from_i32(2), MaskReduction::Mean));
    assert!(matches!(reduce_mask_from_i32(3), MaskReduction::Off));
    assert!(matches!(reduce_mask_from_i32(-1), MaskReduction::Off));
    assert!(matches!(reduce_mask_from_i32(i32::MAX), MaskReduction::Off));
    assert_eq!(reduce_mask_to_i32(MaskReduction::Off), 0);
    assert_eq!(reduce_mask_to_i32(MaskReduction::Max), 1);
    assert_eq!(reduce_mask_to_i32(MaskReduction::Mean), 2);
}

#[test]
fn magnitude_is_the_absolute_value() {
    for value in [0.0f32, 1.0, -1.0, 0.5, -123.25, 1e-30, -1e30, f32::MAX, f32::MIN] {
        assert_eq!(magnitude(value.to_bits()), value.abs().to_bits());
    }
    assert_eq!(f32::from_bits(magnitude(f32::NEG_INFINITY.to_bits())), f32::INFINITY);
    assert_eq!(magnitude((-0.0f32).to_bits()), 0);
    assert!(f32::from_bits(magnitude(f32::NAN.to_bits())).is_nan());
}

#[test]
fn clamp_non_negative_is_the_greater_of_value_and_zero() {
    for value in [0.0f32, 1.0, -1.0, 0.02, -0.02, 1e-30, -1e30, f32::MAX, f32::MIN] {
        assert_eq!(clamp_non_negative(value.to_bits()), value.max(0.0).to_bits());
    }
    assert_eq!(clamp_non_negative(f32::NAN.to_bits()), 0);
    assert_eq!(clamp_non_negative((-f32::NAN).to_bits()), 0);
    assert_eq!(clamp_non_negative((-0.0f32).to_bits()), 0);
    assert_eq!(
        f32::from_bits(clamp_non_negative(f32::INFINITY.to_bits())),
        f32::INFINITY
    );
}

#[test]
fn nan_reads_exponent_and_fraction() {
    for value in [0.0f32, -0.0, 1.0, -2.5, f32::MAX, f32::MIN, f32::MIN_POSITIVE, 1e-45] {
        assert!(!nan(value.to_bits()));
    }
    assert!(nan(f32::NAN.to_bits()));
    assert!(nan((-f32::NAN).to_bits()));
    assert!(nan(0x7f80_0001));
    assert!(!nan(f32::INFINITY.to_bits()));
    assert!(!nan(f32::NEG_INFINITY.to_bits()));
}

#[test]
fn duplicate_puts_one_sample_on_both_channels() {
    let frame = duplicate(0.25f32.to_bits());
    assert_eq!(f32::from_bits(frame.left), 0.25);
    assert_eq!(f32::from_bits(frame.right), 0.25);
}
