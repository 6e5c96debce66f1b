//! Suppression parameters and the store that hands them to the audio side.
//!
//! The host writes settings at any time; the audio callback polls the
//! store's revision and rebuilds its worker when the revision has moved.

use crate::sample::{
    clamp_non_negative, is_non_negative, magnitude_or_zero, spec_clamp_non_negative,
    spec_magnitude_or_zero,
};
use vstd::prelude::*;

verus! {

/// How the transform reduces its per-channel masks to one.
#[derive(Clone, Copy, Debug)]
pub enum MaskReduction {
    Off,
    Max,
    Mean,
}

/// Number under which the host selects the maximum of the masks.
pub const MASK_REDUCTION_MAX: i32 = 1;

/// Number under which the host selects the mean of the masks.
pub const MASK_REDUCTION_MEAN: i32 = 2;

/// The mode that a host number selects: every number without a mode of its
/// own selects `Off`.
pub open spec fn spec_mask_reduction(mode: i32) -> MaskReduction {
    if mode == MASK_REDUCTION_MAX {
        MaskReduction::Max
    } else if mode == MASK_REDUCTION_MEAN {
        MaskReduction::Mean
    } else {
        MaskReduction::Off
    }
}

/// The number under which the host knows a mode.
pub open spec fn spec_mask_reduction_number(mode: MaskReduction) -> i32 {
    match mode {
        MaskReduction::Off => 0,
        MaskReduction::Max => MASK_REDUCTION_MAX,
        MaskReduction::Mean => MASK_REDUCTION_MEAN,
    }
}

/// Maps the host's mode number to a mode.
pub fn reduce_mask_from_i32(mode: i32) -> (out: MaskReduction)
    ensures
        out == spec_mask_reduction(mode),
{
    if mode == MASK_REDUCTION_MAX {
        MaskReduction::Max
    } else if mode == MASK_REDUCTION_MEAN {
        MaskReduction::Mean
    } else {
        MaskReduction::Off
    }
}

/// Maps a mode back to the host's number for it.
pub fn reduce_mask_to_i32(mode: MaskReduction) -> (out: i32)
    ensures
        out == spec_mask_reduction_number(mode),
        spec_mask_reduction(out) == mode,
{
    match mode {
        MaskReduction::Off => 0,
        MaskReduction::Max => MASK_REDUCTION_MAX,
        MaskReduction::Mean => MASK_REDUCTION_MEAN,
    }
}

/// The six scalars as the host exposes them, before any validation.
/// The five levels are sample-style bit patterns.
#[derive(Clone, Copy, Debug)]
pub struct SuppressionSettings {
    pub attenuation_limit_db: u32,
    pub min_db_threshold: u32,
    pub max_db_erb_threshold: u32,
    pub max_db_df_threshold: u32,
    pub post_filter_beta: u32,
    pub reduce_mask_mode: i32,
}

/// Validated parameters, as one worker captures them for its lifetime.
#[derive(Clone, Copy, Debug)]
pub struct SuppressionParams {
    pub atten_lim_db: u32,
    pub min_db_thresh: u32,
    pub max_db_erb_thresh: u32,
    pub max_db_df_thresh: u32,
    pub post_filter_beta: u32,
    pub reduce_mask: MaskReduction,
}

/// Bit pattern of 100, the attenuation limit in dB that a new store holds.
pub const DEFAULT_ATTEN_LIM_DB: u32 = 0x42c8_0000;

/// Bit pattern of -10, the minimum threshold in dB that a new store holds.
pub const DEFAULT_MIN_DB_THRESH: u32 = 0xc120_0000;

/// Bit pattern of 30, the ERB threshold in dB that a new store holds.
pub const DEFAULT_MAX_DB_ERB_THRESH: u32 = 0x41f0_0000;

/// Bit pattern of 20, the deep-filter threshold in dB that a new store holds.
pub const DEFAULT_MAX_DB_DF_THRESH: u32 = 0x41a0_0000;

/// Bit pattern of two hundredths, the post-filter strength that a new store holds.
pub const DEFAULT_POST_FILTER_BETA: u32 = 0x3ca3_d70a;

impl SuppressionParams {
    /// The legal domain: the attenuation limit and the post-filter strength
    /// are numbers that are zero or greater. The three thresholds are
    /// unconstrained.
    pub open spec fn valid(self) -> bool {
        &&& is_non_negative(self.atten_lim_db)
        &&& is_non_negative(self.post_filter_beta)
    }

    /// The parameters that a new store holds.
    pub open spec fn spec_default() -> SuppressionParams {
        SuppressionParams {
            atten_lim_db: DEFAULT_ATTEN_LIM_DB,
            min_db_thresh: DEFAULT_MIN_DB_THRESH,
            max_db_erb_thresh: DEFAULT_MAX_DB_ERB_THRESH,
            max_db_df_thresh: DEFAULT_MAX_DB_DF_THRESH,
            post_filter_beta: DEFAULT_POST_FILTER_BETA,
            reduce_mask: MaskReduction::Mean,
        }
    }

    /// What a write stores for given settings: the attenuation limit loses
    /// its sign, the post-filter strength is raised to zero, a limit or a
    /// strength that is no number becomes zero, the mode number is mapped
    /// to a mode, and the thresholds are taken as they are.
    pub open spec fn spec_sanitized(settings: SuppressionSettings) -> SuppressionParams {
        SuppressionParams {
            atten_lim_db: spec_magnitude_or_zero(settings.attenuation_limit_db),
            min_db_thresh: settings.min_db_threshold,
            max_db_erb_thresh: settings.max_db_erb_threshold,
            max_db_df_thresh: settings.max_db_df_threshold,
            post_filter_beta: spec_clamp_non_negative(settings.post_filter_beta),
            reduce_mask: spec_mask_reduction(settings.reduce_mask_mode),
        }
    }

    /// The settings under which the host sees these parameters.
    pub open spec fn spec_settings(self) -> SuppressionSettings {
        SuppressionSettings {
            attenuation_limit_db: self.atten_lim_db,
            min_db_threshold: self.min_db_thresh,
            max_db_erb_threshold: self.max_db_erb_thresh,
            max_db_df_threshold: self.max_db_df_thresh,
            post_filter_beta: self.post_filter_beta,
            reduce_mask_mode: spec_mask_reduction_number(self.reduce_mask),
        }
    }

    /// Validates settings into parameters.
    pub fn sanitized(settings: &SuppressionSettings) -> (params: SuppressionParams)
        ensures
            params == Self::spec_sanitized(*settings),
            params.valid(),
    {
        SuppressionParams {
            atten_lim_db: magnitude_or_zero(settings.attenuation_limit_db),
            min_db_thresh: settings.min_db_threshold,
            max_db_erb_thresh: settings.max_db_erb_threshold,
            max_db_df_thresh: settings.max_db_df_threshold,
            post_filter_beta: clamp_non_negative(settings.post_filter_beta),
            reduce_mask: reduce_mask_from_i32(settings.reduce_mask_mode),
        }
    }

    /// The settings under which the host sees these parameters.
    pub fn settings(&self) -> (settings: SuppressionSettings)
        ensures
            settings == self.spec_settings(),
    {
        SuppressionSettings {
            attenuation_limit_db: self.atten_lim_db,
            min_db_threshold: self.min_db_thresh,
            max_db_erb_threshold: self.max_db_erb_thresh,
            max_db_df_threshold: self.max_db_df_thresh,
            post_filter_beta: self.post_filter_beta,
            reduce_mask_mode: reduce_mask_to_i32(self.reduce_mask),
        }
    }
}

impl Default for SuppressionParams {
    fn default() -> (params: Self)
        ensures
            params == SuppressionParams::spec_default(),
            params.valid(),
    {
        assert(0x42c8_0000u32 & 0x8000_0000u32 == 0) by (bit_vector);
        assert(0x42c8_0000u32 & 0x7f80_0000u32 != 0x7f80_0000u32) by (bit_vector);
        assert(0x3ca3_d70au32 & 0x8000_0000u32 == 0) by (bit_vector);
        assert(0x3ca3_d70au32 & 0x7f80_0000u32 != 0x7f80_0000u32) by (bit_vector);
        SuppressionParams {
            atten_lim_db: DEFAULT_ATTEN_LIM_DB,
            min_db_thresh: DEFAULT_MIN_DB_THRESH,
            max_db_erb_thresh: DEFAULT_MAX_DB_ERB_THRESH,
            max_db_df_thresh: DEFAULT_MAX_DB_DF_THRESH,
            post_filter_beta: DEFAULT_POST_FILTER_BETA,
            reduce_mask: MaskReduction::Mean,
        }
    }
}

/// The current parameters and the count of writes that led to them.
///
/// The store itself is plain data: whoever shares it between the host and
/// the audio side guards it with a short critical section around `write`
/// and `read`.
#[derive(Clone, Copy, Debug)]
pub struct ConfigStore {
    params: SuppressionParams,
    revision: u64,
}

/// The revision that follows `revision`: one more, and zero after the
/// greatest.
pub open spec fn spec_next_revision(revision: u64) -> u64 {
    if revision == u64::MAX {
        0
    } else {
        (revision + 1) as u64
    }
}

impl ConfigStore {
    /// The parameters currently stored.
    pub closed spec fn spec_params(self) -> SuppressionParams {
        self.params
    }

    /// The number of the current configuration generation.
    pub closed spec fn spec_revision(self) -> u64 {
        self.revision
    }

    /// Every store holds parameters of the legal domain.
    pub open spec fn wf(self) -> bool {
        self.spec_params().valid()
    }

    /// This store is what one write of `settings` makes of `before`.
    pub open spec fn is_write_of(self, before: ConfigStore, settings: SuppressionSettings) -> bool {
        &&& self.spec_params() == SuppressionParams::spec_sanitized(settings)
        &&& self.spec_revision() == spec_next_revision(before.spec_revision())
    }

    /// A store with the default parameters at revision zero.
    pub fn new() -> (store: ConfigStore)
        ensures
            store.wf(),
            store.spec_params() == SuppressionParams::spec_default(),
            store.spec_revision() == 0,
    {
        ConfigStore { params: SuppressionParams::default(), revision: 0 }
    }

    /// Validates `settings`, replaces the parameters by the result and
    /// moves the revision on by one.
    pub fn write(&mut self, settings: &SuppressionSettings)
        ensures
            final(self).wf(),
            final(self).spec_params() == SuppressionParams::spec_sanitized(*settings),
            final(self).spec_revision() == spec_next_revision(old(self).spec_revision()),
            final(self).spec_revision() != old(self).spec_revision(),
            old(self).spec_revision() < u64::MAX ==> final(self).spec_revision()
                > old(self).spec_revision(),
            final(self).is_write_of(*old(self), *settings),
    {
        self.params = SuppressionParams::sanitized(settings);
        self.revision = self.revision.wrapping_add(1);
    }

    /// A consistent snapshot of the parameters and their revision.
    pub fn read(&self) -> (snapshot: (SuppressionParams, u64))
        ensures
            snapshot.0 == self.spec_params(),
            snapshot.1 == self.spec_revision(),
    {
        (self.params, self.revision)
    }

    /// The current revision alone.
    pub fn revision(&self) -> (revision: u64)
        ensures
            revision == self.spec_revision(),
    {
        self.revision
    }
}

impl Default for ConfigStore {
    fn default() -> (store: Self)
        ensures
            store.wf(),
            store.spec_params() == SuppressionParams::spec_default(),
            store.spec_revision() == 0,
    {
        ConfigStore::new()
    }
}


/// Every write is seen: the revision after a write differs from the one
/// before it, and is greater unless the counter was at its greatest value.
pub proof fn lemma_write_moves_revision(
    before: ConfigStore,
    after: ConfigStore,
    settings: SuppressionSettings,
)
    requires
        after.is_write_of(before, settings),
    ensures
        after.spec_revision() != before.spec_revision(),
        before.spec_revision() < u64::MAX ==> after.spec_revision() > before.spec_revision(),
{
}

/// Writing the same settings twice stores the same parameters twice: the
/// second write moves the revision and nothing else.
pub proof fn lemma_rewrite_keeps_params(
    before: ConfigStore,
    first: ConfigStore,
    second: ConfigStore,
    settings: SuppressionSettings,
)
    requires
        first.is_write_of(before, settings),
        second.is_write_of(first, settings),
    ensures
        second.spec_params() == first.spec_params(),
        second.spec_revision() != first.spec_revision(),
{
}

/// Validation settles at once: parameters that come out of a write are in
/// the legal domain, and writing them back as settings stores them as
/// they are.
pub proof fn lemma_sanitized_is_settled(settings: SuppressionSettings)
    ensures
        SuppressionParams::spec_sanitized(settings).valid(),
        SuppressionParams::spec_sanitized(
            SuppressionParams::spec_sanitized(settings).spec_settings(),
        ) == SuppressionParams::spec_sanitized(settings),
{
    let level = settings.attenuation_limit_db;
    let beta = settings.post_filter_beta;
    assert((level & !0x8000_0000u32) & 0x8000_0000u32 == 0) by (bit_vector);
    assert((level & !0x8000_0000u32) & 0x7f80_0000u32 == level & 0x7f80_0000u32) by (bit_vector);
    assert((level & !0x8000_0000u32) & 0x007f_ffffu32 == level & 0x007f_ffffu32) by (bit_vector);
    assert((level & !0x8000_0000u32) & !0x8000_0000u32 == level & !0x8000_0000u32)
        by (bit_vector);
    assert(0u32 & 0x8000_0000u32 == 0 && 0u32 & 0x007f_ffffu32 == 0) by (bit_vector);
    assert(0u32 & !0x8000_0000u32 == 0) by (bit_vector);
}

} // verus!
