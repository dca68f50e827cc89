//! The volume preference. A volume is carried as the bit pattern of an IEEE 754
//! binary32 value (`f32::to_bits`), so that the rule on its range is decided here
//! on integers.
use vstd::prelude::*;

verus! {

/// The bit pattern of 1.0, full volume.
pub const FULL_VOLUME_BITS: u32 = 0x3F80_0000;

/// The bit pattern of -0.0, which compares equal to 0.0.
pub const NEGATIVE_ZERO_BITS: u32 = 0x8000_0000;

/// The volume to play at, as binary32 bits: a linear gain, 0.0 silent, 1.0
/// unattenuated.
#[derive(Clone, Copy, Debug, PartialEq, Eq)]
pub struct PlaybackPreferences {
    pub volume_bits: u32,
}

/// What was found while looking for the preference file.
#[derive(Clone, Copy, Debug, PartialEq, Eq)]
pub enum PreferenceSource {
    /// The home directory is not known.
    HomeUnset,
    /// The file is missing or could not be read.
    Unreadable,
    /// The file could not be parsed.
    Malformed,
    /// The file was parsed; it gave this volume, as binary32 bits, or none.
    Parsed(Option<u32>),
}

/// Why full volume was used in place of a configured one.
#[derive(Clone, Copy, Debug, PartialEq, Eq)]
pub enum VolumeFallback {
    HomeUnset,
    Unreadable,
    Malformed,
    MissingOrOutOfRange,
}

/// Whether the binary32 value with these bits lies in [0.0, 1.0]. Non-negative
/// values order as their bit patterns do, from +0.0 (all zero) up to 1.0; -0.0
/// equals 0.0; every other pattern is negative, above 1.0, infinite or NaN.
pub open spec fn in_unit_range(bits: u32) -> bool {
    bits <= FULL_VOLUME_BITS || bits == NEGATIVE_ZERO_BITS
}

/// The volume that a lookup gives: a configured volume in range is used as it is,
/// anything else gives full volume.
pub open spec fn effective_volume(source: PreferenceSource) -> u32 {
    match source {
        PreferenceSource::Parsed(Some(v)) => if in_unit_range(v) {
            v
        } else {
            FULL_VOLUME_BITS
        },
        _ => FULL_VOLUME_BITS,
    }
}

/// Whether the binary32 value with these bits lies in [0.0, 1.0].
pub fn volume_in_range(bits: u32) -> (r: bool)
    ensures
        r == in_unit_range(bits),
{
    bits <= FULL_VOLUME_BITS || bits == NEGATIVE_ZERO_BITS
}

impl PlaybackPreferences {
    /// Full volume.
    pub fn full() -> (r: Self)
        ensures
            r.volume_bits == FULL_VOLUME_BITS,
    {
        PlaybackPreferences { volume_bits: FULL_VOLUME_BITS }
    }
}

/// Resolves the volume from what the lookup found. A volume in [0.0, 1.0] is kept
/// exactly; a missing file, a file that cannot be read or parsed, or a volume
/// that is absent or out of range gives full volume, with the reason.
pub fn resolve_preferences(source: PreferenceSource) -> (r: (PlaybackPreferences, Option<VolumeFallback>))
    ensures
        r.0.volume_bits == effective_volume(source),
        r.1 == match source {
            PreferenceSource::HomeUnset => Some(VolumeFallback::HomeUnset),
            PreferenceSource::Unreadable => Some(VolumeFallback::Unreadable),
            PreferenceSource::Malformed => Some(VolumeFallback::Malformed),
            PreferenceSource::Parsed(Some(v)) => if in_unit_range(v) {
                None
            } else {
                Some(VolumeFallback::MissingOrOutOfRange)
            },
            PreferenceSource::Parsed(None) => Some(VolumeFallback::MissingOrOutOfRange),
        },
{
    match source {
        PreferenceSource::HomeUnset => (PlaybackPreferences::full(), Some(VolumeFallback::HomeUnset)),
        PreferenceSource::Unreadable => (PlaybackPreferences::full(), Some(VolumeFallback::Unreadable)),
        PreferenceSource::Malformed => (PlaybackPreferences::full(), Some(VolumeFallback::Malformed)),
        PreferenceSource::Parsed(Some(v)) => {
            if volume_in_range(v) {
                (PlaybackPreferences { volume_bits: v }, None)
            } else {
                (PlaybackPreferences::full(), Some(VolumeFallback::MissingOrOutOfRange))
            }
        },
        PreferenceSource::Parsed(None) => (
            PlaybackPreferences::full(),
            Some(VolumeFallback::MissingOrOutOfRange),
        ),
    }
}

} // verus!
