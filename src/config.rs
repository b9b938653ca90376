use vstd::prelude::*;
use core::cmp::Ordering;

verus! {

/// Why a set of run parameters was rejected.
#[derive(Debug, Clone, Copy, PartialEq, Eq, Structural)]
pub enum ConfigError {
    /// The number of packets to transport is not positive.
    NoPhotons,
    /// The interval between progress notifications is not positive.
    ZeroProgressInterval,
    /// The single-scattering albedo lies outside `[0, 1]` (or is not a number).
    AlbedoOutOfRange,
}

/// The integer parameters of a run, known to be valid.
#[derive(Debug, Clone, Copy, PartialEq, Eq, Structural)]
pub struct RunConfig {
    pub n_photons: u32,
    pub progress_interval: u32,
}

impl RunConfig {
    pub open spec fn valid(self) -> bool {
        self.n_photons >= 1 && self.progress_interval >= 1
    }
}

/// A comparison result that places a value at or above the bound it was compared with.
pub open spec fn at_least(c: Option<Ordering>) -> bool {
    c == Some(Ordering::Equal) || c == Some(Ordering::Greater)
}

/// A comparison result that places a value at or below the bound it was compared with.
pub open spec fn at_most(c: Option<Ordering>) -> bool {
    c == Some(Ordering::Equal) || c == Some(Ordering::Less)
}

/// The albedo lies in `[0, 1]`, judged from its comparisons with `0` and with `1`.
pub open spec fn albedo_in_range(vs_zero: Option<Ordering>, vs_one: Option<Ordering>) -> bool {
    at_least(vs_zero) && at_most(vs_one)
}

/// The interval between progress notifications for a run of `n_photons`
/// packets: one tenth of the run, rounded down.
pub fn default_progress_interval(n_photons: i32) -> (r: i32)
    ensures
        n_photons >= 0 ==> r == n_photons / 10,
        n_photons < 0 ==> r == -((-n_photons) / 10),
{
    n_photons / 10
}

/// Checks the parameters of a run before any packet is transported.
///
/// The albedo is given by its comparisons (`partial_cmp`) with `0` and with
/// `1`; a missing comparison (a NaN) rejects it. The packet count is checked
/// first, then the progress interval, then the albedo.
pub fn validate(
    n_photons: i32,
    progress_interval: i32,
    albedo_vs_zero: Option<Ordering>,
    albedo_vs_one: Option<Ordering>,
) -> (r: Result<RunConfig, ConfigError>)
    ensures
        (r is Ok) <==> (n_photons >= 1 && progress_interval >= 1 && albedo_in_range(
            albedo_vs_zero,
            albedo_vs_one,
        )),
        r is Ok ==> r->Ok_0.n_photons == n_photons && r->Ok_0.progress_interval
            == progress_interval && r->Ok_0.valid(),
        r == Err::<RunConfig, ConfigError>(ConfigError::NoPhotons) <==> n_photons < 1,
        r == Err::<RunConfig, ConfigError>(ConfigError::ZeroProgressInterval) <==> (n_photons
            >= 1 && progress_interval < 1),
        r == Err::<RunConfig, ConfigError>(ConfigError::AlbedoOutOfRange) <==> (n_photons >= 1
            && progress_interval >= 1 && !albedo_in_range(albedo_vs_zero, albedo_vs_one)),
{
    if n_photons < 1 {
        return Err(ConfigError::NoPhotons);
    }
    if progress_interval < 1 {
        return Err(ConfigError::ZeroProgressInterval);
    }
    let low_ok = match albedo_vs_zero {
        Some(Ordering::Equal) | Some(Ordering::Greater) => true,
        _ => false,
    };
    let high_ok = match albedo_vs_one {
        Some(Ordering::Equal) | Some(Ordering::Less) => true,
        _ => false,
    };
    if !(low_ok && high_ok) {
        return Err(ConfigError::AlbedoOutOfRange);
    }
    Ok(RunConfig { n_photons: n_photons as u32, progress_interval: progress_interval as u32 })
}

} // verus!
