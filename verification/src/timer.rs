//! Timer-calibration arithmetic and the timer pane's state.
//!
//! The hardware measurement itself (starting a one-shot timer, busy-waiting
//! on a reference clock) happens outside this crate; the derivations from
//! the measured values are here, and an absent calibration stays absent
//! rather than being replaced by a guess.

use vstd::prelude::*;
use crate::style::Color;

verus! {

/// The tick rate the hardware timer is programmed to hit.
pub const TARGET_TIMER_HZ: u64 = 100;

/// The reload value used when both calibration paths fail.
pub const FALLBACK_RELOAD: u32 = 1_000_000;

/// TSC frequency in Hz from CPUID leaf 0x15 (TSC/crystal-clock ratio), or
/// the processor base frequency from leaf 0x16 as fallback: `None` when
/// neither leaf enumerates a usable frequency.
///
/// Leaf 0x15 carries the ratio denominator in EAX, the numerator in EBX and
/// the crystal frequency in Hz in ECX; leaf 0x16 carries the base frequency
/// in MHz in the low 16 bits of EAX.
pub fn tsc_frequency(leaf_0x15: [u32; 4], leaf_0x16: [u32; 4]) -> (r: Option<u64>)
    ensures
        r == spec_tsc_frequency(leaf_0x15@, leaf_0x16@),
{
    let denominator = leaf_0x15[0];
    let numerator = leaf_0x15[1];
    let crystal_hz = leaf_0x15[2];
    if crystal_hz != 0 && numerator != 0 && denominator != 0 {
        proof {
            vstd::arithmetic::mul::lemma_mul_upper_bound(
                crystal_hz as int,
                u32::MAX as int,
                numerator as int,
                u32::MAX as int,
            );
        }
        return Some((crystal_hz as u64) * (numerator as u64) / (denominator as u64));
    }
    let base_mhz = leaf_0x16[0] & 0xFFFF;
    if base_mhz > 0 {
        return Some((base_mhz as u64) * 1_000_000);
    }
    None
}

/// What `tsc_frequency` returns.
pub open spec fn spec_tsc_frequency(leaf_0x15: Seq<u32>, leaf_0x16: Seq<u32>) -> Option<u64> {
    let denominator = leaf_0x15[0];
    let numerator = leaf_0x15[1];
    let crystal_hz = leaf_0x15[2];
    if crystal_hz != 0 && numerator != 0 && denominator != 0 {
        Some((crystal_hz as int * numerator as int / denominator as int) as u64)
    } else {
        let base_mhz = leaf_0x16[0] & 0xFFFF;
        if base_mhz > 0 {
            Some((base_mhz as int * 1_000_000) as u64)
        } else {
            None
        }
    }
}

/// The hardware timer frequency derived from a one-shot measurement:
/// `elapsed_timer_ticks * reference_freq / elapsed_reference_ticks`,
/// truncating, saturated at `u64::MAX`, and `None` when the reference
/// counter did not advance (a failed measurement, not a frequency of zero).
pub fn calibrated_frequency(
    elapsed_timer_ticks: u32,
    reference_freq: u64,
    elapsed_reference_ticks: u64,
) -> (r: Option<u64>)
    ensures
        r == spec_calibrated_frequency(elapsed_timer_ticks, reference_freq, elapsed_reference_ticks),
{
    if elapsed_reference_ticks == 0 {
        return None;
    }
    proof {
        vstd::arithmetic::mul::lemma_mul_upper_bound(
            elapsed_timer_ticks as int,
            u32::MAX as int,
            reference_freq as int,
            u64::MAX as int,
        );
    }
    let product: u128 = (elapsed_timer_ticks as u128) * (reference_freq as u128);
    let quotient: u128 = product / (elapsed_reference_ticks as u128);
    if quotient > u64::MAX as u128 {
        Some(u64::MAX)
    } else {
        Some(quotient as u64)
    }
}

/// What `calibrated_frequency` returns.
pub open spec fn spec_calibrated_frequency(
    elapsed_timer_ticks: u32,
    reference_freq: u64,
    elapsed_reference_ticks: u64,
) -> Option<u64> {
    if elapsed_reference_ticks == 0 {
        None
    } else {
        let q = elapsed_timer_ticks as int * reference_freq as int / elapsed_reference_ticks as int;
        if q > u64::MAX {
            Some(u64::MAX)
        } else {
            Some(q as u64)
        }
    }
}

/// The periodic reload value for a calibrated frequency and a target rate:
/// `calibrated_freq / target_hz`, clamped to the register's width.
pub fn reload_for_target(calibrated_freq: u64, target_hz: u64) -> (r: u32)
    requires
        target_hz > 0,
    ensures
        r == spec_reload_for_target(calibrated_freq, target_hz),
{
    let q = calibrated_freq / target_hz;
    if q > u32::MAX as u64 {
        u32::MAX
    } else {
        q as u32
    }
}

/// What `reload_for_target` returns.
pub open spec fn spec_reload_for_target(calibrated_freq: u64, target_hz: u64) -> u32 {
    let q = calibrated_freq as int / target_hz as int;
    if q > u32::MAX {
        u32::MAX
    } else {
        q as u32
    }
}

/// What `hsv_to_rgb` returns: six 60-degree sectors, with the fractional
/// part of the hue scaled to `0..=255` ramping one channel per sector.
pub open spec fn spec_hsv_to_rgb(hue: u16) -> (u8, u8, u8) {
    let h = hue as int % 360;
    let sector = h / 60;
    let f = (h % 60) * 255 / 60;
    if sector == 0 {
        (255u8, f as u8, 0u8)
    } else if sector == 1 {
        ((255 - f) as u8, 255u8, 0u8)
    } else if sector == 2 {
        (0u8, 255u8, f as u8)
    } else if sector == 3 {
        (0u8, (255 - f) as u8, 255u8)
    } else if sector == 4 {
        (f as u8, 0u8, 255u8)
    } else {
        (255u8, 0u8, (255 - f) as u8)
    }
}

/// Convert a hue (0-359, full saturation and value) to RGB.
pub fn hsv_to_rgb(hue: u16) -> (rgb: (u8, u8, u8))
    ensures
        rgb == spec_hsv_to_rgb(hue),
{
    let h = hue % 360;
    let sector = h / 60;
    let f: u32 = (h % 60) as u32 * 255 / 60;
    if sector == 0 {
        (255, f as u8, 0)
    } else if sector == 1 {
        (255 - f as u8, 255, 0)
    } else if sector == 2 {
        (0, 255, f as u8)
    } else if sector == 3 {
        (0, 255 - f as u8, 255)
    } else if sector == 4 {
        (f as u8, 0, 255)
    } else {
        (255, 0, 255 - f as u8)
    }
}

/// The uptime wording chosen for a number of whole seconds.
#[derive(Clone, Copy, PartialEq, Eq, Structural, Debug)]
pub enum Uptime {
    Hours(u64),
    Minutes(u64),
    MinuteSeconds(u64),
    Seconds(u64),
}

/// How an uptime of `total_seconds` is displayed: hours beyond two hours,
/// minutes beyond two minutes, "1 minute N seconds" beyond one minute,
/// plain seconds below that.
pub fn uptime_display(total_seconds: u64) -> (r: Uptime)
    ensures
        total_seconds >= 7200 ==> r == Uptime::Hours((total_seconds / 3600) as u64),
        120 <= total_seconds < 7200 ==> r == Uptime::Minutes((total_seconds / 60) as u64),
        60 <= total_seconds < 120 ==> r == Uptime::MinuteSeconds((total_seconds - 60) as u64),
        total_seconds < 60 ==> r == Uptime::Seconds(total_seconds),
{
    if total_seconds >= 7200 {
        Uptime::Hours(total_seconds / 3600)
    } else if total_seconds >= 120 {
        Uptime::Minutes(total_seconds / 60)
    } else if total_seconds >= 60 {
        Uptime::MinuteSeconds(total_seconds - 60)
    } else {
        Uptime::Seconds(total_seconds)
    }
}

/// State of the timer-calibration pane: the tick count it last observed and
/// the raw CPUID leaves it diagnoses.
pub struct TimerState {
    pub tick_count: u64,
    pub leaf_0x15: [u32; 4],
    pub leaf_0x16: [u32; 4],
}

impl TimerState {
    pub fn new(leaf_0x15: [u32; 4], leaf_0x16: [u32; 4]) -> (r: Self)
        ensures
            r.tick_count == 0,
            r.leaf_0x15 == leaf_0x15,
            r.leaf_0x16 == leaf_0x16,
    {
        TimerState { tick_count: 0, leaf_0x15, leaf_0x16 }
    }

    /// Take over the current tick count for display.
    pub fn refresh(&mut self, now: u64)
        ensures
            final(self).tick_count == now,
            final(self).leaf_0x15 == old(self).leaf_0x15,
            final(self).leaf_0x16 == old(self).leaf_0x16,
    {
        self.tick_count = now;
    }

    /// The hue this pane cycles through, advancing one step per half second.
    pub open spec fn spec_hue(&self) -> u16 {
        (((self.tick_count as int / (TARGET_TIMER_HZ as int / 2)) % 0x10000) % 360) as u16
    }

    /// The pane's accent color: a rainbow keyed to the tick count.
    pub fn color(&self) -> (r: Color)
        ensures
            r == Color::Rgb(
                spec_hsv_to_rgb(self.spec_hue()).0,
                spec_hsv_to_rgb(self.spec_hue()).1,
                spec_hsv_to_rgb(self.spec_hue()).2,
            ),
    {
        let factor: u64 = TARGET_TIMER_HZ / 2;
        let hue: u16 = (((self.tick_count / factor) % 0x10000) as u16) % 360;
        let rgb = hsv_to_rgb(hue);
        proof {
            assert(hue == self.spec_hue());
            assert(spec_hsv_to_rgb(hue) == spec_hsv_to_rgb(self.spec_hue()));
        }
        Color::Rgb(rgb.0, rgb.1, rgb.2)
    }

    /// Whole seconds of uptime at the observed tick count.
    pub fn uptime_seconds(&self) -> (r: u64)
        ensures
            r == self.tick_count as int / TARGET_TIMER_HZ as int,
    {
        self.tick_count / TARGET_TIMER_HZ
    }
}

} // verus!
