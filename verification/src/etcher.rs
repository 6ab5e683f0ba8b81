//! Etching: a payload becomes a container and a sample frame that shows
//! how the payload would look as blocks.

pub use crate::codec::rip_binary;
pub use crate::container::read;

use crate::container::container_of;
use crate::error::EtchError;
use crate::render::{render, renderable, Frame};
use crate::settings::{Data, OutputMode, Payload, Settings};
use vstd::arithmetic::div_mod::{lemma_div_multiples_vanish_fancy, lemma_fundamental_div_mod};
use vstd::prelude::*;

verus! {

/// How many whole blocks fit on one frame.
pub open spec fn pixels_per_frame(settings: Settings) -> int {
    (settings.width as int / settings.size as int) * (settings.height as int
        / settings.size as int)
}

/// How many payload units one frame holds: a bit per block, or three bytes
/// per block.
pub open spec fn units_per_frame(mode: OutputMode, settings: Settings) -> int {
    match mode {
        OutputMode::Binary => pixels_per_frame(settings),
        OutputMode::Color => 3 * pixels_per_frame(settings),
    }
}

/// How many units a payload has: its bits, or its bytes.
pub open spec fn payload_units(payload: Payload) -> nat {
    match payload {
        Payload::Bits(bits) => bits.len(),
        Payload::Bytes(bytes) => bytes.len(),
    }
}

/// The mode that a payload was built for.
pub open spec fn payload_mode(payload: Payload) -> OutputMode {
    match payload {
        Payload::Bits(_) => OutputMode::Binary,
        Payload::Bytes(_) => OutputMode::Color,
    }
}

/// The least number of frames that hold `units` units at `per_frame` units
/// a frame, at most `u32::MAX`. Where a frame holds nothing, no frame is
/// needed for nothing and `u32::MAX` stands for the frames that would
/// never be enough.
pub open spec fn frames_needed(units: nat, per_frame: nat) -> nat {
    if per_frame == 0 {
        if units == 0 {
            0
        } else {
            u32::MAX as nat
        }
    } else if (units + per_frame - 1) / (per_frame as int) > u32::MAX {
        u32::MAX as nat
    } else {
        ((units + per_frame - 1) / (per_frame as int)) as nat
    }
}

/// What etching a payload gives.
pub struct Etching {
    /// How many whole blocks fit on one frame.
    pub pixels_per_frame: u64,
    /// How many frames the payload would take.
    pub frames_needed: u32,
    /// The first frame, as a sample of the encoding.
    pub sample: Frame,
    /// The container that holds the payload.
    pub container: Vec<u8>,
}

impl Etching {
    /// The etching is that of `payload` under `settings`.
    pub open spec fn is_etching_of(&self, payload: Payload, settings: Settings) -> bool {
        &&& self.pixels_per_frame == pixels_per_frame(settings)
        &&& self.frames_needed == frames_needed(
            payload_units(payload),
            units_per_frame(payload_mode(payload), settings) as nat,
        )
        &&& self.sample.shows(payload, settings)
        &&& self.container@ == container_of(payload)
    }
}

/// Counts the whole blocks that fit on one frame.
fn count_pixels(settings: &Settings) -> (n: u64)
    requires
        renderable(*settings),
    ensures
        n == pixels_per_frame(*settings),
        n <= 0x7fff_ffff * 0x7fff_ffff,
{
    let s = settings.size as u64;
    let across = settings.width as u64 / s;
    let down = settings.height as u64 / s;
    assert(across * down <= 0x7fff_ffff * 0x7fff_ffff) by (nonlinear_arith)
        requires
            across <= 0x7fff_ffff,
            down <= 0x7fff_ffff,
    ;
    across * down
}

/// Counts the frames that `units` units take at `per_frame` a frame.
fn count_frames(units: usize, per_frame: u64) -> (n: u32)
    ensures
        n == frames_needed(units as nat, per_frame as nat),
{
    if per_frame == 0 {
        if units == 0 {
            0
        } else {
            u32::MAX
        }
    } else {
        let whole = units as u64 / per_frame;
        let rest = units as u64 % per_frame;
        proof {
            let d = per_frame as int;
            lemma_fundamental_div_mod(units as int, d);
            if rest == 0 {
                lemma_div_multiples_vanish_fancy(whole as int, d - 1, d);
            } else {
                assert(d * (whole + 1) == d * whole + d) by (nonlinear_arith);
                lemma_div_multiples_vanish_fancy(whole + 1, rest - 1, d);
                assert(whole < units) by (nonlinear_arith)
                    requires
                        units == d * whole + rest,
                        rest > 0,
                        d >= 1,
                        whole >= 0,
                ;
            }
        }
        let frames = if rest == 0 {
            whole
        } else {
            whole + 1
        };
        if frames > u32::MAX as u64 {
            u32::MAX
        } else {
            frames as u32
        }
    }
}

/// Etches `data`: renders the sample frame and writes the container.
///
/// Fails with `InvalidSettings` exactly when the settings are not
/// renderable; nothing is produced then.
pub fn etch(data: Data, settings: Settings) -> (r: Result<Etching, EtchError>)
    ensures
        renderable(settings) ==> r is Ok && r->Ok_0.is_etching_of(data@, settings),
        !renderable(settings) ==> r is Err && r->Err_0 == EtchError::InvalidSettings,
{
    let sample = match render(&data, &settings) {
        Ok(frame) => frame,
        Err(e) => {
            return Err(e);
        },
    };
    let per_frame = count_pixels(&settings);
    let frames = match data.out_mode {
        OutputMode::Binary => count_frames(data.binary.len(), per_frame),
        OutputMode::Color => count_frames(data.bytes.len(), 3 * per_frame),
    };
    let container = crate::container::write(&data);
    Ok(Etching { pixels_per_frame: per_frame, frames_needed: frames, sample, container })
}

} // verus!
