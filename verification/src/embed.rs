//! Embedding: parameters become settings, and the input bytes become an
//! etching.

use crate::args::{mode_of, EmbedParams, EmbedParamsView, EmbedPreset};
use crate::codec::bytes_to_bits;
use crate::container::{
    container_of, lemma_binary_round_trip_bytes, lemma_color_round_trip, read_spec,
};
use crate::error::EtchError;
use crate::etcher::{etch, rip_binary, Etching};
use crate::render::renderable;
use crate::settings::{Data, OutputMode, Payload, Settings};
use crate::text::same_text;
use vstd::prelude::*;
use vstd::string::StringExecFns;

verus! {

/// The mode and the settings that a preset stands for.
pub open spec fn preset_settings(preset: EmbedPreset) -> (Settings, OutputMode) {
    match preset {
        EmbedPreset::MaxEfficiency => (
            Settings { size: 1, threads: 8, fps: 10, width: 256, height: 144 },
            OutputMode::Color,
        ),
        EmbedPreset::Optimal => (
            Settings { size: 2, threads: 8, fps: 10, width: 1280, height: 720 },
            OutputMode::Binary,
        ),
        EmbedPreset::Paranoid => (
            Settings { size: 4, threads: 8, fps: 10, width: 1280, height: 720 },
            OutputMode::Binary,
        ),
    }
}

/// The width and height that a resolution token names; a token that is
/// not in the table names 640 by 360.
pub open spec fn resolution_size(token: Seq<char>) -> (i32, i32) {
    if token == "144p"@ {
        (256i32, 144i32)
    } else if token == "240p"@ {
        (426i32, 240i32)
    } else if token == "360p"@ {
        (640i32, 360i32)
    } else if token == "480p"@ {
        (854i32, 480i32)
    } else if token == "720p"@ {
        (1280i32, 720i32)
    } else {
        (640i32, 360i32)
    }
}

/// The width and height when no preset gives them: those of the token, or
/// 640 by 360 where there is none.
pub open spec fn default_size(resolution: Option<Seq<char>>) -> (i32, i32) {
    match resolution {
        Some(token) => resolution_size(token),
        None => (640i32, 360i32),
    }
}

/// The settings and the mode before any override: those of the preset, or
/// binary mode on a canvas of the default size with nothing else chosen.
pub open spec fn base_settings(params: EmbedParamsView) -> (Settings, OutputMode) {
    match params.preset {
        Some(preset) => preset_settings(preset),
        None => (
            Settings {
                size: 0,
                threads: 0,
                fps: 0,
                width: default_size(params.resolution).0,
                height: default_size(params.resolution).1,
            },
            OutputMode::Binary,
        ),
    }
}

/// The settings and the mode that `params` resolve to: each explicit mode,
/// block size, thread count and frame rate replaces what the preset or the
/// default gave.
pub open spec fn resolved(params: EmbedParamsView) -> (Settings, OutputMode) {
    let (base, base_mode) = base_settings(params);
    (
        Settings {
            size: match params.block_size {
                Some(size) => size,
                None => base.size,
            },
            threads: match params.threads {
                Some(threads) => threads,
                None => base.threads,
            },
            fps: match params.fps {
                Some(fps) => fps,
                None => base.fps,
            },
            width: base.width,
            height: base.height,
        },
        match params.mode {
            Some(mode) => mode_of(mode),
            None => base_mode,
        },
    )
}

/// Looks a resolution token up in the table.
pub fn resolution(token: &String) -> (size: (i32, i32))
    ensures
        size == resolution_size(token@),
{
    if same_text(token.as_str(), "144p") {
        (256, 144)
    } else if same_text(token.as_str(), "240p") {
        (426, 240)
    } else if same_text(token.as_str(), "360p") {
        (640, 360)
    } else if same_text(token.as_str(), "480p") {
        (854, 480)
    } else if same_text(token.as_str(), "720p") {
        (1280, 720)
    } else {
        (640, 360)
    }
}

/// Resolves the parameters of an embed to settings and a mode.
pub fn resolve(params: &EmbedParams) -> (r: (Settings, OutputMode))
    ensures
        r == resolved(params@),
{
    let mut settings = Settings::default();
    let mut output_mode = OutputMode::Binary;
    match params.preset {
        Some(EmbedPreset::MaxEfficiency) => {
            output_mode = OutputMode::Color;
            settings.size = 1;
            settings.threads = 8;
            settings.fps = 10;
            settings.width = 256;
            settings.height = 144;
        },
        Some(EmbedPreset::Optimal) => {
            output_mode = OutputMode::Binary;
            settings.size = 2;
            settings.threads = 8;
            settings.fps = 10;
            settings.width = 1280;
            settings.height = 720;
        },
        Some(EmbedPreset::Paranoid) => {
            output_mode = OutputMode::Binary;
            settings.size = 4;
            settings.threads = 8;
            settings.fps = 10;
            settings.width = 1280;
            settings.height = 720;
        },
        None => {},
    }
    if settings.width == 0 || settings.height == 0 {
        match &params.resolution {
            None => {
                settings.width = 640;
                settings.height = 360;
            },
            Some(token) => {
                let (width, height) = resolution(token);
                settings.width = width;
                settings.height = height;
            },
        }
    }
    if let Some(mode) = params.mode {
        output_mode = OutputMode::from(mode);
    }
    if let Some(size) = params.block_size {
        settings.size = size;
    }
    if let Some(threads) = params.threads {
        settings.threads = threads;
    }
    if let Some(fps) = params.fps {
        settings.fps = fps;
    }
    (settings, output_mode)
}

/// The payload that `input` gives in `mode`: its bits, or its bytes as
/// they are.
pub open spec fn payload_for(mode: OutputMode, input: Seq<u8>) -> Payload {
    match mode {
        OutputMode::Binary => Payload::Bits(bytes_to_bits(input)),
        OutputMode::Color => Payload::Bytes(input),
    }
}

/// The file that is read where the parameters name none.
pub open spec fn default_input() -> Seq<char> {
    "test_file.txt"@
}

/// The file that the container is written to.
pub open spec fn container_name() -> Seq<char> {
    "output.binvid"@
}

/// What is put behind a container's path to name its sample frame.
pub open spec fn sample_suffix() -> Seq<char> {
    "_sample.png"@
}

/// The path of the input file: the one given, or the default.
pub fn input_path(params: &EmbedParams) -> (path: String)
    ensures
        path@ == match params@.in_path {
            Some(given) => given,
            None => default_input(),
        },
{
    match &params.in_path {
        Some(given) => given.clone(),
        None => String::from_str("test_file.txt"),
    }
}

/// The path that the container is written to.
pub fn container_path() -> (path: String)
    ensures
        path@ == container_name(),
{
    String::from_str("output.binvid")
}

/// The path of the sample frame that goes with the container at `path`.
pub fn sample_path(path: &str) -> (sample: String)
    ensures
        sample@ == path@ + sample_suffix(),
{
    String::from_str(path).concat("_sample.png")
}

/// Embeds `input` as `params` say: resolves the settings, takes the bits
/// of the input in binary mode and its bytes in color mode, and etches.
///
/// Fails with `PayloadTooLarge` exactly when the mode is binary and the
/// bits of the input are more than a vector holds; otherwise with
/// `InvalidSettings` exactly when the resolved settings are not
/// renderable.
pub fn run_embed(params: &EmbedParams, input: Vec<u8>) -> (r: Result<Etching, EtchError>)
    ensures
        match r {
            Ok(etching) => {
                &&& renderable(resolved(params@).0)
                &&& resolved(params@).1 == OutputMode::Binary ==> 8 * input@.len() <= isize::MAX
                &&& etching.is_etching_of(
                    payload_for(resolved(params@).1, input@),
                    resolved(params@).0,
                )
            },
            Err(e) => if resolved(params@).1 == OutputMode::Binary && 8 * input@.len()
                > isize::MAX {
                e == EtchError::PayloadTooLarge
            } else {
                e == EtchError::InvalidSettings && !renderable(resolved(params@).0)
            },
        },
{
    let (settings, output_mode) = resolve(params);
    match output_mode {
        OutputMode::Color => {
            let data = Data::from_color(input);
            etch(data, settings)
        },
        OutputMode::Binary => {
            let binary = match rip_binary(input) {
                Ok(binary) => binary,
                Err(e) => {
                    return Err(e);
                },
            };
            let data = Data::from_binary(binary);
            etch(data, settings)
        },
    }
}

/// A preset gives all of its values where nothing overrides them.
pub proof fn lemma_preset_applies(params: EmbedParamsView)
    requires
        params.preset is Some,
        params.mode is None,
        params.block_size is None,
        params.threads is None,
        params.fps is None,
    ensures
        resolved(params) == preset_settings(params.preset->0),
{
}

/// An explicit mode, block size, thread count or frame rate is what the
/// resolved settings hold, whatever preset or resolution stands beside it.
pub proof fn lemma_override_wins(params: EmbedParamsView)
    ensures
        params.block_size is Some ==> resolved(params).0.size == params.block_size->0,
        params.threads is Some ==> resolved(params).0.threads == params.threads->0,
        params.fps is Some ==> resolved(params).0.fps == params.fps->0,
        params.mode is Some ==> resolved(params).1 == mode_of(params.mode->0),
{
}

/// No override touches the canvas: its size is the preset's, or without a
/// preset that of the resolution token.
pub proof fn lemma_canvas_size(params: EmbedParamsView)
    ensures
        params.preset is Some ==> resolved(params).0.width == preset_settings(
            params.preset->0,
        ).0.width && resolved(params).0.height == preset_settings(params.preset->0).0.height,
        params.preset is None ==> resolved(params).0.width == default_size(params.resolution).0
            && resolved(params).0.height == default_size(params.resolution).1,
{
}

/// Reading back the container of an embedded input gives the input: in
/// color mode always, in binary mode for an input of up to `u32::MAX` bits.
pub proof fn lemma_embed_then_read(mode: OutputMode, input: Seq<u8>)
    requires
        mode == OutputMode::Binary ==> 8 * input.len() <= u32::MAX,
    ensures
        read_spec(container_of(payload_for(mode, input))) == Ok::<Seq<u8>, EtchError>(input),
{
    match mode {
        OutputMode::Binary => lemma_binary_round_trip_bytes(input),
        OutputMode::Color => lemma_color_round_trip(input, 0),
    }
}

} // verus!
