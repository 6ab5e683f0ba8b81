//! What a caller asks for: the three operations and their parameters.

use crate::settings::OutputMode;
use vstd::prelude::*;
use vstd::std_specs::convert::FromSpecImpl;

verus! {

/// What was asked for, if anything.
pub struct Arguments {
    pub command: Option<Commands>,
}

/// The three operations.
pub enum Commands {
    Embed(EmbedParams),
    Dislodge(DislodgeParams),
    Download(DownloadParams),
}

/// The parameters of an embed: where the data is, a preset, and what
/// overrides the preset.
#[derive(Debug)]
pub struct EmbedParams {
    /// Path to the file with the data to encode.
    pub in_path: Option<String>,
    /// Preset to use when encoding data.
    pub preset: Option<EmbedPreset>,
    /// Etching mode.
    pub mode: Option<EmbedOutputMode>,
    /// Block size, in pixels per side.
    pub block_size: Option<i32>,
    /// Number of threads to use for processing.
    pub threads: Option<usize>,
    /// Output frames per second.
    pub fps: Option<i32>,
    /// Output resolution, as a token such as `360p`.
    pub resolution: Option<String>,
}

impl Default for EmbedParams {
    /// Nothing chosen.
    fn default() -> (params: EmbedParams)
        ensures
            params.in_path is None,
            params.preset is None,
            params.mode is None,
            params.block_size is None,
            params.threads is None,
            params.fps is None,
            params.resolution is None,
    {
        EmbedParams {
            in_path: None,
            preset: None,
            mode: None,
            block_size: None,
            threads: None,
            fps: None,
            resolution: None,
        }
    }
}

/// The named presets.
#[derive(PartialEq, Eq, Structural, Debug, Copy, Clone)]
pub enum EmbedPreset {
    /// Balanced resistance to compression.
    Optimal,
    /// High resistance to compression.
    Paranoid,
    /// Highest data density.
    MaxEfficiency,
}

/// The etching mode as a caller names it.
#[derive(PartialEq, Eq, Structural, Debug, Copy, Clone)]
pub enum EmbedOutputMode {
    /// RGB values.
    Colored,
    /// Black and white pixels.
    Binary,
}

/// The output mode that a caller's mode stands for.
pub open spec fn mode_of(value: EmbedOutputMode) -> OutputMode {
    match value {
        EmbedOutputMode::Colored => OutputMode::Color,
        EmbedOutputMode::Binary => OutputMode::Binary,
    }
}

impl From<EmbedOutputMode> for OutputMode {
    fn from(value: EmbedOutputMode) -> (mode: OutputMode) {
        match value {
            EmbedOutputMode::Colored => OutputMode::Color,
            EmbedOutputMode::Binary => OutputMode::Binary,
        }
    }
}

impl FromSpecImpl<EmbedOutputMode> for OutputMode {
    open spec fn obeys_from_spec() -> bool {
        true
    }

    open spec fn from_spec(value: EmbedOutputMode) -> OutputMode {
        mode_of(value)
    }
}

/// The parameters of a dislodge: the container to read and the file to
/// write.
pub struct DislodgeParams {
    /// Path to the container.
    pub in_path: Option<String>,
    /// Path to the file output, extension included.
    pub out_path: Option<String>,
}

impl Default for DislodgeParams {
    /// Nothing chosen.
    fn default() -> (params: DislodgeParams)
        ensures
            params.in_path is None,
            params.out_path is None,
    {
        DislodgeParams { in_path: None, out_path: None }
    }
}

/// The parameters of a download.
pub struct DownloadParams {
    /// Video URL.
    pub url: Option<String>,
}

impl Default for DownloadParams {
    /// Nothing chosen.
    fn default() -> (params: DownloadParams)
        ensures
            params.url is None,
    {
        DownloadParams { url: None }
    }
}

/// An optional text as the characters it holds.
pub open spec fn text_of(text: Option<String>) -> Option<Seq<char>> {
    match text {
        Some(t) => Some(t@),
        None => None,
    }
}

/// The parameters of an embed, each text as its characters.
pub struct EmbedParamsView {
    pub in_path: Option<Seq<char>>,
    pub preset: Option<EmbedPreset>,
    pub mode: Option<EmbedOutputMode>,
    pub block_size: Option<i32>,
    pub threads: Option<usize>,
    pub fps: Option<i32>,
    pub resolution: Option<Seq<char>>,
}

impl View for EmbedParams {
    type V = EmbedParamsView;

    open spec fn view(&self) -> EmbedParamsView {
        EmbedParamsView {
            in_path: text_of(self.in_path),
            preset: self.preset,
            mode: self.mode,
            block_size: self.block_size,
            threads: self.threads,
            fps: self.fps,
            resolution: text_of(self.resolution),
        }
    }
}

/// The parameters of a dislodge, each text as its characters.
pub struct DislodgeParamsView {
    pub in_path: Option<Seq<char>>,
    pub out_path: Option<Seq<char>>,
}

impl View for DislodgeParams {
    type V = DislodgeParamsView;

    open spec fn view(&self) -> DislodgeParamsView {
        DislodgeParamsView { in_path: text_of(self.in_path), out_path: text_of(self.out_path) }
    }
}

/// The parameters of a download, the URL as its characters.
pub struct DownloadParamsView {
    pub url: Option<Seq<char>>,
}

impl View for DownloadParams {
    type V = DownloadParamsView;

    open spec fn view(&self) -> DownloadParamsView {
        DownloadParamsView { url: text_of(self.url) }
    }
}

/// An operation with its parameters, each text as its characters.
pub enum CommandsView {
    Embed(EmbedParamsView),
    Dislodge(DislodgeParamsView),
    Download(DownloadParamsView),
}

impl View for Commands {
    type V = CommandsView;

    open spec fn view(&self) -> CommandsView {
        match self {
            Commands::Embed(params) => CommandsView::Embed(params@),
            Commands::Dislodge(params) => CommandsView::Dislodge(params@),
            Commands::Download(params) => CommandsView::Download(params@),
        }
    }
}

} // verus!
