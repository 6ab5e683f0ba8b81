//! Output modes, payload holders and rendering settings.

use vstd::prelude::*;

verus! {

/// How a payload is laid out: one bit per block, or three bytes per block.
#[derive(PartialEq, Eq, Structural, Debug, Copy, Clone)]
pub enum OutputMode {
    Binary,
    Color,
}

/// What a `Data` value carries: the bits of a binary payload or the bytes
/// of a color payload.
pub enum Payload {
    Bits(Seq<bool>),
    Bytes(Seq<u8>),
}

/// A payload tagged with the mode it was built for. Only the field that
/// `out_mode` names is read; the other one is empty in a well-formed value.
pub struct Data {
    pub bytes: Vec<u8>,
    pub binary: Vec<bool>,
    pub out_mode: OutputMode,
}

impl View for Data {
    type V = Payload;

    open spec fn view(&self) -> Payload {
        match self.out_mode {
            OutputMode::Binary => Payload::Bits(self.binary@),
            OutputMode::Color => Payload::Bytes(self.bytes@),
        }
    }
}

impl Data {
    /// The field that `out_mode` does not name is empty.
    pub open spec fn wf(&self) -> bool {
        match self.out_mode {
            OutputMode::Binary => self.bytes@.len() == 0,
            OutputMode::Color => self.binary@.len() == 0,
        }
    }

    /// A binary payload made of `binary`.
    pub fn from_binary(binary: Vec<bool>) -> (data: Data)
        ensures
            data.wf(),
            data.out_mode == OutputMode::Binary,
            data.binary == binary,
            data.bytes@ == Seq::<u8>::empty(),
            data@ == Payload::Bits(binary@),
    {
        Data { bytes: Vec::new(), binary, out_mode: OutputMode::Binary }
    }

    /// A color payload made of `bytes`.
    pub fn from_color(bytes: Vec<u8>) -> (data: Data)
        ensures
            data.wf(),
            data.out_mode == OutputMode::Color,
            data.bytes == bytes,
            data.binary@ == Seq::<bool>::empty(),
            data@ == Payload::Bytes(bytes@),
    {
        Data { bytes, binary: Vec::new(), out_mode: OutputMode::Color }
    }
}

/// The shape of the output: block side length in pixels, worker count,
/// frames per second and the canvas size in pixels.
#[derive(PartialEq, Eq, Structural, Debug, Copy, Clone)]
pub struct Settings {
    pub size: i32,
    pub threads: usize,
    pub fps: i32,
    pub width: i32,
    pub height: i32,
}

impl Default for Settings {
    /// Every field zero: nothing chosen yet.
    fn default() -> (settings: Settings)
        ensures
            settings == (Settings { size: 0, threads: 0, fps: 0, width: 0, height: 0 }),
    {
        Settings { size: 0, threads: 0, fps: 0, width: 0, height: 0 }
    }
}

impl Settings {
    /// Settings with the given fields.
    pub fn new(size: i32, threads: usize, fps: i32, width: i32, height: i32) -> (settings: Settings)
        ensures
            settings == (Settings { size, threads, fps, width, height }),
    {
        Settings { size, threads, fps, height, width }
    }
}

} // verus!
