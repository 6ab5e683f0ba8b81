//! Where the data to embed comes from.

use crate::error::EtchError;
use vstd::prelude::*;
use vstd::slice::slice_to_vec;
use vstd::string::StringExecFns;
use vstd::utf8::encode_utf8;

verus! {

/// A source of data to embed: a file by its path, a text, or the bytes
/// themselves.
pub enum EmbedSource {
    File(String),
    Text(String),
    Binary(Vec<u8>),
}

impl EmbedSource {
    /// The bytes that the source holds itself: the UTF-8 form of a text,
    /// the bytes of a binary source, and none for a file, whose bytes are
    /// on disk.
    pub open spec fn held_bytes(&self) -> Option<Seq<u8>> {
        match self {
            EmbedSource::File(_) => None,
            EmbedSource::Text(text) => Some(encode_utf8(text@)),
            EmbedSource::Binary(data) => Some(data@),
        }
    }

    /// A source that is the file at `path`, which `exists` says is there.
    ///
    /// Fails with `MissingFile` exactly when the file does not exist.
    pub fn from_file(path: &str, exists: bool) -> (r: Result<EmbedSource, EtchError>)
        ensures
            exists ==> r is Ok && r->Ok_0 is File && r->Ok_0->File_0@ == path@,
            !exists ==> r is Err && r->Err_0 == EtchError::MissingFile,
    {
        if !exists {
            return Err(EtchError::MissingFile);
        }
        Ok(EmbedSource::File(String::from_str(path)))
    }

    /// A source that is the text `text`.
    pub fn from_text(text: &str) -> (source: EmbedSource)
        ensures
            source is Text,
            source->Text_0@ == text@,
    {
        EmbedSource::Text(String::from_str(text))
    }

    /// A source that is the bytes `data`.
    pub fn from_binary(data: Vec<u8>) -> (source: EmbedSource)
        ensures
            source == EmbedSource::Binary(data),
    {
        EmbedSource::Binary(data)
    }

    /// The bytes of the source, as far as it holds them itself.
    pub fn get_binary_data(&self) -> (data: Option<Vec<u8>>)
        ensures
            match self.held_bytes() {
                Some(bytes) => data is Some && data->0@ == bytes,
                None => data is None,
            },
    {
        match self {
            EmbedSource::File(_) => None,
            EmbedSource::Text(text) => Some(slice_to_vec(text.as_str().as_bytes())),
            EmbedSource::Binary(data) => Some(slice_to_vec(data.as_slice())),
        }
    }
}

} // verus!
