use vstd::prelude::*;

verus! {

/// Everything that can end a decode run without a result.
///
/// A failure aborts the whole run and discards any samples gathered so far;
/// there is no partial success. A clean end of the stream is not an error
/// and never appears here.
#[derive(Clone, Copy, Debug, PartialEq, Eq, Structural)]
pub enum AudioError {
    /// The input path does not exist at call time.
    FileNotFound,
    /// The file exists but opening it failed (permissions, a race, ...).
    IoError,
    /// The container could not be probed or demuxed.
    FormatError,
    /// The demuxed container has no default audio track.
    NoAudioTrack,
    /// No decoder is available for the track's codec parameters.
    UnsupportedCodec,
    /// A packet failed to decode mid-stream.
    DecodeError,
    /// A decoded buffer uses a sample representation other than 16-bit
    /// integer or 32-bit float.
    UnsupportedFormat,
}

impl AudioError {
    /// A short description, one per variant.
    pub fn message(&self) -> (r: &'static str)
        ensures
            self is FileNotFound ==> r@ == "file not found"@,
            self is IoError ==> r@ == "could not open file"@,
            self is FormatError ==> r@ == "container could not be demuxed"@,
            self is NoAudioTrack ==> r@ == "audio track not found"@,
            self is UnsupportedCodec ==> r@ == "no decoder for this codec"@,
            self is DecodeError ==> r@ == "packet failed to decode"@,
            self is UnsupportedFormat ==> r@ == "unsupported sample format"@,
    {
        match self {
            AudioError::FileNotFound => "file not found",
            AudioError::IoError => "could not open file",
            AudioError::FormatError => "container could not be demuxed",
            AudioError::NoAudioTrack => "audio track not found",
            AudioError::UnsupportedCodec => "no decoder for this codec",
            AudioError::DecodeError => "packet failed to decode",
            AudioError::UnsupportedFormat => "unsupported sample format",
        }
    }
}

} // verus!
