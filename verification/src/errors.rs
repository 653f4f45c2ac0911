use vstd::prelude::*;

verus! {

/// The failure kinds of the pipeline. Every kind is fatal where it is
/// detected: no step is retried, and files already written stay on disk.
#[derive(Clone, Copy, Debug, PartialEq, Eq, Structural)]
pub enum ImgError {
    /// The reference image could not be opened or read.
    ReferenceFile,
    /// The network round trip failed.
    Transport,
    /// The response body was not a well-formed generation response.
    Decode,
    /// A payload was not valid base64.
    Base64Decode,
    /// No free filename counter is left.
    CounterOverflow,
    /// An output file could not be created or written.
    FileWrite,
}

impl ImgError {
    /// The diagnostic text of this error kind.
    pub open spec fn message_spec(self) -> Seq<char> {
        match self {
            ImgError::ReferenceFile => "could not read the reference image"@,
            ImgError::Transport => "the request to the image service failed"@,
            ImgError::Decode => "could not decode the service response"@,
            ImgError::Base64Decode => "a returned payload was not valid base64"@,
            ImgError::CounterOverflow => "too many files with similar names"@,
            ImgError::FileWrite => "could not write an output file"@,
        }
    }

    /// A human-readable description of the error.
    pub fn message(&self) -> (r: &'static str)
        ensures
            r@ == self.message_spec(),
    {
        match self {
            ImgError::ReferenceFile => "could not read the reference image",
            ImgError::Transport => "the request to the image service failed",
            ImgError::Decode => "could not decode the service response",
            ImgError::Base64Decode => "a returned payload was not valid base64",
            ImgError::CounterOverflow => "too many files with similar names",
            ImgError::FileWrite => "could not write an output file",
        }
    }
}

} // verus!
