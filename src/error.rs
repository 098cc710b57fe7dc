//! Why the pipeline gives up on a file.

use vstd::prelude::*;

verus! {

/// A failure of the single-file pipeline. It stops the work on one file only.
#[derive(Debug)]
pub enum PipelineError {
    /// No media type is known for the file's extension (the path is kept).
    UnknownExtension(String),
    /// The media type is not one that the pipeline handles (the type is kept).
    UnsupportedMediaType(String),
    /// The HTML document could not be rendered to text.
    HtmlRendering,
    /// The meta code could not be computed from the title and extra text.
    MetaCode,
    /// The content code could not be computed.
    ContentCode,
    /// The data code could not be computed.
    DataCode,
    /// The instance code could not be computed.
    InstanceCode,
    /// An image whose pixels could not be read.
    ImageUndecodable,
    /// Content codes of audio files are not implemented.
    AudioNotImplemented,
    /// Content codes of video files are not implemented.
    VideoNotImplemented,
    /// Partial content codes are not offered by the code generator.
    PartialUnsupported,
}

} // verus!
