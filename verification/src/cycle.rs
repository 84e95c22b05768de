//! Per-cycle decisions: which source serves the cycle, what a remote
//! response may become, and whether a local candidate passes the filter
//! gate.
//!
//! The run loop that acts on these decisions (fetching, decoding,
//! applying the wallpaper, sleeping) lives outside the library; every
//! choice it has to make is taken here, over plain values.

use crate::config::LocalCnf;
use crate::metadata::{accepts, spec_accepts, Dimensions};
use crate::rng::rand_index;
use crate::text::str_eq;
use vstd::prelude::*;

verus! {

/// Which sources are available, derived once at startup.
#[derive(Debug, PartialEq, Eq, Structural, Clone, Copy)]
pub enum SourceMode {
    LocalOnly,
    RemoteOnly,
    Mixed,
    Disabled,
}

/// The source serving one cycle.
#[derive(Debug, PartialEq, Eq, Structural, Clone, Copy)]
pub enum Source {
    Local,
    Remote,
}

/// The accepted remote image formats.
#[derive(Debug, PartialEq, Eq, Structural, Clone, Copy)]
pub enum ImageKind {
    Png,
    Jpeg,
}

/// A recoverable per-cycle failure.  Each one ends the cycle early and
/// the driver proceeds to the inter-cycle sleep; none terminates the
/// process.
#[derive(Debug, PartialEq, Eq, Structural, Clone, Copy)]
pub enum SelectError {
    /// A scan produced no candidate file.
    NoCandidates,
    /// A remote fetch failed at the connection level.
    TransportFailure,
    /// A remote response carried a content type that is not an image.
    UnsupportedContentType,
    /// A candidate image could not be decoded.
    DecodeFailure,
    /// The acceptance filter turned the candidate down.
    FilterRejected,
    /// The external wallpaper-apply call failed.
    ApplyFailure,
}

impl SelectError {
    /// A short description of the failure.
    pub fn message(&self) -> (m: String)
        ensures
            self is NoCandidates ==> m@ == "no candidate images were found"@,
            self is TransportFailure ==> m@ == "could not connect to the remote source"@,
            self is UnsupportedContentType ==> m@ == "the remote response is not an image"@,
            self is DecodeFailure ==> m@ == "the image could not be decoded"@,
            self is FilterRejected ==> m@ == "the image was rejected by the acceptance filter"@,
            self is ApplyFailure ==> m@ == "the wallpaper could not be applied"@,
    {
        match self {
            SelectError::NoCandidates => "no candidate images were found".to_owned(),
            SelectError::TransportFailure => "could not connect to the remote source".to_owned(),
            SelectError::UnsupportedContentType => "the remote response is not an image".to_owned(),
            SelectError::DecodeFailure => "the image could not be decoded".to_owned(),
            SelectError::FilterRejected => "the image was rejected by the acceptance filter"
                .to_owned(),
            SelectError::ApplyFailure => "the wallpaper could not be applied".to_owned(),
        }
    }
}

/// The mode the enabled-source flags put the cycle driver in.
pub open spec fn spec_mode(use_directory: bool, use_urls: bool) -> SourceMode {
    if use_directory && use_urls {
        SourceMode::Mixed
    } else if use_directory {
        SourceMode::LocalOnly
    } else if use_urls {
        SourceMode::RemoteOnly
    } else {
        SourceMode::Disabled
    }
}

/// Derives the cycle driver's mode from the enabled-source flags.
pub fn derive_mode(use_directory: bool, use_urls: bool) -> (m: SourceMode)
    ensures
        m == spec_mode(use_directory, use_urls),
{
    if use_directory && use_urls {
        SourceMode::Mixed
    } else if use_directory {
        SourceMode::LocalOnly
    } else if use_urls {
        SourceMode::RemoteOnly
    } else {
        SourceMode::Disabled
    }
}

/// The source a mixed-mode draw routes to: 1 through 50 go local, 51
/// through 100 go remote, and 0 selects neither — that boundary draw
/// skips the cycle, a long-standing quirk that is kept as it is.
pub open spec fn spec_choice(chance: u32) -> Option<Source> {
    if 1 <= chance && chance <= 50 {
        Some(Source::Local)
    } else if 51 <= chance && chance <= 100 {
        Some(Source::Remote)
    } else {
        None
    }
}

/// Routes one mixed-mode draw to a source, or to none for the boundary
/// draw of zero.
pub fn choose_source(chance: u32) -> (r: Option<Source>)
    ensures
        r == spec_choice(chance),
{
    if chance > 0 && chance < 51 {
        Some(Source::Local)
    } else if chance > 50 && chance < 101 {
        Some(Source::Remote)
    } else {
        None
    }
}

/// Selects the source serving this cycle.  The single-source modes are
/// deterministic; mixed mode draws uniformly from `[0, 100)` and routes
/// the draw through [`choose_source`], so it may select no source at
/// all.  A disabled driver never selects a source.
pub fn arbitrate(mode: &SourceMode) -> (r: Option<Source>)
    ensures
        mode is LocalOnly ==> r == Some(Source::Local),
        mode is RemoteOnly ==> r == Some(Source::Remote),
        mode is Disabled ==> r is None,
        mode is Mixed ==> (exists|c: u32| c < 100 && r == #[trigger] spec_choice(c)),
{
    match mode {
        SourceMode::LocalOnly => Some(Source::Local),
        SourceMode::RemoteOnly => Some(Source::Remote),
        SourceMode::Disabled => None,
        SourceMode::Mixed => {
            let chance = rand_index(100);
            choose_source(chance as u32)
        },
    }
}

/// Classifies a remote response's declared content type.  Only
/// `image/png` and `image/jpeg` are accepted, exactly; anything else is
/// an unsupported content type and the fetched bytes are discarded.
pub fn classify_content_type(content_type: &str) -> (r: Result<ImageKind, SelectError>)
    ensures
        match r {
            Ok(k) => (k is Png && content_type@ == "image/png"@) || (k is Jpeg && content_type@
                == "image/jpeg"@),
            Err(e) => e is UnsupportedContentType && content_type@ != "image/png"@ && content_type@
                != "image/jpeg"@,
        },
{
    if str_eq(content_type, "image/png") {
        Ok(ImageKind::Png)
    } else if str_eq(content_type, "image/jpeg") {
        Ok(ImageKind::Jpeg)
    } else {
        Err(SelectError::UnsupportedContentType)
    }
}

/// The file name under which a remote image of the given kind is stored
/// for the remainder of the cycle.
pub fn remote_file_name(kind: &ImageKind) -> (r: &'static str)
    ensures
        kind is Png ==> r@ == "img.png"@,
        kind is Jpeg ==> r@ == "img.jpg"@,
{
    match kind {
        ImageKind::Png => "img.png",
        ImageKind::Jpeg => "img.jpg",
    }
}

/// The cycle needs the image's dimensions: some enabled test reads them.
pub open spec fn spec_needs_metadata(local: LocalCnf) -> bool {
    local.set_quality_control || !local.use_portrait
}

/// Whether the cycle must decode the candidate's dimensions before the
/// filter gate.  When no enabled test reads them, the decode is skipped
/// and the candidate is accepted unconditionally.
pub fn needs_metadata(local: &LocalCnf) -> (r: bool)
    ensures
        r == spec_needs_metadata(*local),
{
    local.set_quality_control || !local.use_portrait
}

/// The filter gate of one cycle.  `dims` is the outcome of the decode
/// when one was needed: `None` records a decode failure.  Without an
/// enabled test the candidate passes unconditionally; with one, a decode
/// failure rejects the candidate for this cycle, and otherwise the
/// acceptance filter decides.
pub fn filter_gate(local: &LocalCnf, dims: Option<&Dimensions>) -> (r: Result<(), SelectError>)
    ensures
        !spec_needs_metadata(*local) ==> r is Ok,
        spec_needs_metadata(*local) && dims is None ==> r == Err::<(), SelectError>(
            SelectError::DecodeFailure,
        ),
        spec_needs_metadata(*local) ==> (dims matches Some(d) ==> (if spec_accepts(*d, *local) {
            r is Ok
        } else {
            r == Err::<(), SelectError>(SelectError::FilterRejected)
        })),
{
    if !needs_metadata(local) {
        return Ok(());
    }
    match dims {
        None => Err(SelectError::DecodeFailure),
        Some(d) => {
            if accepts(d, local) {
                Ok(())
            } else {
                Err(SelectError::FilterRejected)
            }
        },
    }
}

} // verus!
