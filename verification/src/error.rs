//! The pipeline's error taxonomy.

use vstd::prelude::*;

verus! {

/// Everything that can go wrong while acquiring a comic.
///
/// `Navigation` marks a page that could not be loaded, `Extraction` an
/// expected element or attribute that was absent or unparsable,
/// `Consistency` a chapter whose realized image count differs from its
/// declared page count, `Transport` a failed image fetch, and `Codec` an
/// image that could not be decoded or re-encoded.
#[derive(Clone, Copy, Debug, PartialEq, Eq, Structural)]
pub enum ComicError {
    Navigation,
    Extraction,
    Consistency { declared: usize, found: usize },
    Transport,
    Codec,
}

impl ComicError {
    /// A short human-readable description, for the log stream: each
    /// variant names its own failure.
    pub fn describe(&self) -> (r: &'static str)
        ensures
            r@ == (match self {
                ComicError::Navigation => "page failed to load"@,
                ComicError::Extraction => "expected element or attribute absent or unparsable"@,
                ComicError::Consistency {
                    ..
                } => "realized image count differs from declared page count"@,
                ComicError::Transport => "image fetch failed"@,
                ComicError::Codec => "image decode or encode failed"@,
            }),
            r@.len() > 0,
    {
        proof {
            reveal_strlit("page failed to load");
            reveal_strlit("expected element or attribute absent or unparsable");
            reveal_strlit("realized image count differs from declared page count");
            reveal_strlit("image fetch failed");
            reveal_strlit("image decode or encode failed");
        }
        match self {
            ComicError::Navigation => "page failed to load",
            ComicError::Extraction => "expected element or attribute absent or unparsable",
            ComicError::Consistency { .. } => "realized image count differs from declared page count",
            ComicError::Transport => "image fetch failed",
            ComicError::Codec => "image decode or encode failed",
        }
    }
}

} // verus!
