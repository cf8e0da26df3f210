//! Artwork pipeline logic: the known-host URL rewrite applied before the
//! fetch, the plan that tells the caller whether anything must be fetched,
//! and the degradation of a failed fetch or decode to the "no art" path.
//! The fetch and the image re-encode themselves are outside collaborators;
//! this module decides what they are asked and what their outcome means.

use vstd::prelude::*;

verus! {

/// Browser-facing host prefix a known streaming client emits in art URLs.
pub open spec fn source_prefix() -> Seq<char> {
    "https://open.spotify.com/"@
}

/// That service's direct content-delivery host prefix, which serves the
/// same path as fetchable bytes.
pub open spec fn target_prefix() -> Seq<char> {
    "https://i.scdn.co/"@
}

/// The URL actually fetched: when the URL starts with the browser-facing
/// prefix, exactly that prefix is replaced by the content-delivery prefix;
/// any other URL passes through unchanged.
pub open spec fn rewrite_spec(u: Seq<char>) -> Seq<char> {
    if u.len() >= source_prefix().len() && u.subrange(0, source_prefix().len() as int)
        == source_prefix() {
        target_prefix() + u.subrange(source_prefix().len() as int, u.len() as int)
    } else {
        u
    }
}

/// Apply the known-host rewrite to an art URL.
pub fn rewrite_art_url(url: &str) -> (r: String)
    ensures
        r@ == rewrite_spec(url@),
{
    proof {
        reveal_strlit("https://open.spotify.com/");
        reveal_strlit("https://i.scdn.co/");
    }
    let n = url.unicode_len();
    if n >= 25 {
        let head = url.substring_char(0, 25);
        let head_s = String::from_str(head);
        let prefix = String::from_str("https://open.spotify.com/");
        if head_s == prefix {
            let mut out = String::from_str("https://i.scdn.co/");
            out.append(url.substring_char(25, n));
            out
        } else {
            String::from_str(url)
        }
    } else {
        String::from_str(url)
    }
}

/// What the artwork pipeline is asked to do for a snapshot: nothing when
/// the snapshot carries no art reference, otherwise fetch the rewritten
/// URL.
pub enum ArtPlan {
    NoReference,
    Fetch(String),
}

/// A failure of one of the two soft artwork collaborators: the HTTP fetch
/// (transport failure or non-success status) or the image decode
/// (malformed or unsupported bytes).
#[derive(PartialEq, Eq, Structural, Clone, Copy, Debug)]
pub enum ArtError {
    Fetch,
    Decode,
}

/// What the frame draws in the art region: the re-encoded image bytes, or
/// the placeholder when there is nothing to draw.
pub enum ArtOutcome {
    Image(Vec<u8>),
    NoArt,
}

/// Decide the artwork work for a snapshot's art reference: an absent
/// reference needs no fetch; a present one is fetched at its rewritten URL.
pub fn plan_art(art_reference: &Option<String>) -> (p: ArtPlan)
    ensures
        match art_reference {
            Some(u) => p matches ArtPlan::Fetch(f) && f@ == rewrite_spec(u@),
            None => p is NoReference,
        },
{
    match art_reference {
        Some(u) => ArtPlan::Fetch(rewrite_art_url(u.as_str())),
        None => ArtPlan::NoReference,
    }
}

/// The outcome a fetch-and-decode result degrades to: the bytes on
/// success, the "no art" marker on any fetch or decode failure, so that a
/// flaky network or a malformed image never stops the frame.
pub open spec fn outcome_of(fetched: Result<Vec<u8>, ArtError>) -> ArtOutcome {
    match fetched {
        Ok(b) => ArtOutcome::Image(b),
        Err(_) => ArtOutcome::NoArt,
    }
}

/// Degrade a fetch-and-decode result to what the frame draws.
pub fn art_outcome_of(fetched: Result<Vec<u8>, ArtError>) -> (r: ArtOutcome)
    ensures
        r == outcome_of(fetched),
{
    match fetched {
        Ok(b) => ArtOutcome::Image(b),
        Err(_) => ArtOutcome::NoArt,
    }
}

} // verus!
