//! The decision parser: turns the server's negotiation verdict into the
//! selected media, or into the typed refusal the verdict expresses.
//!
//! The precedence matters: the authoritative refusal codes must
//! short-circuit before stream selection, which would otherwise return a
//! nonsensical "selected" stream for content the server has already
//! refused.

use vstd::prelude::*;
use crate::error::{Error, Feature};
use crate::media::{Media, Metadata};
use crate::text::str_eq;

verus! {

/// The `general_decision_code` with which the server forbids downloads for
/// the account, next to the text "Downloads not allowed".
pub const GENERAL_DECISION_DOWNLOADS_FORBIDDEN: u32 = 2011;

/// The `direct_play_decision_code` with which the decision endpoint
/// declines to transcode the content at all.
pub const DIRECT_PLAY_REFUSED: u32 = 1000;

/// The same sentinel value as [`DIRECT_PLAY_REFUSED`], in its other,
/// per-item meaning: a queue item whose direct-play code carries this value
/// was served the original bytes, so it is *not* a transcode. The two
/// checks are contextually different and deserve separate names.
pub const DIRECT_PLAY_NOT_CHOSEN: u32 = 1000;

/// The server's negotiation verdict fields.
#[derive(Debug, Clone, PartialEq, Eq)]
pub struct DecisionResult {
    pub general_decision_code: Option<u32>,
    pub general_decision_text: Option<String>,
    pub direct_play_decision_code: Option<u32>,
    pub direct_play_decision_text: Option<String>,
    pub transcode_decision_code: Option<u32>,
    pub transcode_decision_text: Option<String>,
}

/// The decision endpoint's response body, reduced to what negotiation
/// reads: the verdict fields and the metadata entries.
#[derive(Debug, Clone, PartialEq, Eq)]
pub struct TranscodeDecisionContainer {
    pub decision_result: DecisionResult,
    pub metadata: Vec<Metadata>,
}

/// Whether the verdict is the account-level "downloads not allowed"
/// refusal.
pub open spec fn spec_downloads_forbidden(d: DecisionResult) -> bool {
    &&& d.general_decision_code == Some(GENERAL_DECISION_DOWNLOADS_FORBIDDEN)
    &&& (d.general_decision_text matches Some(t) && t@ == "Downloads not allowed"@)
}

/// Whether the verdict declines to transcode the content at all.
pub open spec fn spec_transcode_refused(d: DecisionResult) -> bool {
    d.direct_play_decision_code == Some(DIRECT_PLAY_REFUSED)
}

/// The first media at or after position `i` that is flagged selected.
pub open spec fn first_selected_media_from(ms: Seq<Media>, i: int) -> Option<Media>
    decreases ms.len() - i,
{
    if i < 0 || i >= ms.len() {
        None
    } else if ms[i].selected == Some(true) {
        Some(ms[i])
    } else {
        first_selected_media_from(ms, i + 1)
    }
}

/// The media the verdict selects: the first metadata entry's first media
/// flagged selected.
pub open spec fn spec_selected_media(metadata: Seq<Metadata>) -> Option<Media> {
    if metadata.len() == 0 {
        None
    } else {
        match metadata[0].media {
            Some(ms) => first_selected_media_from(ms@, 0),
            None => None,
        }
    }
}

/// Interprets the decision endpoint's verdict, in precedence order:
/// the account-level download refusal first, the transcode refusal second,
/// then stream selection; when nothing is selected, the verdict's own
/// refusal text when present, else the raw status and body.
///
/// `status_code` and `content` are the response's status and body, used
/// only for the diagnostic error of the last case.
pub fn transcode_decision(container: TranscodeDecisionContainer, status_code: u16, content: String)
    -> (r: Result<Media, Error>)
    ensures
        spec_downloads_forbidden(container.decision_result) ==> r == Err::<Media, Error>(
            Error::SubscriptionFeatureNotAvailable(Feature::SyncV3),
        ),
        !spec_downloads_forbidden(container.decision_result) && spec_transcode_refused(
            container.decision_result,
        ) ==> r == Err::<Media, Error>(Error::TranscodeRefused),
        !spec_downloads_forbidden(container.decision_result) && !spec_transcode_refused(
            container.decision_result,
        ) ==> (match spec_selected_media(container.metadata@) {
            Some(m) => r == Ok::<Media, Error>(m),
            None => (match container.decision_result.transcode_decision_text {
                Some(t) => r == Err::<Media, Error>(Error::TranscodeError(t)),
                None => r == Err::<Media, Error>(
                    Error::UnexpectedApiResponse { status_code, content },
                ),
            }),
        }),
{
    let d = container.decision_result;
    let forbidden: bool = match (&d.general_decision_code, &d.general_decision_text) {
        (Some(code), Some(text)) => *code == GENERAL_DECISION_DOWNLOADS_FORBIDDEN && str_eq(
            text.as_str(),
            "Downloads not allowed",
        ),
        _ => false,
    };
    if forbidden {
        return Err(Error::SubscriptionFeatureNotAvailable(Feature::SyncV3));
    }
    let refused: bool = match &d.direct_play_decision_code {
        Some(code) => *code == DIRECT_PLAY_REFUSED,
        None => false,
    };
    if refused {
        return Err(Error::TranscodeRefused);
    }
    proof {
        assert(!spec_downloads_forbidden(container.decision_result));
        assert(!spec_transcode_refused(container.decision_result));
    }
    let mut metadata = container.metadata;
    if metadata.len() > 0 {
        let first = metadata.remove(0);
        match first.media {
            Some(mut ms) => {
                let ghost ms0 = ms@;
                proof {
                    assert(spec_selected_media(container.metadata@) == first_selected_media_from(
                        ms0,
                        0,
                    ));
                }
                let n = ms.len();
                let mut i: usize = 0;
                while i < n
                    invariant
                        i <= n,
                        n == ms0.len(),
                        ms@ == ms0,
                        !spec_downloads_forbidden(container.decision_result),
                        !spec_transcode_refused(container.decision_result),
                        spec_selected_media(container.metadata@) == first_selected_media_from(
                            ms0,
                            i as int,
                        ),
                    decreases n - i,
                {
                    let sel = ms[i].selected;
                    let found: bool = match sel {
                        Some(true) => true,
                        _ => false,
                    };
                    if found {
                        let m = ms.remove(i);
                        return Ok(m);
                    }
                    i = i + 1;
                }
            },
            None => {},
        }
    }
    match d.transcode_decision_text {
        Some(t) => Err(Error::TranscodeError(t)),
        None => Err(Error::UnexpectedApiResponse { status_code, content }),
    }
}

} // verus!
