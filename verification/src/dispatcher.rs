//! The per-message decisions of the pipeline.
//!
//! The gateway hands each decision point to this module and performs only
//! what the returned [`Step`] says: fetch a lookup URL, load a record's
//! media, send the finished message, or stop without sending anything.
//! Every path that ends in a failure or a normal early exit yields a
//! [`Step::Stop`], so a stopped message never produces a send call.

use vstd::prelude::*;

use crate::formatter::DisplayMessage;
use crate::formatter::MediaAttachment;
use crate::formatter::build_display_message;
use crate::formatter::display_message_spec;
use crate::formatter::epoch_in_range;
use crate::matcher::match_spec;
use crate::matcher::match_twitter_url;
use crate::record::TweetResponse;

verus! {

/// Why a message's processing stopped without a send call.
#[derive(Clone, Copy, Debug, PartialEq, Eq, Structural)]
pub enum StopReason {
    /// The message came from the bot account itself; it never enters the
    /// pipeline.
    BotAuthor,
    /// The text holds no supported post link.  A normal outcome, not an
    /// error.
    NoMatch,
    /// The fetched record has no media.  A normal outcome, not an error.
    NoMedia,
    /// The lookup could not be reached: connection, timeout, or an
    /// unreadable response body.
    TransportFailure,
    /// The lookup answered, but its body did not decode into a full record.
    DecodeFailure,
    /// The record could not be formatted: its epoch is out of range, or a
    /// media load failed.
    FormatFailure,
}

/// What the gateway is to do next with one message.
pub enum Step {
    /// Stop: no send call is made for this message.
    Stop(StopReason),
    /// Fetch this lookup URL and report the outcome.
    Fetch(String),
    /// The display message is ready; load these media URLs in this order
    /// and hand each outcome to a media collector.
    Load(DisplayMessage, Vec<String>),
    /// Send the display message, then the attachments, into the channel the
    /// message came from.
    Send(DisplayMessage, Vec<MediaAttachment>),
}

/// What fetching the lookup URL came to.  Decoding happens at the edge that
/// owns the response body; the pipeline only receives its outcome.
pub enum FetchOutcome {
    /// The response body decoded into a full record.
    Success(TweetResponse),
    /// The lookup could not be reached, or its body could not be read.
    TransportFailure,
    /// The body was read but did not decode into a full record.
    DecodeFailure,
}

/// The fixed lookup-service endpoint, up to the post identifier.
pub open spec fn endpoint_prefix() -> Seq<char> {
    "https://api.vxtwitter.com/Twitter/status/"@
}

/// The lookup URL owed for one post identifier: the fixed endpoint with the
/// identifier appended.
pub open spec fn lookup_url_spec(id: Seq<char>) -> Seq<char> {
    endpoint_prefix() + id
}

/// Builds the lookup URL for a post identifier.
pub fn lookup_url(id: &str) -> (r: String)
    ensures
        r@ == lookup_url_spec(id@),
{
    let mut r = String::from_str("https://api.vxtwitter.com/Twitter/status/");
    r.append(id);
    r
}

/// Decides what an arriving chat message leads to: nothing for the bot's own
/// messages, nothing for text without a supported post link, and otherwise a
/// fetch of the lookup URL for the leftmost link's identifier.
pub fn on_message(author_is_bot: bool, content: &str) -> (r: Step)
    ensures
        author_is_bot ==> r == Step::Stop(StopReason::BotAuthor),
        !author_is_bot && match_spec(content@) is None ==> r == Step::Stop(StopReason::NoMatch),
        !author_is_bot ==> (match_spec(content@) matches Some(id) ==> (r matches Step::Fetch(u)
            && u@ == lookup_url_spec(id))),
{
    if author_is_bot {
        return Step::Stop(StopReason::BotAuthor);
    }
    match match_twitter_url(content) {
        None => Step::Stop(StopReason::NoMatch),
        Some(id) => Step::Fetch(lookup_url(id.as_str())),
    }
}

/// Decides what the fetch outcome leads to.  Failures stop the message with
/// the matching reason; a record without media stops it quietly; a record
/// with media yields the display message and the ordered media URLs to load.
/// Only the loaded-media path can ever reach a send call.
pub fn on_fetch(outcome: FetchOutcome) -> (r: Step)
    ensures
        outcome is TransportFailure ==> r == Step::Stop(StopReason::TransportFailure),
        outcome is DecodeFailure ==> r == Step::Stop(StopReason::DecodeFailure),
        outcome matches FetchOutcome::Success(rec) ==> (!rec.has_media ==> r == Step::Stop(
            StopReason::NoMedia,
        )),
        outcome matches FetchOutcome::Success(rec) ==> (rec.has_media && !epoch_in_range(
            rec.date_epoch,
        ) ==> r == Step::Stop(StopReason::FormatFailure)),
        outcome matches FetchOutcome::Success(rec) ==> (rec.has_media && epoch_in_range(
            rec.date_epoch,
        ) ==> (r matches Step::Load(m, urls) && display_message_spec(rec, m) && urls@
            == rec.media_urls@)),
{
    match outcome {
        FetchOutcome::TransportFailure => Step::Stop(StopReason::TransportFailure),
        FetchOutcome::DecodeFailure => Step::Stop(StopReason::DecodeFailure),
        FetchOutcome::Success(rec) => {
            if !rec.has_media {
                return Step::Stop(StopReason::NoMedia);
            }
            match build_display_message(&rec) {
                Err(_) => Step::Stop(StopReason::FormatFailure),
                Ok(m) => Step::Load(m, rec.media_urls),
            }
        },
    }
}

/// Decides what a finished attachment list leads to: the one send of the
/// pipeline, carrying the display message and the attachments as they were
/// collected.
pub fn on_media_complete(message: DisplayMessage, attachments: Vec<MediaAttachment>) -> (r: Step)
    ensures
        r matches Step::Send(m, a) && m == message && a == attachments,
{
    Step::Send(message, attachments)
}

} // verus!
