//! Turning a post record into a display message and an ordered list of
//! media attachments.
//!
//! The display message is built here in full; the bytes of each attachment
//! come from the surrounding gateway, which loads the record's media URLs
//! one by one, in order, and hands each outcome to a [`MediaCollector`].
//! A single failed load fails the whole formatting step: no partial
//! attachment list ever leaves this module.

use vstd::prelude::*;

use crate::record::TweetResponse;

verus! {

/// Earliest second since the epoch that the platform's datetime type
/// represents (midnight opening year -262143).
pub const TIMESTAMP_EPOCH_MIN: i64 = -8334601228800;

/// Latest second since the epoch that the platform's datetime type
/// represents (the last second of year 262142).
pub const TIMESTAMP_EPOCH_MAX: i64 = 8210266876799;

/// The epoch seconds values the platform's datetime type represents.
pub open spec fn epoch_in_range(secs: i64) -> bool {
    TIMESTAMP_EPOCH_MIN <= secs && secs <= TIMESTAMP_EPOCH_MAX
}

/// Relies on `serenity::model::Timestamp::from_unix_timestamp`: it returns
/// `Ok` exactly for the seconds values whose instant the platform's datetime
/// type (chrono's UTC datetime, years -262143 through 262142) represents.
/// The requires keeps the argument where the conversion's internal scaling
/// to milliseconds cannot overflow.
#[verifier::external_body]
fn epoch_representable(secs: i64) -> (r: bool)
    requires
        -9_223_372_036_854_775 <= secs <= 9_223_372_036_854_775,
    ensures
        r == epoch_in_range(secs),
{
    serenity::model::Timestamp::from_unix_timestamp(secs).is_ok()
}

/// Why formatting a record failed.
#[derive(Clone, Copy, Debug, PartialEq, Eq, Structural)]
pub enum FormatError {
    /// The record's epoch lies outside what the platform's datetime type
    /// represents.
    TimestampOutOfRange,
    /// A media URL of the record could not be loaded.
    MediaLoadFailure,
}

/// The display message posted back into the channel: author block, link,
/// timestamp and body.
pub struct DisplayMessage {
    /// The author block's name, `<display name>(<handle>)`.
    pub author_name: String,
    /// The author block's avatar image.
    pub author_icon_url: String,
    /// The canonical link of the original post.
    pub url: String,
    /// The instant of the original post, in seconds since the epoch.
    pub timestamp_epoch: i64,
    /// The post's body text, verbatim.
    pub description: String,
}

/// The author block's name: the display name, then the handle in parentheses.
pub open spec fn author_line_spec(name: Seq<char>, handle: Seq<char>) -> Seq<char> {
    name + seq!['('] + handle + seq![')']
}

/// Builds the author block's name from a display name and a handle.
pub fn author_line(name: &String, handle: &String) -> (r: String)
    ensures
        r@ == author_line_spec(name@, handle@),
{
    let mut r = name.clone();
    r.append("(");
    r.append(handle.as_str());
    r.append(")");
    proof {
        reveal_strlit("(");
        reveal_strlit(")");
        assert(r@ =~= author_line_spec(name@, handle@));
    }
    r
}

/// `m` is the display message owed for the record `rec`: author block from
/// the record's author fields, link set to the record's permalink, timestamp
/// taken from the record's epoch, body text verbatim.
pub open spec fn display_message_spec(rec: TweetResponse, m: DisplayMessage) -> bool {
    &&& m.author_name@ == author_line_spec(rec.user_name@, rec.user_screen_name@)
    &&& m.author_icon_url@ == rec.user_profile_image_url@
    &&& m.url@ == rec.tweet_url@
    &&& m.timestamp_epoch == rec.date_epoch
    &&& m.description@ == rec.text@
}

/// Builds the display message for a record, or reports a format failure when
/// the record's epoch has no representable instant.
pub fn build_display_message(rec: &TweetResponse) -> (r: Result<DisplayMessage, FormatError>)
    ensures
        r is Ok <==> epoch_in_range(rec.date_epoch),
        r matches Ok(m) ==> display_message_spec(*rec, m),
        r is Err ==> r == Err::<DisplayMessage, FormatError>(FormatError::TimestampOutOfRange),
{
    if rec.date_epoch < -9_223_372_036_854_775 || rec.date_epoch > 9_223_372_036_854_775 {
        return Err(FormatError::TimestampOutOfRange);
    }
    if !epoch_representable(rec.date_epoch) {
        return Err(FormatError::TimestampOutOfRange);
    }
    Ok(DisplayMessage {
        author_name: author_line(&rec.user_name, &rec.user_screen_name),
        author_icon_url: rec.user_profile_image_url.clone(),
        url: rec.tweet_url.clone(),
        timestamp_epoch: rec.date_epoch,
        description: rec.text.clone(),
    })
}

/// One loaded media attachment, tagged with the URL it was loaded from.
pub struct MediaAttachment {
    /// The media URL of the record this attachment came from.
    pub source_url: String,
    /// The loaded bytes of the media resource.
    pub bytes: Vec<u8>,
}

/// The outcome the gateway reports for loading one media URL.
pub enum MediaOutcome {
    /// The resource's bytes.
    Loaded(Vec<u8>),
    /// The load failed.
    Failed,
}

/// What to do after handing one media outcome to the collector.
#[derive(Clone, Copy, Debug, PartialEq, Eq, Structural)]
pub enum MediaStep {
    /// Load the next URL.
    Continue,
    /// Every URL is loaded; the attachment list is complete.
    Done,
    /// A load failed: the whole formatting step fails, nothing is sent.
    Abort,
}

/// Collects media attachments for a record's URLs, strictly in the record's
/// order, all-or-nothing: the finished list exists only once every URL has
/// been loaded, and a single failure aborts the whole step.
pub struct MediaCollector {
    urls: Vec<String>,
    attachments: Vec<MediaAttachment>,
}

impl MediaCollector {
    /// The URLs this collector was given, in order.
    pub closed spec fn urls_view(self) -> Seq<Seq<char>> {
        self.urls.deep_view()
    }

    /// What has been attached so far: for each attachment, its source URL
    /// and its bytes, in order.
    pub closed spec fn attached(self) -> Seq<(Seq<char>, Seq<u8>)> {
        Seq::new(
            self.attachments@.len(),
            |k: int| (self.attachments@[k].source_url@, self.attachments@[k].bytes@),
        )
    }

    /// Each attachment so far carries the URL at its own position: order is
    /// kept, nothing is reordered, dropped or deduplicated.
    pub open spec fn wf(self) -> bool {
        &&& self.attached().len() <= self.urls_view().len()
        &&& forall|k: int| 0 <= k < self.attached().len() ==> self.attached()[k].0 == self.urls_view()[k]
    }

    /// A fresh collector for the given URLs, with nothing attached.
    pub fn new(urls: Vec<String>) -> (r: Self)
        ensures
            r.wf(),
            r.urls_view() == urls.deep_view(),
            r.attached() == Seq::<(Seq<char>, Seq<u8>)>::empty(),
    {
        let r = MediaCollector { urls, attachments: Vec::new() };
        proof {
            assert(r.attached() =~= Seq::<(Seq<char>, Seq<u8>)>::empty());
        }
        r
    }

    /// The next URL to load, or nothing once every URL is attached.
    pub fn next_url(&self) -> (r: Option<String>)
        requires
            self.wf(),
        ensures
            r is Some <==> self.attached().len() < self.urls_view().len(),
            r matches Some(u) ==> u@ == self.urls_view()[self.attached().len() as int],
    {
        if self.attachments.len() < self.urls.len() {
            Some(self.urls[self.attachments.len()].clone())
        } else {
            None
        }
    }

    /// Takes the outcome of loading the next URL.  A loaded resource is
    /// appended under that URL; a failed load aborts with nothing changed,
    /// and the step says whether to go on, send, or abort.
    pub fn on_media(&mut self, outcome: MediaOutcome) -> (r: MediaStep)
        requires
            old(self).wf(),
            old(self).attached().len() < old(self).urls_view().len(),
        ensures
            final(self).wf(),
            final(self).urls_view() == old(self).urls_view(),
            outcome matches MediaOutcome::Loaded(b) ==> final(self).attached() == old(self).attached().push(
                (old(self).urls_view()[old(self).attached().len() as int], b@),
            ),
            outcome matches MediaOutcome::Loaded(b) ==> (r == MediaStep::Done <==> final(self).attached().len() == final(self).urls_view().len()),
            outcome matches MediaOutcome::Loaded(b) ==> (r == MediaStep::Done || r == MediaStep::Continue),
            outcome is Failed ==> r == MediaStep::Abort && *final(self) == *old(self),
    {
        match outcome {
            MediaOutcome::Loaded(bytes) => {
                let source_url = self.urls[self.attachments.len()].clone();
                self.attachments.push(MediaAttachment { source_url, bytes });
                proof {
                    assert(self.attached() =~= old(self).attached().push(
                        (old(self).urls_view()[old(self).attached().len() as int],
                        self.attachments@[self.attachments@.len() - 1].bytes@),
                    ));
                }
                if self.attachments.len() == self.urls.len() {
                    MediaStep::Done
                } else {
                    MediaStep::Continue
                }
            },
            MediaOutcome::Failed => MediaStep::Abort,
        }
    }

    /// Hands the finished attachment list out.  It exists only when every
    /// URL was loaded, and its order is exactly the record's URL order.
    pub fn finish(self) -> (r: Vec<MediaAttachment>)
        requires
            self.wf(),
            self.attached().len() == self.urls_view().len(),
        ensures
            r@.len() == self.urls_view().len(),
            forall|k: int| 0 <= k < r@.len() ==> r@[k].source_url@ == self.urls_view()[k]
                && r@[k].bytes@ == self.attached()[k].1,
    {
        self.attachments
    }
}

} // verus!
