//! The normalized post record that a lookup of one post identifier yields.

use vstd::prelude::*;

verus! {

/// One post, as the lookup service describes it.
///
/// `date` carries the display timestamp and `date_epoch` the same instant in
/// seconds since the epoch; `date_epoch` is the authoritative source for any
/// derived timestamp.  `media_urls` is ordered, and that order is kept
/// end-to-end into the attachment list.  All fields are required: a lookup
/// response missing any of them yields no record at all.
pub struct TweetResponse {
    pub date: String,
    pub date_epoch: i64,
    pub has_media: bool,
    pub text: String,
    pub media_urls: Vec<String>,
    pub tweet_url: String,
    pub user_name: String,
    pub user_screen_name: String,
    pub user_profile_image_url: String,
}

} // verus!
