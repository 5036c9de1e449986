use repost_pipeline::dispatcher::on_fetch;
use repost_pipeline::dispatcher::on_media_complete;
use repost_pipeline::dispatcher::on_message;
use repost_pipeline::dispatcher::lookup_url;
use repost_pipeline::dispatcher::FetchOutcome;
use repost_pipeline::dispatcher::Step;
use repost_pipeline::dispatcher::StopReason;
use repost_pipeline::formatter::build_display_message;
use repost_pipeline::formatter::FormatError;
use repost_pipeline::formatter::MediaCollector;
use repost_pipeline::formatter::MediaOutcome;
use repost_pipeline::formatter::MediaStep;
use repost_pipeline::record::TweetResponse;

fn sample_record(has_media: bool) -> TweetResponse {
    TweetResponse {
        date: String::from("Sat Jan 09 2021"),
        date_epoch: 1610203205,
        has_media,
        text: String::from("A lot of people don't realize this"),
        media_urls: vec![
            String::from("https://media.example/a.jpg"),
            String::from("https://media.example/b.jpg"),
            String::from("https://media.example/c.mp4"),
        ],
        tweet_url: String::from("https://x.com/elonmusk/status/1349129669258448897"),
        user_name: String::from("Elon Musk"),
        user_screen_name: String::from("elonmusk"),
        user_profile_image_url: String::from("https://media.example/avatar.jpg"),
    }
}

#[test]
fn lookup_url_appends_identifier() {
    let u = lookup_url("1349129669258448897");
    assert_eq!(
        u,
        String::from("https://api.vxtwitter.com/Twitter/status/1349129669258448897")
    );
}

#[test]
fn bot_author_is_ignored() {
    let step = on_message(true, "https://x.com/ab/status/123");
    assert!(matches!(step, Step::Stop(StopReason::BotAuthor)));
}

#[test]
fn text_without_link_stops() {
    let step = on_message(false, "good morning");
    assert!(matches!(step, Step::Stop(StopReason::NoMatch)));
}

#[test]
fn text_with_link_plans_fetch() {
    match on_message(false, "https://x.com/ab/status/99") {
        Step::Fetch(u) => {
            assert_eq!(u, String::from("https://api.vxtwitter.com/Twitter/status/99"))
        }
        _ => panic!("expected a fetch step"),
    }
}

#[test]
fn transport_failure_stops_without_send() {
    let step = on_fetch(FetchOutcome::TransportFailure);
    assert!(matches!(step, Step::Stop(StopReason::TransportFailure)));
}

#[test]
fn decode_failure_stops_without_send() {
    let step = on_fetch(FetchOutcome::DecodeFailure);
    assert!(matches!(step, Step::Stop(StopReason::DecodeFailure)));
}

#[test]
fn record_without_media_stops_without_send() {
    let step = on_fetch(FetchOutcome::Success(sample_record(false)));
    assert!(matches!(step, Step::Stop(StopReason::NoMedia)));
}

#[test]
fn record_with_media_plans_loads_in_order() {
    match on_fetch(FetchOutcome::Success(sample_record(true))) {
        Step::Load(m, urls) => {
            assert_eq!(m.author_name, String::from("Elon Musk(elonmusk)"));
            assert_eq!(m.author_icon_url, String::from("https://media.example/avatar.jpg"));
            assert_eq!(
                m.url,
                String::from("https://x.com/elonmusk/status/1349129669258448897")
            );
            assert_eq!(m.timestamp_epoch, 1610203205);
            assert_eq!(m.description, String::from("A lot of people don't realize this"));
            assert_eq!(
                urls,
                vec![
                    String::from("https://media.example/a.jpg"),
                    String::from("https://media.example/b.jpg"),
                    String::from("https://media.example/c.mp4"),
                ]
            );
        }
        _ => panic!("expected a load step"),
    }
}

#[test]
fn out_of_range_epoch_is_a_format_failure() {
    let mut rec = sample_record(true);
    rec.date_epoch = 8210266876800;
    let step = on_fetch(FetchOutcome::Success(rec));
    assert!(matches!(step, Step::Stop(StopReason::FormatFailure)));

    let mut rec = sample_record(true);
    rec.date_epoch = -8334601228801;
    let step = on_fetch(FetchOutcome::Success(rec));
    assert!(matches!(step, Step::Stop(StopReason::FormatFailure)));
}

#[test]
fn boundary_epochs_still_format() {
    let mut rec = sample_record(true);
    rec.date_epoch = 8210266876799;
    assert!(matches!(on_fetch(FetchOutcome::Success(rec)), Step::Load(_, _)));

    let mut rec = sample_record(true);
    rec.date_epoch = -8334601228800;
    assert!(matches!(on_fetch(FetchOutcome::Success(rec)), Step::Load(_, _)));
}

#[test]
fn build_display_message_reports_bad_epoch() {
    let mut rec = sample_record(true);
    rec.date_epoch = i64::MAX;
    match build_display_message(&rec) {
        Err(e) => assert_eq!(e, FormatError::TimestampOutOfRange),
        Ok(_) => panic!("expected a format failure"),
    }
}

#[test]
fn attachment_order_follows_record_order() {
    let urls = vec![
        String::from("https://media.example/b.jpg"),
        String::from("https://media.example/a.jpg"),
        String::from("https://media.example/c.mp4"),
    ];
    let mut collector = MediaCollector::new(urls.clone());
    let payloads: Vec<Vec<u8>> = vec![vec![1, 2], vec![3], vec![4, 5, 6]];
    let mut steps: Vec<MediaStep> = Vec::new();
    let mut seen: Vec<String> = Vec::new();
    for payload in &payloads {
        let next = collector.next_url().expect("a url is still owed");
        seen.push(next);
        steps.push(collector.on_media(MediaOutcome::Loaded(payload.clone())));
    }
    assert_eq!(seen, urls);
    assert_eq!(steps, vec![MediaStep::Continue, MediaStep::Continue, MediaStep::Done]);
    assert!(collector.next_url().is_none());
    let attachments = collector.finish();
    assert_eq!(attachments.len(), 3);
    for (k, att) in attachments.iter().enumerate() {
        assert_eq!(att.source_url, urls[k]);
        assert_eq!(att.bytes, payloads[k]);
    }
}

#[test]
fn media_failure_on_second_of_three_aborts() {
    let urls = vec![
        String::from("https://media.example/a.jpg"),
        String::from("https://media.example/b.jpg"),
        String::from("https://media.example/c.mp4"),
    ];
    let mut collector = MediaCollector::new(urls);
    let first = collector.on_media(MediaOutcome::Loaded(vec![9]));
    assert_eq!(first, MediaStep::Continue);
    let second = collector.on_media(MediaOutcome::Failed);
    assert_eq!(second, MediaStep::Abort);
    // The collector is not done, so no attachment list can leave it: the
    // aborted message yields zero send calls, unlike the successful case.
    assert!(collector.next_url().is_some());
}

#[test]
fn completed_collection_becomes_the_send() {
    let urls = vec![String::from("https://media.example/a.jpg")];
    let mut collector = MediaCollector::new(urls);
    let step = collector.on_media(MediaOutcome::Loaded(vec![7, 7]));
    assert_eq!(step, MediaStep::Done);
    let attachments = collector.finish();
    match on_fetch(FetchOutcome::Success(sample_record(true))) {
        Step::Load(m, _) => match on_media_complete(m, attachments) {
            Step::Send(m, atts) => {
                assert_eq!(m.author_name, String::from("Elon Musk(elonmusk)"));
                assert_eq!(atts.len(), 1);
                assert_eq!(atts[0].bytes, vec![7, 7]);
            }
            _ => panic!("expected a send step"),
        },
        _ => panic!("expected a load step"),
    }
}
