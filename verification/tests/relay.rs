use faustok::batch::partition;
use faustok::commands::{img, mp3, vid};
use faustok::relay::{Action, Event, FetchOutcome, Phase, Relay};
use faustok::tiklydown::{
    Download, ImageStuff, MediaKind, MusicStuff, RelayError, TiklydownApiOne, VideoStuff,
};

fn answer(images: usize) -> TiklydownApiOne {
    let mut list = Vec::new();
    for i in 0..images {
        list.push(ImageStuff { image_url: format!("https://cdn.example/{}.jpg", i) });
    }
    TiklydownApiOne {
        images: Some(list),
        video: Some(VideoStuff { video_url: "https://cdn.example/v.mp4".to_string() }),
        music: Some(MusicStuff { music_url: "https://cdn.example/m.mp3".to_string() }),
    }
}

fn names(user: &str, from: usize, to: usize) -> Vec<String> {
    (from..to).map(|i| format!("{}_{}.jpg", user, i)).collect()
}

/// Runs a relay to its end. Every request succeeds, but the upload number
/// `failing_upload` and the fetch number `failing_fetch` (both counted from
/// one), and the deletions of the files in `stuck`.
fn run(
    mut relay: Relay,
    response: Option<TiklydownApiOne>,
    failing_fetch: usize,
    fetch_failure: FetchOutcome,
    failing_upload: usize,
    stuck: &[&str],
) -> Vec<Action> {
    let mut trace = Vec::new();
    let mut fetches = 0;
    let mut uploads = 0;
    let mut action = relay.pending();
    for _ in 0..1000 {
        let event = match &action {
            Action::Defer => Event::Acknowledged(true),
            Action::Resolve { .. } => Event::Resolved(response.clone()),
            Action::Fetch(_) => {
                fetches += 1;
                if fetches == failing_fetch {
                    Event::Fetched(fetch_failure)
                } else {
                    Event::Fetched(FetchOutcome::Stored)
                }
            }
            Action::Upload { .. } => {
                uploads += 1;
                Event::Uploaded(uploads != failing_upload)
            }
            Action::Delete { path } => Event::Deleted(!stuck.contains(&path.as_str())),
            Action::Done { .. } => {
                trace.push(action);
                return trace;
            }
        };
        trace.push(action);
        action = relay.step(event);
    }
    panic!("the relay did not end");
}

#[test]
fn ten_images_go_out_in_batches_of_four_four_two() {
    let trace = run(img("7", "https://vt.tiktok.com/x/"), Some(answer(10)), 0, FetchOutcome::Nothing, 0, &[]);
    let mut expected = vec![
        Action::Defer,
        Action::Resolve {
            request: "https://api.tiklydown.eu.org/api/download?url=https://vt.tiktok.com/x/"
                .to_string(),
        },
    ];
    for i in 0..10 {
        expected.push(Action::Fetch(Download {
            url: format!("https://cdn.example/{}.jpg", i),
            path: format!("7_{}.jpg", i),
        }));
    }
    expected.push(Action::Upload { paths: names("7", 0, 4) });
    expected.push(Action::Upload { paths: names("7", 4, 8) });
    expected.push(Action::Upload { paths: names("7", 8, 10) });
    for i in 0..10 {
        expected.push(Action::Delete { path: format!("7_{}.jpg", i) });
    }
    expected.push(Action::Done { result: Ok(()), undeleted: Vec::new() });
    assert_eq!(trace, expected);
}

#[test]
fn failed_third_upload_still_deletes_all_ten_files() {
    let trace = run(img("7", "u"), Some(answer(10)), 0, FetchOutcome::Nothing, 3, &[]);
    let uploads: Vec<&Action> =
        trace.iter().filter(|a| matches!(a, Action::Upload { .. })).collect();
    assert_eq!(uploads.len(), 3);
    assert_eq!(uploads[2], &Action::Upload { paths: names("7", 8, 10) });
    let fetched = trace.iter().filter(|a| matches!(a, Action::Fetch(_))).count();
    assert_eq!(fetched, 10);
    let deleted: Vec<String> = trace
        .iter()
        .filter_map(|a| match a {
            Action::Delete { path } => Some(path.clone()),
            _ => None,
        })
        .collect();
    assert_eq!(deleted, names("7", 0, 10));
    assert_eq!(
        trace.last(),
        Some(&Action::Done { result: Err(RelayError::UploadError), undeleted: Vec::new() })
    );
}

#[test]
fn failed_first_upload_sends_no_further_batch() {
    let trace = run(img("7", "u"), Some(answer(10)), 0, FetchOutcome::Nothing, 1, &[]);
    let uploads = trace.iter().filter(|a| matches!(a, Action::Upload { .. })).count();
    assert_eq!(uploads, 1);
    let deletes = trace.iter().filter(|a| matches!(a, Action::Delete { .. })).count();
    assert_eq!(deletes, 10);
}

#[test]
fn video_is_fetched_uploaded_and_deleted() {
    let trace = run(vid("7", "link"), Some(answer(2)), 0, FetchOutcome::Nothing, 0, &[]);
    assert_eq!(
        trace,
        vec![
            Action::Defer,
            Action::Resolve {
                request: "https://api.tiklydown.eu.org/api/download?url=link".to_string()
            },
            Action::Fetch(Download {
                url: "https://cdn.example/v.mp4".to_string(),
                path: "7.mp4".to_string()
            }),
            Action::Upload { paths: vec!["7.mp4".to_string()] },
            Action::Delete { path: "7.mp4".to_string() },
            Action::Done { result: Ok(()), undeleted: Vec::new() },
        ]
    );
}

#[test]
fn audio_is_fetched_uploaded_and_deleted() {
    let trace = run(mp3("7", "link"), Some(answer(2)), 0, FetchOutcome::Nothing, 0, &[]);
    assert_eq!(
        trace[2..],
        [
            Action::Fetch(Download {
                url: "https://cdn.example/m.mp3".to_string(),
                path: "7.mp3".to_string()
            }),
            Action::Upload { paths: vec!["7.mp3".to_string()] },
            Action::Delete { path: "7.mp3".to_string() },
            Action::Done { result: Ok(()), undeleted: Vec::new() },
        ]
    );
}

#[test]
fn missing_media_ends_the_relay_without_files() {
    let response = TiklydownApiOne { images: None, video: None, music: None };
    for (relay, kind) in [
        (vid("7", "u"), MediaKind::Video),
        (img("7", "u"), MediaKind::Images),
        (mp3("7", "u"), MediaKind::Audio),
    ] {
        let trace = run(relay, Some(response.clone()), 0, FetchOutcome::Nothing, 0, &[]);
        assert_eq!(trace.len(), 3);
        assert_eq!(
            trace[2],
            Action::Done { result: Err(RelayError::MediaNotFound(kind)), undeleted: Vec::new() }
        );
    }
}

#[test]
fn unreachable_resolver_ends_the_relay() {
    let trace = run(vid("7", "u"), None, 0, FetchOutcome::Nothing, 0, &[]);
    assert_eq!(
        trace.last(),
        Some(&Action::Done { result: Err(RelayError::ResolveError), undeleted: Vec::new() })
    );
    assert_eq!(trace.len(), 3);
}

#[test]
fn failed_acknowledgement_ends_the_relay_before_any_request() {
    let mut relay = vid("7", "u");
    let action = relay.step(Event::Acknowledged(false));
    assert_eq!(
        action,
        Action::Done { result: Err(RelayError::AcknowledgeError), undeleted: Vec::new() }
    );
    assert_eq!(relay.phase(), Phase::Finished);
}

#[test]
fn failed_fetch_deletes_what_was_created() {
    let trace = run(img("7", "u"), Some(answer(5)), 3, FetchOutcome::Nothing, 0, &[]);
    let deleted: Vec<String> = trace
        .iter()
        .filter_map(|a| match a {
            Action::Delete { path } => Some(path.clone()),
            _ => None,
        })
        .collect();
    assert_eq!(deleted, names("7", 0, 2));
    assert_eq!(trace.iter().filter(|a| matches!(a, Action::Upload { .. })).count(), 0);
    assert_eq!(
        trace.last(),
        Some(&Action::Done { result: Err(RelayError::DownloadError), undeleted: Vec::new() })
    );
}

#[test]
fn partly_written_file_is_deleted_too() {
    let trace = run(img("7", "u"), Some(answer(5)), 3, FetchOutcome::Partial, 0, &[]);
    let deleted: Vec<String> = trace
        .iter()
        .filter_map(|a| match a {
            Action::Delete { path } => Some(path.clone()),
            _ => None,
        })
        .collect();
    assert_eq!(deleted, names("7", 0, 3));
}

#[test]
fn first_fetch_failing_without_a_file_leaves_nothing_to_delete() {
    let trace = run(vid("7", "u"), Some(answer(1)), 1, FetchOutcome::Nothing, 0, &[]);
    assert_eq!(trace.len(), 4);
    assert_eq!(
        trace[3],
        Action::Done { result: Err(RelayError::DownloadError), undeleted: Vec::new() }
    );
}

#[test]
fn failed_deletion_is_reported_and_masks_nothing() {
    let trace =
        run(img("7", "u"), Some(answer(3)), 0, FetchOutcome::Nothing, 1, &["7_1.jpg"]);
    assert_eq!(trace.iter().filter(|a| matches!(a, Action::Delete { .. })).count(), 3);
    assert_eq!(
        trace.last(),
        Some(&Action::Done {
            result: Err(RelayError::UploadError),
            undeleted: vec!["7_1.jpg".to_string()]
        })
    );
}

#[test]
fn failed_deletion_after_a_full_upload_fails_the_relay() {
    let trace =
        run(img("7", "u"), Some(answer(3)), 0, FetchOutcome::Nothing, 0, &["7_0.jpg", "7_2.jpg"]);
    assert_eq!(trace.iter().filter(|a| matches!(a, Action::Upload { .. })).count(), 1);
    assert_eq!(trace.iter().filter(|a| matches!(a, Action::Delete { .. })).count(), 3);
    assert_eq!(
        trace.last(),
        Some(&Action::Done {
            result: Err(RelayError::DeleteError),
            undeleted: vec!["7_0.jpg".to_string(), "7_2.jpg".to_string()]
        })
    );
    let trace = run(vid("7", "u"), Some(answer(1)), 0, FetchOutcome::Nothing, 0, &["7.mp4"]);
    assert_eq!(
        trace.last(),
        Some(&Action::Done {
            result: Err(RelayError::DeleteError),
            undeleted: vec!["7.mp4".to_string()]
        })
    );
}

#[test]
fn report_that_answers_nothing_changes_nothing() {
    let mut relay = vid("7", "u");
    assert_eq!(relay.step(Event::Uploaded(true)), Action::Defer);
    assert_eq!(relay.step(Event::Deleted(false)), Action::Defer);
    assert_eq!(relay.step(Event::Fetched(FetchOutcome::Stored)), Action::Defer);
    assert_eq!(relay.step(Event::Resolved(None)), Action::Defer);
    assert_eq!(relay.phase(), Phase::Acknowledging);
    let resolve = relay.step(Event::Acknowledged(true));
    assert_eq!(relay.step(Event::Acknowledged(true)), resolve);
    assert_eq!(relay.phase(), Phase::Resolving);
    let done = relay.step(Event::Resolved(None));
    assert_eq!(relay.step(Event::Acknowledged(true)), done);
    assert_eq!(relay.step(Event::Deleted(true)), done);
    assert_eq!(relay.phase(), Phase::Finished);
}

#[test]
fn batch_size_is_the_relays_own() {
    let relay = Relay::new(MediaKind::Images, "7", "u", 3);
    let trace = run(relay, Some(answer(7)), 0, FetchOutcome::Nothing, 0, &[]);
    let uploads: Vec<Action> =
        trace.into_iter().filter(|a| matches!(a, Action::Upload { .. })).collect();
    assert_eq!(
        uploads,
        vec![
            Action::Upload { paths: names("7", 0, 3) },
            Action::Upload { paths: names("7", 3, 6) },
            Action::Upload { paths: names("7", 6, 7) },
        ]
    );
}

#[test]
fn partition_cuts_in_order() {
    let items: Vec<String> = (0..10).map(|i| i.to_string()).collect();
    let batches = partition(&items, 4);
    assert_eq!(batches.len(), 3);
    assert_eq!(batches[0], items[0..4].to_vec());
    assert_eq!(batches[1], items[4..8].to_vec());
    assert_eq!(batches[2], items[8..10].to_vec());
    assert_eq!(batches.concat(), items);
    assert_eq!(partition(&items, 10), vec![items.clone()]);
    assert_eq!(partition(&items, 11), vec![items.clone()]);
    assert_eq!(partition(&items, 1).len(), 10);
    assert_eq!(partition(&items, 5).len(), 2);
    assert_eq!(partition(&Vec::new(), 4), Vec::<Vec<String>>::new());
}
