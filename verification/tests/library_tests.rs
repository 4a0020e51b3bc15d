use podcast_ui::completion::{is_completed, toggle_completed};
use podcast_ui::episode::{
    error_message, ContextButtonProps, EpisodeKind, EpisodeRecord, EpisodeTrait, ErrorMessageProps,
    SearchNewEpisode,
};
use podcast_ui::library::{
    apply_reply, completion_action, local_artwork_file_name, local_audio_file_name, server_call,
    without_episode, EpisodeAction, EpisodeRequest, LibraryState, NoticeState,
};
use podcast_ui::local_download::{
    local_download_advance, local_download_plan, local_download_request, EpisodeMetadata,
    LocalDownloadRequest, LocalDownloadStep,
};
use podcast_ui::text::{i32_to_decimal, str_equal};

fn record(kind: EpisodeKind, id: i32) -> EpisodeRecord {
    EpisodeRecord::new(kind, format!("art{}", id), format!("Title {}", id), id)
}

fn ids(list: &Option<Vec<EpisodeRecord>>) -> Option<Vec<i32>> {
    list.as_ref().map(|v| v.iter().map(|e| e.id).collect())
}

fn library() -> LibraryState {
    LibraryState {
        queued_episodes: Some(vec![
            record(EpisodeKind::QueuedEpisode, 1),
            record(EpisodeKind::QueuedEpisode, 2),
            record(EpisodeKind::QueuedEpisode, 1),
        ]),
        saved_episodes: Some(vec![record(EpisodeKind::SavedEpisode, 2), record(EpisodeKind::SavedEpisode, 3)]),
        downloaded_episodes: None,
        completed_episodes: Some(vec![4, 2]),
        info_message: None,
    }
}

fn notices() -> NoticeState {
    NoticeState { info_message: None, error_message: None, local_download_increment: None }
}

#[test]
fn decimal_of_small_and_extreme_values() {
    assert_eq!(i32_to_decimal(0), "0");
    assert_eq!(i32_to_decimal(7), "7");
    assert_eq!(i32_to_decimal(42), "42");
    assert_eq!(i32_to_decimal(-5), "-5");
    assert_eq!(i32_to_decimal(1000), "1000");
    assert_eq!(i32_to_decimal(i32::MAX), "2147483647");
    assert_eq!(i32_to_decimal(i32::MIN), "-2147483648");
}

#[test]
fn decimal_reads_back_on_values() {
    for n in [0, 9, 10, 99, 12345, -1, -98765, i32::MIN, i32::MAX] {
        assert_eq!(i32_to_decimal(n).parse::<i32>().unwrap(), n);
        assert_eq!(i32_to_decimal(n), n.to_string());
    }
}

#[test]
fn string_slices_compare_by_characters() {
    assert!(str_equal("saved", "saved"));
    assert!(!str_equal("saved", "save"));
    assert!(!str_equal("queue", "Queue"));
    assert!(str_equal("", ""));
    assert!(str_equal("épisode", "épisode"));
    assert!(!str_equal("épisode", "episode"));
}

#[test]
fn local_file_names() {
    assert_eq!(local_audio_file_name(42), "episode_42.mp3");
    assert_eq!(local_artwork_file_name(42), "artwork_42.jpg");
    assert_eq!(local_audio_file_name(-3), "episode_-3.mp3");
}

#[test]
fn toggle_creates_missing_list() {
    assert_eq!(toggle_completed(None, 5), Some(vec![5]));
}

#[test]
fn toggle_removes_first_occurrence_or_appends() {
    assert_eq!(toggle_completed(Some(vec![1, 5, 2]), 5), Some(vec![1, 2]));
    assert_eq!(toggle_completed(Some(vec![1, 2]), 5), Some(vec![1, 2, 5]));
    assert_eq!(toggle_completed(Some(vec![5, 1, 5]), 5), Some(vec![1, 5]));
    assert_eq!(toggle_completed(Some(vec![]), 5), Some(vec![5]));
}

#[test]
fn toggle_twice_gives_back_the_list() {
    let once = toggle_completed(Some(vec![3, 1]), 7);
    assert_eq!(once, Some(vec![3, 1, 7]));
    assert_eq!(toggle_completed(once, 7), Some(vec![3, 1]));
    let from_none = toggle_completed(toggle_completed(None, 7), 7);
    assert_eq!(from_none, Some(vec![]));
}

#[test]
fn toggle_flips_completion_on_values() {
    let list = Some(vec![8, 9]);
    assert!(is_completed(&list, 9));
    let after = toggle_completed(list, 9);
    assert!(!is_completed(&after, 9));
    assert!(is_completed(&toggle_completed(after, 9), 9));
    assert!(!is_completed(&None, 9));
    assert!(is_completed(&toggle_completed(None, 9), 9));
}

#[test]
fn without_episode_drops_every_match_in_order() {
    let list = vec![
        record(EpisodeKind::Episode, 1),
        record(EpisodeKind::Episode, 2),
        record(EpisodeKind::Episode, 1),
        record(EpisodeKind::Episode, 3),
    ];
    let kept = without_episode(list, 1);
    assert_eq!(kept.iter().map(|e| e.id).collect::<Vec<_>>(), vec![2, 3]);
    assert_eq!(kept[0].title, "Title 2");
    let again = without_episode(kept, 1);
    assert_eq!(again.iter().map(|e| e.id).collect::<Vec<_>>(), vec![2, 3]);
    assert!(without_episode(vec![], 4).is_empty());
}

#[test]
fn reply_to_queueing_goes_to_notices() {
    let mut lib = library();
    let mut n = notices();
    apply_reply(EpisodeAction::AddToQueue, 2, Ok("Episode added to Queue!".to_string()), &mut lib, &mut n);
    assert_eq!(n.info_message.as_deref(), Some("Episode added to Queue!"));
    assert_eq!(n.error_message, None);
    assert_eq!(lib.info_message, None);
    assert_eq!(ids(&lib.queued_episodes), Some(vec![1, 2, 1]));
}

#[test]
fn reply_to_saving_and_server_download_goes_to_notices() {
    let mut lib = library();
    let mut n = notices();
    apply_reply(EpisodeAction::Save, 2, Ok("saved".to_string()), &mut lib, &mut n);
    assert_eq!(n.info_message.as_deref(), Some("saved"));
    apply_reply(EpisodeAction::ServerDownload, 2, Ok("downloading".to_string()), &mut lib, &mut n);
    assert_eq!(n.info_message.as_deref(), Some("downloading"));
    assert_eq!(lib.info_message, None);
}

#[test]
fn reply_to_queue_removal_filters_the_queue() {
    let mut lib = library();
    let mut n = notices();
    apply_reply(EpisodeAction::RemoveFromQueue, 1, Ok("removed".to_string()), &mut lib, &mut n);
    assert_eq!(ids(&lib.queued_episodes), Some(vec![2]));
    assert_eq!(ids(&lib.saved_episodes), Some(vec![2, 3]));
    assert_eq!(lib.info_message.as_deref(), Some("removed"));
    assert_eq!(n.info_message, None);
}

#[test]
fn reply_to_saved_and_download_removal() {
    let mut lib = library();
    let mut n = notices();
    apply_reply(EpisodeAction::RemoveSaved, 2, Ok("unsaved".to_string()), &mut lib, &mut n);
    assert_eq!(ids(&lib.saved_episodes), Some(vec![3]));
    assert_eq!(ids(&lib.queued_episodes), Some(vec![1, 2, 1]));
    apply_reply(EpisodeAction::RemoveDownloaded, 2, Ok("gone".to_string()), &mut lib, &mut n);
    assert_eq!(ids(&lib.downloaded_episodes), None);
    assert_eq!(lib.info_message.as_deref(), Some("gone"));
}

#[test]
fn reply_to_completion_requests_toggles() {
    let mut lib = library();
    let mut n = notices();
    apply_reply(EpisodeAction::MarkCompleted, 7, Ok("done".to_string()), &mut lib, &mut n);
    assert_eq!(lib.completed_episodes, Some(vec![4, 2, 7]));
    apply_reply(EpisodeAction::MarkUncompleted, 4, Ok("undone".to_string()), &mut lib, &mut n);
    assert_eq!(lib.completed_episodes, Some(vec![2, 7]));
    assert_eq!(lib.info_message.as_deref(), Some("undone"));
}

#[test]
fn failed_requests_only_set_the_error() {
    let mut lib = library();
    let mut n = notices();
    apply_reply(EpisodeAction::RemoveFromQueue, 1, Err("server said no".to_string()), &mut lib, &mut n);
    assert_eq!(n.error_message.as_deref(), Some("server said no"));
    assert_eq!(ids(&lib.queued_episodes), Some(vec![1, 2, 1]));
    apply_reply(EpisodeAction::MarkCompleted, 4, Err("nope".to_string()), &mut lib, &mut n);
    assert_eq!(lib.completed_episodes, Some(vec![4, 2]));
    assert_eq!(n.error_message.as_deref(), Some("nope"));
    assert_eq!(lib.info_message, None);
}

#[test]
fn reply_to_local_removal() {
    let mut lib = library();
    let mut n = notices();
    apply_reply(EpisodeAction::RemoveLocalDownload, 9, Ok(String::new()), &mut lib, &mut n);
    assert_eq!(n.info_message.as_deref(), Some("Episode episode_9.mp3 downloaded locally!"));
    assert_eq!(n.local_download_increment, Some(1));
    apply_reply(EpisodeAction::RemoveLocalDownload, 9, Ok(String::new()), &mut lib, &mut n);
    assert_eq!(n.local_download_increment, Some(2));
    apply_reply(EpisodeAction::RemoveLocalDownload, 9, Err("\"io\"".to_string()), &mut lib, &mut n);
    assert_eq!(n.error_message.as_deref(), Some("Failed to download episode audio: \"io\""));
    assert_eq!(n.local_download_increment, Some(2));
}

#[test]
fn completion_action_follows_state() {
    assert_eq!(completion_action(true), EpisodeAction::MarkUncompleted);
    assert_eq!(completion_action(false), EpisodeAction::MarkCompleted);
}

#[test]
fn server_call_carries_request_and_credentials() {
    let ep = record(EpisodeKind::Episode, 12);
    let call = server_call(&ep, Some(3), &Some("https://pods.example".to_string()), &Some(Some("k".to_string())));
    assert_eq!(call.request, EpisodeRequest { episode_id: 12, user_id: 3 });
    assert_eq!(call.server_name, "https://pods.example");
    assert_eq!(call.api_key.as_deref(), Some("k"));
    let keyless = server_call(&ep, Some(3), &Some("s".to_string()), &Some(None));
    assert_eq!(keyless.api_key, None);
    let no_key = server_call(&ep, Some(3), &Some("s".to_string()), &None);
    assert_eq!(no_key.api_key, None);
}

#[test]
fn local_download_plan_names_files() {
    let ep = record(EpisodeKind::EpisodeDownload, 77);
    let plan = local_download_plan(&ep, Some(1), &Some("srv".to_string()), &None);
    assert_eq!(plan.audio_file, "episode_77.mp3");
    assert_eq!(plan.artwork_file, "artwork_77.jpg");
    assert_eq!(plan.call.request, EpisodeRequest { episode_id: 77, user_id: 1 });
}

#[test]
fn local_download_runs_every_step_when_all_succeed() {
    let mut n = notices();
    let mut step = LocalDownloadStep::FetchMetadata;
    let mut seen = vec![step];
    while step != LocalDownloadStep::Finished {
        step = local_download_advance(step, None, &mut n);
        seen.push(step);
    }
    assert_eq!(seen.len(), 7);
    assert_eq!(n.info_message.as_deref(), Some("Episode download queued!"));
    assert_eq!(n.error_message, None);
}

#[test]
fn local_download_failures() {
    let mut n = notices();
    let s = local_download_advance(LocalDownloadStep::FetchMetadata, Some("Timeout".to_string()), &mut n);
    assert_eq!(s, LocalDownloadStep::Finished);
    assert_eq!(n.error_message.as_deref(), Some("s Timeout"));
    assert_eq!(n.info_message, None);

    let mut n = notices();
    let s = local_download_advance(LocalDownloadStep::DownloadAudio, Some("E1".to_string()), &mut n);
    assert_eq!(s, LocalDownloadStep::DownloadArtwork);
    assert_eq!(n.error_message.as_deref(), Some("Failed to download episode audio: E1"));
    let s = local_download_advance(s, Some("E2".to_string()), &mut n);
    assert_eq!(s, LocalDownloadStep::UpdateLocalDatabase);
    assert_eq!(n.error_message.as_deref(), Some("Failed to download episode artwork: E2"));
    let s = local_download_advance(s, Some("E3".to_string()), &mut n);
    assert_eq!(s, LocalDownloadStep::FetchPodcastDetails);
    assert_eq!(n.error_message.as_deref(), Some("Failed to update local database: E3"));
    let t = local_download_advance(s, Some("E4".to_string()), &mut n);
    assert_eq!(t, LocalDownloadStep::Finished);
    assert_eq!(n.error_message.as_deref(), Some("Failed to fetch podcast metadata: E4"));
    let u = local_download_advance(LocalDownloadStep::UpdatePodcastDatabase, Some("E5".to_string()), &mut n);
    assert_eq!(u, LocalDownloadStep::Finished);
    assert_eq!(n.error_message.as_deref(), Some("Failed to update podcast database: E5"));
}

#[test]
fn episode_record_getters() {
    let ep = record(EpisodeKind::HistoryEpisode, 31);
    assert_eq!(ep.get_episode_id(), 31);
    assert_eq!(ep.get_episode_title(), "Title 31");
    assert_eq!(ep.get_episode_artwork(), "art31");
    let copy = ep.clone_box();
    assert_eq!(copy.id, 31);
    assert_eq!(copy.kind, EpisodeKind::HistoryEpisode);
}

#[test]
fn search_result_record() {
    let found = SearchNewEpisode { artwork: Some("a".to_string()), title: Some("t".to_string()), episode_id: Some(4) };
    let ep = found.to_record();
    assert_eq!(ep.kind, EpisodeKind::SearchNewEpisode);
    assert_eq!(ep.get_episode_id(), 4);
    assert_eq!(ep.get_episode_title(), "t");
    assert_eq!(ep.get_episode_artwork(), "a");
}

#[test]
fn search_result_fields_read_one_by_one() {
    let partial = SearchNewEpisode { artwork: None, title: Some("Only title".to_string()), episode_id: None };
    assert_eq!(partial.get_episode_title(), "Only title");
    let id_only = SearchNewEpisode { artwork: None, title: None, episode_id: Some(-2) };
    assert_eq!(id_only.get_episode_id(), -2);
    let art_only = SearchNewEpisode { artwork: Some("pic".to_string()), title: None, episode_id: None };
    assert_eq!(art_only.get_episode_artwork(), "pic");
}

#[test]
fn local_download_requests_per_step() {
    let ep = record(EpisodeKind::Episode, 5);
    let plan = local_download_plan(&ep, Some(8), &Some("srv".to_string()), &Some(Some("key".to_string())));
    let metadata = Some(EpisodeMetadata {
        episodeurl: "https://a/5.mp3".to_string(),
        episodeartwork: "https://a/5.jpg".to_string(),
        podcastid: 61,
    });
    assert!(matches!(
        local_download_request(LocalDownloadStep::FetchMetadata, &plan, &None),
        LocalDownloadRequest::EpisodeMetadata
    ));
    match local_download_request(LocalDownloadStep::DownloadAudio, &plan, &metadata) {
        LocalDownloadRequest::DownloadFile { url, file_name } => {
            assert_eq!(url, "https://a/5.mp3");
            assert_eq!(file_name, "episode_5.mp3");
        }
        _ => panic!("expected a download"),
    }
    match local_download_request(LocalDownloadStep::DownloadArtwork, &plan, &metadata) {
        LocalDownloadRequest::DownloadFile { url, file_name } => {
            assert_eq!(url, "https://a/5.jpg");
            assert_eq!(file_name, "artwork_5.jpg");
        }
        _ => panic!("expected a download"),
    }
    assert!(matches!(
        local_download_request(LocalDownloadStep::UpdateLocalDatabase, &plan, &metadata),
        LocalDownloadRequest::UpdateLocalDatabase
    ));
    match local_download_request(LocalDownloadStep::FetchPodcastDetails, &plan, &metadata) {
        LocalDownloadRequest::PodcastDetails { server_name, api_key, user_id, podcast_id } => {
            assert_eq!(server_name, "srv");
            assert_eq!(api_key, "key");
            assert_eq!(user_id, 8);
            assert_eq!(podcast_id, 61);
        }
        _ => panic!("expected the podcast details"),
    }
    assert!(matches!(
        local_download_request(LocalDownloadStep::UpdatePodcastDatabase, &plan, &metadata),
        LocalDownloadRequest::UpdatePodcastDatabase
    ));
}

#[test]
fn context_props_compare_by_left_kind_only() {
    let a = ContextButtonProps { episode: record(EpisodeKind::Episode, 1), page_type: "saved".to_string() };
    let b = ContextButtonProps { episode: record(EpisodeKind::SavedEpisode, 2), page_type: "queue".to_string() };
    let c = ContextButtonProps { episode: record(EpisodeKind::QueuedEpisode, 3), page_type: "x".to_string() };
    assert!(a == b);
    assert!(b != a);
    assert!(c == a);
    assert!(b != b);
}

#[test]
fn error_snackbar_shows_message() {
    let shown = error_message(&ErrorMessageProps { error_message: Some("Bad".to_string()) });
    assert_eq!(shown.as_deref(), Some("Bad"));
    assert_eq!(error_message(&ErrorMessageProps { error_message: None }), None);
}
