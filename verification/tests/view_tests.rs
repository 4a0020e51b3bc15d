use podcast_ui::episode::{ContextButtonProps, EpisodeKind, EpisodeRecord};
use podcast_ui::episode_item::{
    download_episode_item, episode_item, on_shownotes_click, queue_episode_item, DurationDisplay,
};
use podcast_ui::menu::{
    context_button, dropdown_after_document_click, menu_option_action, menu_option_label, menu_options,
    page_type, toggle_dropdown, MenuOption, PageType,
};
use podcast_ui::library::EpisodeAction;
use podcast_ui::search::{
    search_advance, search_index_button_class, search_index_display, search_query, SearchBarState,
    SearchClick, SearchCommand, SearchEvent, SearchQuery, SearchStep, SearchStore,
};

fn labels(options: &[MenuOption], completed: bool) -> Vec<&'static str> {
    options.iter().map(|o| menu_option_label(*o, completed)).collect()
}

#[test]
fn page_types_are_read() {
    assert_eq!(page_type("saved"), PageType::Saved);
    assert_eq!(page_type("queue"), PageType::Queue);
    assert_eq!(page_type("downloads"), PageType::Downloads);
    assert_eq!(page_type("local_downloads"), PageType::LocalDownloads);
    assert_eq!(page_type("home"), PageType::Other);
    assert_eq!(page_type(""), PageType::Other);
}

#[test]
fn menu_of_saved_page() {
    let m = menu_options(PageType::Saved, false);
    assert_eq!(
        labels(&m, false),
        vec!["Queue Episode", "Remove Saved Episode", "Server Download", "Local Download", "Mark Episode Complete"]
    );
    let s = menu_options(PageType::Saved, true);
    assert_eq!(
        labels(&s, true),
        vec!["Queue Episode", "Remove Saved Episode", "Download Episode", "Mark Episode Incomplete"]
    );
}

#[test]
fn menu_of_queue_and_downloads_pages() {
    assert_eq!(
        labels(&menu_options(PageType::Queue, false), false),
        vec!["Save Episode", "Remove from Queue", "Server Download", "Local Download", "Mark Episode Complete"]
    );
    assert_eq!(
        labels(&menu_options(PageType::Downloads, true), false),
        vec!["Queue Episode", "Save Episode", "Remove Downloaded Episode", "Mark Episode Complete"]
    );
}

#[test]
fn menu_of_local_downloads_page() {
    assert!(menu_options(PageType::LocalDownloads, true).is_empty());
    let m = menu_options(PageType::LocalDownloads, false);
    assert_eq!(m, vec![MenuOption::QueueEpisode, MenuOption::SaveEpisode, MenuOption::RemoveLocalDownload, MenuOption::ToggleComplete]);
    assert_eq!(menu_option_action(m[2], false), EpisodeAction::RemoveLocalDownload);
}

#[test]
fn menu_of_other_pages() {
    assert_eq!(
        menu_options(PageType::Other, true),
        vec![MenuOption::QueueEpisode, MenuOption::SaveEpisode, MenuOption::DownloadEpisode, MenuOption::ToggleComplete]
    );
}

#[test]
fn menu_actions() {
    assert_eq!(menu_option_action(MenuOption::ToggleComplete, true), EpisodeAction::MarkUncompleted);
    assert_eq!(menu_option_action(MenuOption::ToggleComplete, false), EpisodeAction::MarkCompleted);
    assert_eq!(menu_option_action(MenuOption::DownloadEpisode, false), EpisodeAction::ServerDownload);
    assert_eq!(menu_option_action(MenuOption::LocalDownload, false), EpisodeAction::LocalDownload);
    assert_eq!(menu_option_action(MenuOption::RemoveFromQueue, false), EpisodeAction::RemoveFromQueue);
}

#[test]
fn context_button_view() {
    let props = ContextButtonProps {
        episode: EpisodeRecord::new(EpisodeKind::Episode, "a".to_string(), "t".to_string(), 5),
        page_type: "queue".to_string(),
    };
    let view = context_button(&props, &Some(vec![1, 5]), false);
    assert!(view.is_completed);
    assert_eq!(view.options[1], MenuOption::RemoveFromQueue);
    let view = context_button(&props, &None, true);
    assert!(!view.is_completed);
    assert_eq!(view.options.len(), 4);
}

#[test]
fn dropdown_clicks() {
    assert!(toggle_dropdown(false));
    assert!(!toggle_dropdown(toggle_dropdown(false)));
    assert!(!dropdown_after_document_click(true, Some(false)));
    assert!(dropdown_after_document_click(true, Some(true)));
    assert!(dropdown_after_document_click(true, None));
    assert!(!dropdown_after_document_click(false, None));
}

#[test]
fn search_index_labels_and_classes() {
    assert_eq!(search_index_display("podcast_index"), "Podcast Index");
    assert_eq!(search_index_display("itunes"), "iTunes");
    assert_eq!(search_index_display("youtube"), "Unknown");
    assert_eq!(
        search_index_button_class("itunes", "itunes", false),
        "px-4 py-2 text-sm font-medium rounded-r-lg search-drop-button active"
    );
    assert_eq!(
        search_index_button_class("itunes", "podcast_index", true),
        "px-4 py-2 text-sm font-medium rounded-l-lg search-drop-button "
    );
}

#[test]
fn search_bar_state_changes() {
    let mut bar = SearchBarState::new();
    assert_eq!(bar.search_index, "podcast_index");
    assert_eq!(bar.index_display(), "Podcast Index");
    bar.toggle_dropdown();
    assert!(bar.dropdown_open);
    bar.select_index("itunes");
    assert!(!bar.dropdown_open);
    assert_eq!(bar.index_display(), "iTunes");
    bar.set_input("rust".to_string());
    assert_eq!(bar.podcast_value, "rust");
    assert_eq!(bar.click_search(true), SearchClick::ToggleMobileDropdown(true));
    assert_eq!(bar.click_search(true), SearchClick::ToggleMobileDropdown(false));
    assert_eq!(bar.click_search(false), SearchClick::Submit);
    assert!(!bar.mobile_dropdown_open);
}

fn query() -> SearchQuery {
    let mut bar = SearchBarState::new();
    bar.set_input("rust".to_string());
    bar.select_index("itunes");
    search_query(&bar, &Some("https://api.example".to_string()))
}

#[test]
fn search_query_takes_text_index_and_server() {
    let q = query();
    assert_eq!(q.term, "rust");
    assert_eq!(q.index, "itunes");
    assert_eq!(q.api_url, "https://api.example");
    let fresh = search_query(&SearchBarState::new(), &Some("u".to_string()));
    assert_eq!(fresh.term, "");
    assert_eq!(fresh.index, "podcast_index");
}

#[test]
fn search_index_stays_known_through_events() {
    let mut bar = SearchBarState::new();
    for _ in 0..3 {
        bar.toggle_dropdown();
        bar.select_index("podcast_index");
        bar.set_input("x".to_string());
        let _ = bar.click_search(true);
        assert_ne!(bar.index_display(), "Unknown");
        bar.select_index("itunes");
        assert_eq!(bar.index_display(), "iTunes");
    }
}

#[test]
fn search_that_succeeds() {
    let mut store: SearchStore<Vec<u32>> = SearchStore { is_loading: None, search_results: None, podcast_added: Some(true) };
    let (step, cmd) = search_advance(&query(), SearchStep::Start, SearchEvent::Submitted, &mut store);
    assert_eq!(step, SearchStep::TestingConnection);
    match cmd {
        SearchCommand::TestConnection(url) => assert_eq!(url, "https://api.example"),
        _ => panic!("expected the connection test"),
    }
    assert_eq!(store.is_loading, Some(true));
    let (step, cmd) = search_advance(&query(), step, SearchEvent::ConnectionTested(Ok(())), &mut store);
    assert_eq!(step, SearchStep::Searching);
    match cmd {
        SearchCommand::RunSearch(q) => {
            assert_eq!(q.term, "rust");
            assert_eq!(q.index, "itunes");
            assert_eq!(q.api_url, "https://api.example");
        }
        _ => panic!("expected the search"),
    }
    let (step, cmd) = search_advance(&query(), step, SearchEvent::SearchFinished(Some(vec![1, 2])), &mut store);
    assert_eq!(step, SearchStep::Done);
    match cmd {
        SearchCommand::Navigate(route) => assert_eq!(route, "/pod_layout"),
        _ => panic!("expected navigation"),
    }
    assert_eq!(store.search_results, Some(vec![1, 2]));
    assert_eq!(store.podcast_added, Some(false));
    assert_eq!(store.is_loading, Some(false));
}

#[test]
fn search_with_failed_connection_or_search() {
    let mut store: SearchStore<Vec<u32>> = SearchStore { is_loading: Some(true), search_results: None, podcast_added: None };
    let (step, cmd) = search_advance(&query(), SearchStep::TestingConnection, SearchEvent::ConnectionTested(Err("refused".to_string())), &mut store);
    assert_eq!(step, SearchStep::Done);
    match cmd {
        SearchCommand::Log(line) => assert_eq!(line, "Error testing connection: refused"),
        _ => panic!("expected a log line"),
    }
    assert_eq!(store.is_loading, Some(false));
    store.is_loading = Some(true);
    let (step, cmd) = search_advance(&query(), SearchStep::Searching, SearchEvent::SearchFinished(None), &mut store);
    assert_eq!(step, SearchStep::Done);
    assert!(matches!(cmd, SearchCommand::Nothing));
    assert_eq!(store.is_loading, Some(false));
    assert_eq!(store.search_results, None);
    let (step, cmd) = search_advance(&query(), SearchStep::Done, SearchEvent::Submitted, &mut store);
    assert_eq!(step, SearchStep::Done);
    assert!(matches!(cmd, SearchCommand::Nothing));
}

fn ep() -> EpisodeRecord {
    EpisodeRecord::new(EpisodeKind::Episode, "https://img/1.png".to_string(), "Pilot".to_string(), 314)
}

#[test]
fn episode_row_layout() {
    let v = episode_item(&ep(), true, Some(30), "saved", true, "https://a/1.mp3", false);
    assert_eq!(v.episode_id, 314);
    assert!(v.show_checkbox);
    assert_eq!(v.cover_alt, "Cover for Pilot");
    assert_eq!(v.artwork, "https://img/1.png");
    assert_eq!(v.description_class, "item_container-text episode-description-container desc-expanded");
    assert_eq!(v.expand_label, "See Less");
    assert_eq!(v.duration_display, DurationDisplay::Progress);
    assert!(v.show_buttons);
    assert!(!v.context_on_large_only);
    assert_eq!(v.page_type, "saved");
    assert_eq!(v.data_id, None);
    assert!(!v.show_completed_icon);
}

#[test]
fn episode_row_variants() {
    let d = download_episode_item(&ep(), false, None, "downloads", false, "", true);
    assert_eq!(d.description_class, "item_container-text episode-description-container desc-collapsed");
    assert_eq!(d.expand_label, "See More");
    assert_eq!(d.duration_display, DurationDisplay::Completed);
    assert!(!d.show_buttons);
    assert!(d.context_on_large_only);
    assert!(d.show_completed_icon);
    let q = queue_episode_item(&ep(), false, None, "queue", false, "u", false);
    assert_eq!(q.data_id.as_deref(), Some("314"));
    assert_eq!(q.duration_display, DurationDisplay::Plain);
}

#[test]
fn shownotes_click_selects_and_routes() {
    let (sel, route) = on_shownotes_click(Some(3), Some("u".to_string()), None, Some("Show".to_string()));
    assert_eq!(route, "/episode");
    assert_eq!(sel.selected_episode_id, Some(3));
    assert_eq!(sel.selected_episode_url.as_deref(), Some("u"));
    assert_eq!(sel.selected_episode_audio_url, None);
    assert_eq!(sel.selected_podcast_title.as_deref(), Some("Show"));
}
