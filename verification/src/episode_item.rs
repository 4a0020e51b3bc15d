//! How an episode row is laid out in the episode lists, the download list and
//! the queue, and what a click on an episode's show notes selects.

use vstd::prelude::*;
use vstd::string::*;
use crate::episode::EpisodeRecord;
use crate::library::message_view;
use crate::text::{concat, decimal, decimal_is_canonical, i32_to_decimal, is_canonical_decimal, parse_decimal};

verus! {

/// What the row shows under the description.
#[derive(Clone, Copy, Debug, PartialEq, Eq, Structural)]
pub enum DurationDisplay {
    /// The episode's duration, marked completed.
    Completed,
    /// The time listened, a progress bar and the duration.
    Progress,
    /// The duration alone.
    Plain,
}

/// The three lists an episode row appears in.
#[derive(Clone, Copy, Debug, PartialEq, Eq, Structural)]
pub enum ItemStyle {
    Standard,
    Download,
    Queue,
}

/// The layout of one episode row.
pub struct EpisodeItemView {
    /// The identifier that the delete-mode checkbox reports.
    pub episode_id: i32,
    pub show_checkbox: bool,
    pub artwork: String,
    pub cover_alt: String,
    pub title: String,
    pub show_completed_icon: bool,
    pub description_class: String,
    pub expand_label: String,
    pub duration_display: DurationDisplay,
    /// Whether the play button and the context button show.
    pub show_buttons: bool,
    /// Whether the context button shows on large screens only.
    pub context_on_large_only: bool,
    /// The page type handed to the context button.
    pub page_type: String,
    /// The row's `data-id` attribute and drag handle, in the queue only.
    pub data_id: Option<String>,
}

/// The class of the description box.
pub open spec fn description_class_of(is_expanded: bool) -> Seq<char> {
    "item_container-text episode-description-container "@ + (if is_expanded {
        "desc-expanded"@
    } else {
        "desc-collapsed"@
    })
}

/// The text of the link that expands or collapses the description.
pub open spec fn expand_label_of(is_expanded: bool) -> Seq<char> {
    if is_expanded {
        "See Less"@
    } else {
        "See More"@
    }
}

/// What the row shows under the description: completion wins over progress.
pub open spec fn duration_display_of(completed: bool, listen_duration: Option<i32>) -> DurationDisplay {
    if completed {
        DurationDisplay::Completed
    } else if listen_duration is Some {
        DurationDisplay::Progress
    } else {
        DurationDisplay::Plain
    }
}

/// The layout of a row of `style` for `episode`.
pub open spec fn item_layout_holds(
    r: &EpisodeItemView,
    style: ItemStyle,
    episode: &EpisodeRecord,
    is_expanded: bool,
    listen_duration: Option<i32>,
    page_type: Seq<char>,
    is_delete_mode: bool,
    ep_url: Seq<char>,
    completed: bool,
) -> bool {
    &&& r.episode_id == episode.id
    &&& r.show_checkbox == is_delete_mode
    &&& r.artwork@ == episode.artwork@
    &&& r.cover_alt@ == "Cover for "@ + episode.title@
    &&& r.title@ == episode.title@
    &&& r.show_completed_icon == completed
    &&& r.description_class@ == description_class_of(is_expanded)
    &&& r.expand_label@ == expand_label_of(is_expanded)
    &&& r.duration_display == duration_display_of(completed, listen_duration)
    &&& r.show_buttons == (ep_url.len() != 0)
    &&& r.context_on_large_only == (style == ItemStyle::Download)
    &&& r.page_type@ == page_type
    &&& message_view(&r.data_id) == (if style == ItemStyle::Queue {
        Some(decimal(episode.id as int))
    } else {
        None
    })
}

/// Law: a completed episode's row shows the completed duration whatever has
/// been listened; an unfinished one shows its progress when a listening time
/// is recorded and its bare duration otherwise. An expanded description is
/// marked expanded and offers "See Less"; a collapsed one is marked collapsed
/// and offers "See More".
pub proof fn row_shows_completion_and_expansion(completed: bool, listen_duration: Option<i32>, is_expanded: bool)
    ensures
        completed ==> duration_display_of(completed, listen_duration) == DurationDisplay::Completed,
        !completed && listen_duration is Some ==> duration_display_of(completed, listen_duration)
            == DurationDisplay::Progress,
        !completed && listen_duration is None ==> duration_display_of(completed, listen_duration)
            == DurationDisplay::Plain,
        ({
            let c = description_class_of(is_expanded);
            let tail = if is_expanded { "desc-expanded"@ } else { "desc-collapsed"@ };
            &&& c.len() >= tail.len()
            &&& c.subrange(c.len() - tail.len(), c.len() as int) == tail
        }),
        is_expanded ==> expand_label_of(is_expanded) == "See Less"@,
        !is_expanded ==> expand_label_of(is_expanded) == "See More"@,
{
    let c = description_class_of(is_expanded);
    let tail = if is_expanded { "desc-expanded"@ } else { "desc-collapsed"@ };
    let head = "item_container-text episode-description-container "@;
    assert(c == head + tail);
    assert(c.subrange(c.len() - tail.len(), c.len() as int) =~= tail);
}

/// Law: what a row shows of its inputs: the episode's identifier, artwork
/// and title, the cover's text "Cover for " and the title, the checkbox in
/// delete mode, the completion mark and display for a completed episode, the
/// buttons when there is an audio address, the context button on large
/// screens only in the download list, and in the queue alone the identifier
/// in standard decimal notation, which reads back as the identifier.
pub proof fn row_shows_its_episode(
    r: &EpisodeItemView,
    style: ItemStyle,
    episode: &EpisodeRecord,
    is_expanded: bool,
    listen_duration: Option<i32>,
    page_type: Seq<char>,
    is_delete_mode: bool,
    ep_url: Seq<char>,
    completed: bool,
)
    requires
        item_layout_holds(
            r,
            style,
            episode,
            is_expanded,
            listen_duration,
            page_type,
            is_delete_mode,
            ep_url,
            completed,
        ),
    ensures
        r.episode_id == episode.id,
        r.artwork@ == episode.artwork@,
        r.title@ == episode.title@,
        r.cover_alt@ == "Cover for "@ + episode.title@,
        r.show_checkbox == is_delete_mode,
        r.show_completed_icon == completed,
        completed ==> r.duration_display == DurationDisplay::Completed,
        !completed && listen_duration is Some ==> r.duration_display == DurationDisplay::Progress,
        !completed && listen_duration is None ==> r.duration_display == DurationDisplay::Plain,
        r.show_buttons == (ep_url.len() > 0),
        r.context_on_large_only == (style == ItemStyle::Download),
        r.page_type@ == page_type,
        style == ItemStyle::Queue ==> (r.data_id matches Some(d) && is_canonical_decimal(d@)
            && parse_decimal(d@) == episode.id),
        style != ItemStyle::Queue ==> r.data_id is None,
{
    decimal_is_canonical(episode.id as int);
}

fn item_layout(
    style: ItemStyle,
    episode: &EpisodeRecord,
    is_expanded: bool,
    listen_duration: Option<i32>,
    page_type: &str,
    is_delete_mode: bool,
    ep_url: &str,
    completed: bool,
) -> (r: EpisodeItemView)
    ensures
        item_layout_holds(
            &r,
            style,
            episode,
            is_expanded,
            listen_duration,
            page_type@,
            is_delete_mode,
            ep_url@,
            completed,
        ),
{
    let class_state = if is_expanded {
        "desc-expanded"
    } else {
        "desc-collapsed"
    };
    let expand_label = if is_expanded {
        "See Less"
    } else {
        "See More"
    };
    let duration_display = if completed {
        DurationDisplay::Completed
    } else if listen_duration.is_some() {
        DurationDisplay::Progress
    } else {
        DurationDisplay::Plain
    };
    let data_id = match style {
        ItemStyle::Queue => Some(i32_to_decimal(episode.id)),
        _ => None,
    };
    EpisodeItemView {
        episode_id: episode.id,
        show_checkbox: is_delete_mode,
        artwork: episode.artwork.clone(),
        cover_alt: concat("Cover for ", episode.title.as_str()),
        title: episode.title.clone(),
        show_completed_icon: completed,
        description_class: concat("item_container-text episode-description-container ", class_state),
        expand_label: String::from_str(expand_label),
        duration_display,
        show_buttons: !ep_url.is_empty(),
        context_on_large_only: match style {
            ItemStyle::Download => true,
            _ => false,
        },
        page_type: page_type.to_owned(),
        data_id,
    }
}

/// The row of an episode in an episode list.
pub fn episode_item(
    episode: &EpisodeRecord,
    is_expanded: bool,
    listen_duration: Option<i32>,
    page_type: &str,
    is_delete_mode: bool,
    ep_url: &str,
    completed: bool,
) -> (r: EpisodeItemView)
    ensures
        item_layout_holds(
            &r,
            ItemStyle::Standard,
            episode,
            is_expanded,
            listen_duration,
            page_type@,
            is_delete_mode,
            ep_url@,
            completed,
        ),
{
    item_layout(
        ItemStyle::Standard,
        episode,
        is_expanded,
        listen_duration,
        page_type,
        is_delete_mode,
        ep_url,
        completed,
    )
}

/// The row of an episode in the download list: as in an episode list, with
/// the context button on large screens only.
pub fn download_episode_item(
    episode: &EpisodeRecord,
    is_expanded: bool,
    listen_duration: Option<i32>,
    page_type: &str,
    is_delete_mode: bool,
    ep_url: &str,
    completed: bool,
) -> (r: EpisodeItemView)
    ensures
        item_layout_holds(
            &r,
            ItemStyle::Download,
            episode,
            is_expanded,
            listen_duration,
            page_type@,
            is_delete_mode,
            ep_url@,
            completed,
        ),
{
    item_layout(
        ItemStyle::Download,
        episode,
        is_expanded,
        listen_duration,
        page_type,
        is_delete_mode,
        ep_url,
        completed,
    )
}

/// The row of an episode in the queue: as in an episode list, draggable and
/// carrying the episode's identifier in decimal.
pub fn queue_episode_item(
    episode: &EpisodeRecord,
    is_expanded: bool,
    listen_duration: Option<i32>,
    page_type: &str,
    is_delete_mode: bool,
    ep_url: &str,
    completed: bool,
) -> (r: EpisodeItemView)
    ensures
        item_layout_holds(
            &r,
            ItemStyle::Queue,
            episode,
            is_expanded,
            listen_duration,
            page_type@,
            is_delete_mode,
            ep_url@,
            completed,
        ),
{
    item_layout(
        ItemStyle::Queue,
        episode,
        is_expanded,
        listen_duration,
        page_type,
        is_delete_mode,
        ep_url,
        completed,
    )
}

/// The episode that the show-notes page is to show.
pub struct EpisodeSelection {
    pub selected_episode_id: Option<i32>,
    pub selected_episode_url: Option<String>,
    pub selected_episode_audio_url: Option<String>,
    pub selected_podcast_title: Option<String>,
}

/// The route of the show-notes page.
pub open spec fn shownotes_route() -> Seq<char> {
    "/episode"@
}

/// A click on an episode's show notes: the selection it stores, taken as
/// given, and the route it opens.
pub fn on_shownotes_click(
    episode_id: Option<i32>,
    shownotes_episode_url: Option<String>,
    episode_audio_url: Option<String>,
    podcast_title: Option<String>,
) -> (r: (EpisodeSelection, String))
    ensures
        r.0.selected_episode_id == episode_id,
        r.0.selected_episode_url == shownotes_episode_url,
        r.0.selected_episode_audio_url == episode_audio_url,
        r.0.selected_podcast_title == podcast_title,
        r.1@ == shownotes_route(),
        r.1@ == "/episode"@,
{
    (
        EpisodeSelection {
            selected_episode_id: episode_id,
            selected_episode_url: shownotes_episode_url,
            selected_episode_audio_url: episode_audio_url,
            selected_podcast_title: podcast_title,
        },
        String::from_str("/episode"),
    )
}

} // verus!
