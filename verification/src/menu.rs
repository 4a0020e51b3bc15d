//! The context button's dropdown: whether it is open, and which entries it
//! offers on which page.

use vstd::prelude::*;
use crate::completion::{
    completed_contains, ids_view, is_completed, occurs_at_most_once, toggled, toggle_flips_completion,
};
use crate::episode::ContextButtonProps;
use crate::library::EpisodeAction;
use crate::text::str_equal;

verus! {

/// The pages that the context button tells apart.
#[derive(Clone, Copy, Debug, PartialEq, Eq, Structural)]
pub enum PageType {
    Saved,
    Queue,
    Downloads,
    LocalDownloads,
    Other,
}

/// The page that a page-type name stands for.
pub open spec fn page_type_of(name: Seq<char>) -> PageType {
    if name == "saved"@ {
        PageType::Saved
    } else if name == "queue"@ {
        PageType::Queue
    } else if name == "downloads"@ {
        PageType::Downloads
    } else if name == "local_downloads"@ {
        PageType::LocalDownloads
    } else {
        PageType::Other
    }
}

/// Law: the page names: "saved", "queue", "downloads" and "local_downloads"
/// name their pages, and any other name the other pages.
pub proof fn page_names(name: Seq<char>)
    ensures
        page_type_of("saved"@) == PageType::Saved,
        page_type_of("queue"@) == PageType::Queue,
        page_type_of("downloads"@) == PageType::Downloads,
        page_type_of("local_downloads"@) == PageType::LocalDownloads,
        name != "saved"@ && name != "queue"@ && name != "downloads"@ && name != "local_downloads"@
            ==> page_type_of(name) == PageType::Other,
{
    reveal_strlit("saved");
    reveal_strlit("queue");
    reveal_strlit("downloads");
    reveal_strlit("local_downloads");
    assert("saved"@.len() != "downloads"@.len());
    assert("saved"@.len() != "local_downloads"@.len());
    assert("queue"@.len() != "downloads"@.len());
    assert("queue"@.len() != "local_downloads"@.len());
    assert("downloads"@.len() != "local_downloads"@.len());
    assert("saved"@[0] != "queue"@[0]);
}

/// Reads a page-type name.
pub fn page_type(name: &str) -> (r: PageType)
    ensures
        r == page_type_of(name@),
{
    if str_equal(name, "saved") {
        PageType::Saved
    } else if str_equal(name, "queue") {
        PageType::Queue
    } else if str_equal(name, "downloads") {
        PageType::Downloads
    } else if str_equal(name, "local_downloads") {
        PageType::LocalDownloads
    } else {
        PageType::Other
    }
}

/// The entries of the context button's dropdown.
#[derive(Clone, Copy, Debug, PartialEq, Eq, Structural)]
pub enum MenuOption {
    QueueEpisode,
    SaveEpisode,
    RemoveSavedEpisode,
    RemoveFromQueue,
    RemoveDownloadedEpisode,
    DownloadEpisode,
    ServerDownload,
    LocalDownload,
    RemoveLocalDownload,
    ToggleComplete,
}

/// The download entries: one server download in a server build, a server and
/// a local download otherwise.
pub open spec fn download_options(server_build: bool) -> Seq<MenuOption> {
    if server_build {
        seq![MenuOption::DownloadEpisode]
    } else {
        seq![MenuOption::ServerDownload, MenuOption::LocalDownload]
    }
}

/// The entries offered on each page, in order.
pub open spec fn menu_for(page: PageType, server_build: bool) -> Seq<MenuOption> {
    match page {
        PageType::Saved => seq![MenuOption::QueueEpisode, MenuOption::RemoveSavedEpisode]
            + download_options(server_build) + seq![MenuOption::ToggleComplete],
        PageType::Queue => seq![MenuOption::SaveEpisode, MenuOption::RemoveFromQueue]
            + download_options(server_build) + seq![MenuOption::ToggleComplete],
        PageType::Downloads => seq![
            MenuOption::QueueEpisode,
            MenuOption::SaveEpisode,
            MenuOption::RemoveDownloadedEpisode,
            MenuOption::ToggleComplete,
        ],
        PageType::LocalDownloads => if server_build {
            Seq::empty()
        } else {
            seq![
                MenuOption::QueueEpisode,
                MenuOption::SaveEpisode,
                MenuOption::RemoveLocalDownload,
                MenuOption::ToggleComplete,
            ]
        },
        PageType::Other => seq![MenuOption::QueueEpisode, MenuOption::SaveEpisode]
            + download_options(server_build) + seq![MenuOption::ToggleComplete],
    }
}

fn push_download_options(v: &mut Vec<MenuOption>, server_build: bool)
    ensures
        final(v)@ == old(v)@ + download_options(server_build),
{
    if server_build {
        v.push(MenuOption::DownloadEpisode);
    } else {
        v.push(MenuOption::ServerDownload);
        v.push(MenuOption::LocalDownload);
    }
    assert(v@ =~= old(v)@ + download_options(server_build));
}

/// The entries that the context button offers on a page, `server_build`
/// telling whether the client is the server-hosted build (without local
/// downloads).
pub fn menu_options(page: PageType, server_build: bool) -> (r: Vec<MenuOption>)
    ensures
        r@ == menu_for(page, server_build),
{
    let mut v: Vec<MenuOption> = Vec::new();
    match page {
        PageType::Saved => {
            v.push(MenuOption::QueueEpisode);
            v.push(MenuOption::RemoveSavedEpisode);
            push_download_options(&mut v, server_build);
            v.push(MenuOption::ToggleComplete);
        },
        PageType::Queue => {
            v.push(MenuOption::SaveEpisode);
            v.push(MenuOption::RemoveFromQueue);
            push_download_options(&mut v, server_build);
            v.push(MenuOption::ToggleComplete);
        },
        PageType::Downloads => {
            v.push(MenuOption::QueueEpisode);
            v.push(MenuOption::SaveEpisode);
            v.push(MenuOption::RemoveDownloadedEpisode);
            v.push(MenuOption::ToggleComplete);
        },
        PageType::LocalDownloads => {
            if !server_build {
                v.push(MenuOption::QueueEpisode);
                v.push(MenuOption::SaveEpisode);
                v.push(MenuOption::RemoveLocalDownload);
                v.push(MenuOption::ToggleComplete);
            }
        },
        PageType::Other => {
            v.push(MenuOption::QueueEpisode);
            v.push(MenuOption::SaveEpisode);
            push_download_options(&mut v, server_build);
            v.push(MenuOption::ToggleComplete);
        },
    }
    assert(v@ =~= menu_for(page, server_build));
    v
}

/// The text of an entry; the completion entry reads after the episode's state.
pub open spec fn option_label(option: MenuOption, is_completed: bool) -> Seq<char> {
    match option {
        MenuOption::QueueEpisode => "Queue Episode"@,
        MenuOption::SaveEpisode => "Save Episode"@,
        MenuOption::RemoveSavedEpisode => "Remove Saved Episode"@,
        MenuOption::RemoveFromQueue => "Remove from Queue"@,
        MenuOption::RemoveDownloadedEpisode => "Remove Downloaded Episode"@,
        MenuOption::DownloadEpisode => "Download Episode"@,
        MenuOption::ServerDownload => "Server Download"@,
        MenuOption::LocalDownload => "Local Download"@,
        MenuOption::RemoveLocalDownload => "Remove Downloaded Episode"@,
        MenuOption::ToggleComplete => if is_completed {
            "Mark Episode Incomplete"@
        } else {
            "Mark Episode Complete"@
        },
    }
}

/// The text shown for an entry.
pub fn menu_option_label(option: MenuOption, is_completed: bool) -> (r: &'static str)
    ensures
        r@ == option_label(option, is_completed),
{
    match option {
        MenuOption::QueueEpisode => "Queue Episode",
        MenuOption::SaveEpisode => "Save Episode",
        MenuOption::RemoveSavedEpisode => "Remove Saved Episode",
        MenuOption::RemoveFromQueue => "Remove from Queue",
        MenuOption::RemoveDownloadedEpisode => "Remove Downloaded Episode",
        MenuOption::DownloadEpisode => "Download Episode",
        MenuOption::ServerDownload => "Server Download",
        MenuOption::LocalDownload => "Local Download",
        MenuOption::RemoveLocalDownload => "Remove Downloaded Episode",
        MenuOption::ToggleComplete => if is_completed {
            "Mark Episode Incomplete"
        } else {
            "Mark Episode Complete"
        },
    }
}

/// The action that an entry starts.
pub open spec fn option_action(option: MenuOption, is_completed: bool) -> EpisodeAction {
    match option {
        MenuOption::QueueEpisode => EpisodeAction::AddToQueue,
        MenuOption::SaveEpisode => EpisodeAction::Save,
        MenuOption::RemoveSavedEpisode => EpisodeAction::RemoveSaved,
        MenuOption::RemoveFromQueue => EpisodeAction::RemoveFromQueue,
        MenuOption::RemoveDownloadedEpisode => EpisodeAction::RemoveDownloaded,
        MenuOption::DownloadEpisode => EpisodeAction::ServerDownload,
        MenuOption::ServerDownload => EpisodeAction::ServerDownload,
        MenuOption::LocalDownload => EpisodeAction::LocalDownload,
        MenuOption::RemoveLocalDownload => EpisodeAction::RemoveLocalDownload,
        MenuOption::ToggleComplete => if is_completed {
            EpisodeAction::MarkUncompleted
        } else {
            EpisodeAction::MarkCompleted
        },
    }
}

/// The action that a click on an entry starts.
pub fn menu_option_action(option: MenuOption, is_completed: bool) -> (r: EpisodeAction)
    ensures
        r == option_action(option, is_completed),
{
    match option {
        MenuOption::QueueEpisode => EpisodeAction::AddToQueue,
        MenuOption::SaveEpisode => EpisodeAction::Save,
        MenuOption::RemoveSavedEpisode => EpisodeAction::RemoveSaved,
        MenuOption::RemoveFromQueue => EpisodeAction::RemoveFromQueue,
        MenuOption::RemoveDownloadedEpisode => EpisodeAction::RemoveDownloaded,
        MenuOption::DownloadEpisode => EpisodeAction::ServerDownload,
        MenuOption::ServerDownload => EpisodeAction::ServerDownload,
        MenuOption::LocalDownload => EpisodeAction::LocalDownload,
        MenuOption::RemoveLocalDownload => EpisodeAction::RemoveLocalDownload,
        MenuOption::ToggleComplete => if is_completed {
            EpisodeAction::MarkUncompleted
        } else {
            EpisodeAction::MarkCompleted
        },
    }
}

/// Law: every page offers the completion entry, as its last entry, except
/// the local downloads page of a server build, which offers nothing.
pub proof fn completion_entry_on_every_page(page: PageType, server_build: bool)
    ensures
        page == PageType::LocalDownloads && server_build ==> menu_for(page, server_build).len() == 0,
        !(page == PageType::LocalDownloads && server_build) ==> {
            let m = menu_for(page, server_build);
            &&& m.len() > 0
            &&& m.last() == MenuOption::ToggleComplete
            &&& forall|k: int| 0 <= k < m.len() - 1 ==> m[k] != MenuOption::ToggleComplete
        },
{
}

/// Law: once the request that the completion entry starts has succeeded
/// (whichever way it goes, the completed list is toggled), the entry reads the
/// other way, as long as the list holds the episode at most once.
pub proof fn completion_entry_label_flips(c: Option<Seq<i32>>, id: i32)
    requires
        c matches Some(v) ==> occurs_at_most_once(v, id),
    ensures
        option_label(MenuOption::ToggleComplete, completed_contains(toggled(c, id), id))
            != option_label(MenuOption::ToggleComplete, completed_contains(c, id)),
        option_action(MenuOption::ToggleComplete, completed_contains(c, id)) == (if completed_contains(
            c,
            id,
        ) {
            EpisodeAction::MarkUncompleted
        } else {
            EpisodeAction::MarkCompleted
        }),
{
    toggle_flips_completion(c, id);
    reveal_strlit("Mark Episode Incomplete");
    reveal_strlit("Mark Episode Complete");
    assert("Mark Episode Incomplete"@.len() != "Mark Episode Complete"@.len());
}

/// Law: each entry starts the action its label names: queueing queues,
/// saving saves, each removal removes from its own list, both server download
/// entries download on the server, the local entries act on the device, and
/// the completion entry marks incomplete what is completed and complete what
/// is not. Distinct entries start distinct actions, but for the two server
/// download entries, which never stand on one menu together.
pub proof fn menu_entries_start_named_actions(c: bool)
    ensures
        option_action(MenuOption::QueueEpisode, c) == EpisodeAction::AddToQueue,
        option_action(MenuOption::SaveEpisode, c) == EpisodeAction::Save,
        option_action(MenuOption::RemoveSavedEpisode, c) == EpisodeAction::RemoveSaved,
        option_action(MenuOption::RemoveFromQueue, c) == EpisodeAction::RemoveFromQueue,
        option_action(MenuOption::RemoveDownloadedEpisode, c) == EpisodeAction::RemoveDownloaded,
        option_action(MenuOption::DownloadEpisode, c) == EpisodeAction::ServerDownload,
        option_action(MenuOption::ServerDownload, c) == EpisodeAction::ServerDownload,
        option_action(MenuOption::LocalDownload, c) == EpisodeAction::LocalDownload,
        option_action(MenuOption::RemoveLocalDownload, c) == EpisodeAction::RemoveLocalDownload,
        c ==> option_action(MenuOption::ToggleComplete, c) == EpisodeAction::MarkUncompleted,
        !c ==> option_action(MenuOption::ToggleComplete, c) == EpisodeAction::MarkCompleted,
        forall|a: MenuOption, b: MenuOption|
            a != b && #[trigger] option_action(a, c) == #[trigger] option_action(b, c) ==> (a
                == MenuOption::DownloadEpisode && b == MenuOption::ServerDownload) || (a
                == MenuOption::ServerDownload && b == MenuOption::DownloadEpisode),
        forall|p: PageType, sb: bool|
            !(#[trigger] menu_for(p, sb).contains(MenuOption::DownloadEpisode) && menu_for(
                p,
                sb,
            ).contains(MenuOption::ServerDownload)),
{
    assert forall|p: PageType, sb: bool|
        !(#[trigger] menu_for(p, sb).contains(MenuOption::DownloadEpisode) && menu_for(
            p,
            sb,
        ).contains(MenuOption::ServerDownload)) by {
        pages_offer_their_entries(p, sb);
    }
}

/// Law: what each page offers. Every page but the downloads pages offers the
/// download entries of its build: a server download and a local download in
/// the device build, one server download in the server build. Each page has
/// at most one removal entry, and it removes from the page's own list: saved
/// episodes on the saved page, the queue on the queue page, server downloads
/// on the downloads page, device downloads on the local downloads page; other
/// pages offer no removal. Queueing is not offered on the queue page, nor
/// saving on the saved page; both are offered everywhere else (the local
/// downloads page of the server build aside, which is empty).
pub proof fn pages_offer_their_entries(page: PageType, sb: bool)
    ensures
        ({
            let m = menu_for(page, sb);
            &&& page != PageType::Downloads && page != PageType::LocalDownloads ==> {
                &&& !sb ==> m.contains(MenuOption::ServerDownload) && m.contains(MenuOption::LocalDownload)
                    && !m.contains(MenuOption::DownloadEpisode)
                &&& sb ==> m.contains(MenuOption::DownloadEpisode) && !m.contains(MenuOption::LocalDownload)
                    && !m.contains(MenuOption::ServerDownload)
            }
            &&& page == PageType::Downloads || page == PageType::LocalDownloads ==> {
                &&& !m.contains(MenuOption::DownloadEpisode)
                &&& !m.contains(MenuOption::ServerDownload)
                &&& !m.contains(MenuOption::LocalDownload)
            }
            &&& m.contains(MenuOption::RemoveSavedEpisode) == (page == PageType::Saved)
            &&& m.contains(MenuOption::RemoveFromQueue) == (page == PageType::Queue)
            &&& m.contains(MenuOption::RemoveDownloadedEpisode) == (page == PageType::Downloads)
            &&& m.contains(MenuOption::RemoveLocalDownload) == (page == PageType::LocalDownloads && !sb)
            &&& m.contains(MenuOption::QueueEpisode) == (page != PageType::Queue && !(page
                == PageType::LocalDownloads && sb))
            &&& m.contains(MenuOption::SaveEpisode) == (page != PageType::Saved && !(page
                == PageType::LocalDownloads && sb))
        }),
{
    let m = menu_for(page, sb);
    match page {
        PageType::Saved => {
            if sb {
                assert(m =~= seq![MenuOption::QueueEpisode, MenuOption::RemoveSavedEpisode, MenuOption::DownloadEpisode, MenuOption::ToggleComplete]);
                assert(m[0] == MenuOption::QueueEpisode);
                assert(m[1] == MenuOption::RemoveSavedEpisode);
                assert(m[2] == MenuOption::DownloadEpisode);
            } else {
                assert(m =~= seq![MenuOption::QueueEpisode, MenuOption::RemoveSavedEpisode, MenuOption::ServerDownload, MenuOption::LocalDownload, MenuOption::ToggleComplete]);
                assert(m[0] == MenuOption::QueueEpisode);
                assert(m[1] == MenuOption::RemoveSavedEpisode);
                assert(m[2] == MenuOption::ServerDownload);
                assert(m[3] == MenuOption::LocalDownload);
            }
        },
        PageType::Queue => {
            if sb {
                assert(m =~= seq![MenuOption::SaveEpisode, MenuOption::RemoveFromQueue, MenuOption::DownloadEpisode, MenuOption::ToggleComplete]);
                assert(m[0] == MenuOption::SaveEpisode);
                assert(m[1] == MenuOption::RemoveFromQueue);
                assert(m[2] == MenuOption::DownloadEpisode);
            } else {
                assert(m =~= seq![MenuOption::SaveEpisode, MenuOption::RemoveFromQueue, MenuOption::ServerDownload, MenuOption::LocalDownload, MenuOption::ToggleComplete]);
                assert(m[0] == MenuOption::SaveEpisode);
                assert(m[1] == MenuOption::RemoveFromQueue);
                assert(m[2] == MenuOption::ServerDownload);
                assert(m[3] == MenuOption::LocalDownload);
            }
        },
        PageType::Downloads => {
            assert(m[0] == MenuOption::QueueEpisode);
            assert(m[1] == MenuOption::SaveEpisode);
            assert(m[2] == MenuOption::RemoveDownloadedEpisode);
        },
        PageType::LocalDownloads => {
            if !sb {
                assert(m[0] == MenuOption::QueueEpisode);
                assert(m[1] == MenuOption::SaveEpisode);
                assert(m[2] == MenuOption::RemoveLocalDownload);
            }
        },
        PageType::Other => {
            if sb {
                assert(m =~= seq![MenuOption::QueueEpisode, MenuOption::SaveEpisode, MenuOption::DownloadEpisode, MenuOption::ToggleComplete]);
                assert(m[0] == MenuOption::QueueEpisode);
                assert(m[1] == MenuOption::SaveEpisode);
                assert(m[2] == MenuOption::DownloadEpisode);
            } else {
                assert(m =~= seq![MenuOption::QueueEpisode, MenuOption::SaveEpisode, MenuOption::ServerDownload, MenuOption::LocalDownload, MenuOption::ToggleComplete]);
                assert(m[0] == MenuOption::QueueEpisode);
                assert(m[1] == MenuOption::SaveEpisode);
                assert(m[2] == MenuOption::ServerDownload);
                assert(m[3] == MenuOption::LocalDownload);
            }
        },
    }
}

/// Law: the text of each entry, and that the completion entry reads
/// "Mark Episode Incomplete" exactly when the episode is completed.
pub proof fn menu_entry_texts(c: bool)
    ensures
        option_label(MenuOption::QueueEpisode, c) == "Queue Episode"@,
        option_label(MenuOption::SaveEpisode, c) == "Save Episode"@,
        option_label(MenuOption::RemoveSavedEpisode, c) == "Remove Saved Episode"@,
        option_label(MenuOption::RemoveFromQueue, c) == "Remove from Queue"@,
        option_label(MenuOption::RemoveDownloadedEpisode, c) == "Remove Downloaded Episode"@,
        option_label(MenuOption::RemoveLocalDownload, c) == "Remove Downloaded Episode"@,
        option_label(MenuOption::DownloadEpisode, c) == "Download Episode"@,
        option_label(MenuOption::ServerDownload, c) == "Server Download"@,
        option_label(MenuOption::LocalDownload, c) == "Local Download"@,
        (option_label(MenuOption::ToggleComplete, c) == "Mark Episode Incomplete"@) == c,
        (option_label(MenuOption::ToggleComplete, c) == "Mark Episode Complete"@) == !c,
{
    reveal_strlit("Mark Episode Incomplete");
    reveal_strlit("Mark Episode Complete");
    assert("Mark Episode Incomplete"@.len() != "Mark Episode Complete"@.len());
}

/// The dropdown's open flag after a click on its button.
pub fn toggle_dropdown(open: bool) -> (r: bool)
    ensures
        r == !open,
{
    !open
}

/// The dropdown's open flag after a click anywhere in the document.
/// `click_inside` says whether the clicked node lies inside the dropdown;
/// it is `None` when the click has no node target or the dropdown is not
/// rendered. Only a click on a node outside the dropdown closes it.
pub fn dropdown_after_document_click(open: bool, click_inside: Option<bool>) -> (r: bool)
    ensures
        r == (if click_inside == Some(false) { false } else { open }),
{
    match click_inside {
        Some(false) => false,
        _ => open,
    }
}

/// What the context button shows for its properties: whether the episode
/// counts as completed, and the entries of its page.
pub struct ContextMenuView {
    pub is_completed: bool,
    pub options: Vec<MenuOption>,
}

/// The context button's dropdown for an episode on a page, given the list of
/// completed episodes and whether this is the server-hosted build.
pub fn context_button(
    props: &ContextButtonProps,
    completed: &Option<Vec<i32>>,
    server_build: bool,
) -> (r: ContextMenuView)
    ensures
        r.is_completed == completed_contains(ids_view(completed), props.episode.id),
        r.options@ == menu_for(page_type_of(props.page_type@), server_build),
{
    let done = is_completed(completed, props.episode.id);
    let page = page_type(props.page_type.as_str());
    ContextMenuView { is_completed: done, options: menu_options(page, server_build) }
}

} // verus!
