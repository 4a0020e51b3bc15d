//! The episode actions of the context button, the requests they send, and how
//! the application state changes when a request comes back.

use vstd::prelude::*;
use vstd::string::*;
use crate::completion::{ids_view, toggled, toggle_completed};
use crate::episode::EpisodeRecord;
use crate::text::{append_decimal, concat, decimal, decimal_is_canonical, is_canonical_decimal, parse_decimal};

verus! {

/// The predicate that keeps every episode but those with identifier `id`.
pub open spec fn keeps_other_than(id: i32) -> spec_fn(EpisodeRecord) -> bool {
    |e: EpisodeRecord| e.id != id
}

/// The view of an optional list of episodes.
pub open spec fn list_view(l: &Option<Vec<EpisodeRecord>>) -> Option<Seq<EpisodeRecord>> {
    match l {
        Some(v) => Some(v@),
        None => None,
    }
}

/// An optional list of episodes without those whose identifier is `id`; a
/// missing list stays missing.
pub open spec fn without(l: Option<Seq<EpisodeRecord>>, id: i32) -> Option<Seq<EpisodeRecord>> {
    match l {
        Some(v) => Some(v.filter(keeps_other_than(id))),
        None => None,
    }
}

/// The view of an optional message.
pub open spec fn message_view(m: &Option<String>) -> Option<Seq<char>> {
    match m {
        Some(s) => Some(s@),
        None => None,
    }
}

/// The episodes of `list` whose identifier is not `id`, in their order.
pub fn without_episode(list: Vec<EpisodeRecord>, id: i32) -> (r: Vec<EpisodeRecord>)
    ensures
        r@ == list@.filter(keeps_other_than(id)),
{
    let ghost all = list@;
    let mut rest = list;
    let mut kept: Vec<EpisodeRecord> = Vec::new();
    let mut taken: usize = 0;
    let total: usize = rest.len();
    proof {
        assert(all.subrange(0, 0) =~= Seq::<EpisodeRecord>::empty());
        reveal(Seq::filter);
    }
    while rest.len() > 0
        invariant
            taken + rest@.len() == all.len(),
            all.len() == total,
            rest@ == all.subrange(taken as int, all.len() as int),
            kept@ == all.subrange(0, taken as int).filter(keeps_other_than(id)),
        decreases rest@.len(),
    {
        let e = rest.remove(0);
        proof {
            assert(all.subrange(0, taken + 1) =~= all.subrange(0, taken as int).push(e));
            all.subrange(0, taken as int).lemma_filter_push(e, keeps_other_than(id));
        }
        if e.id != id {
            kept.push(e);
        }
        taken = taken + 1;
        proof {
            assert(rest@ =~= all.subrange(taken as int, all.len() as int));
        }
    }
    assert(all.subrange(0, taken as int) =~= all);
    kept
}

/// Law: removing the episodes with one identifier leaves none with it, keeps
/// every other episode, and doing it a second time changes nothing.
pub proof fn without_removes_only_that_episode(v: Seq<EpisodeRecord>, id: i32)
    ensures
        forall|k: int| 0 <= k < v.filter(keeps_other_than(id)).len()
            ==> #[trigger] v.filter(keeps_other_than(id))[k].id != id,
        forall|k: int| 0 <= k < v.len() && v[k].id != id
            ==> v.filter(keeps_other_than(id)).contains(#[trigger] v[k]),
        v.filter(keeps_other_than(id)).filter(keeps_other_than(id)) == v.filter(keeps_other_than(id)),
    decreases v.len(),
{
    broadcast use vstd::seq_lib::group_filter_ensures;
    reveal(Seq::filter);
    let p = keeps_other_than(id);
    let f = v.filter(p);
    assert forall|k: int| 0 <= k < f.len() implies #[trigger] f[k].id != id by {
        v.lemma_filter_pred(p, k);
    }
    assert forall|k: int| 0 <= k < v.len() && v[k].id != id implies f.contains(#[trigger] v[k]) by {
        v.lemma_filter_contains(p, k);
    }
    if v.len() > 0 {
        without_removes_only_that_episode(v.drop_last(), id);
        let g = v.drop_last().filter(p);
        if p(v.last()) {
            g.lemma_filter_push(v.last(), p);
        }
    }
}

/// What a user can ask of an episode from the context button.
#[derive(Clone, Copy, Debug, PartialEq, Eq, Structural)]
pub enum EpisodeAction {
    AddToQueue,
    RemoveFromQueue,
    Save,
    RemoveSaved,
    ServerDownload,
    RemoveDownloaded,
    MarkCompleted,
    MarkUncompleted,
    LocalDownload,
    RemoveLocalDownload,
}

/// The action that the completion entry of the menu takes: mark incomplete
/// what is completed, and complete what is not.
pub fn completion_action(is_completed: bool) -> (r: EpisodeAction)
    ensures
        r == (if is_completed { EpisodeAction::MarkUncompleted } else { EpisodeAction::MarkCompleted }),
{
    if is_completed {
        EpisodeAction::MarkUncompleted
    } else {
        EpisodeAction::MarkCompleted
    }
}

/// The body of every episode request to the server.
#[derive(Clone, Copy, Debug, PartialEq, Eq, Structural)]
pub struct EpisodeRequest {
    pub episode_id: i32,
    pub user_id: i32,
}

/// A request to the server with the credentials it goes with.
pub struct ServerCall {
    pub server_name: String,
    pub api_key: Option<String>,
    pub request: EpisodeRequest,
}

/// The request that an episode action sends, from the signed-in user's
/// details. A missing user or server panics; a missing or empty key is sent
/// as no key.
pub fn server_call(
    episode: &EpisodeRecord,
    user_id: Option<i32>,
    server_name: &Option<String>,
    api_key: &Option<Option<String>>,
) -> (r: ServerCall)
    requires
        user_id is Some,
        server_name is Some,
    ensures
        r.request == (EpisodeRequest { episode_id: episode.id, user_id: user_id->0 }),
        r.server_name@ == server_name->0@,
        message_view(&r.api_key) == (match api_key {
            Some(Some(k)) => Some(k@),
            _ => None::<Seq<char>>,
        }),
{
    let key = match api_key {
        Some(Some(k)) => Some(k.clone()),
        _ => None,
    };
    let name = match server_name {
        Some(n) => n.clone(),
        None => String::new(),
    };
    ServerCall {
        server_name: name,
        api_key: key,
        request: EpisodeRequest { episode_id: episode.id, user_id: user_id.unwrap() },
    }
}

/// The part of the application state that episode actions change.
pub struct LibraryState {
    pub queued_episodes: Option<Vec<EpisodeRecord>>,
    pub saved_episodes: Option<Vec<EpisodeRecord>>,
    pub downloaded_episodes: Option<Vec<EpisodeRecord>>,
    pub completed_episodes: Option<Vec<i32>>,
    pub info_message: Option<String>,
}

/// The part of the interface state that episode actions change.
pub struct NoticeState {
    pub info_message: Option<String>,
    pub error_message: Option<String>,
    pub local_download_increment: Option<i32>,
}

/// The name under which a locally downloaded episode's audio is stored.
pub open spec fn local_audio_name(id: i32) -> Seq<char> {
    "episode_"@ + decimal(id as int) + ".mp3"@
}

/// The name under which a locally downloaded episode's artwork is stored.
pub open spec fn local_artwork_name(id: i32) -> Seq<char> {
    "artwork_"@ + decimal(id as int) + ".jpg"@
}

/// Law: the local files of an episode are named "episode_" and "artwork_"
/// followed by the standard decimal notation of its identifier (which reads
/// back as the identifier) and ".mp3" or ".jpg".
pub proof fn local_file_names_carry_the_id(id: i32)
    ensures
        ({
            let a = local_audio_name(id);
            &&& a.len() >= 13
            &&& a.subrange(0, 8) == "episode_"@
            &&& a.subrange(a.len() - 4, a.len() as int) == ".mp3"@
            &&& is_canonical_decimal(a.subrange(8, a.len() - 4))
            &&& parse_decimal(a.subrange(8, a.len() - 4)) == id
        }),
        ({
            let w = local_artwork_name(id);
            &&& w.len() >= 13
            &&& w.subrange(0, 8) == "artwork_"@
            &&& w.subrange(w.len() - 4, w.len() as int) == ".jpg"@
            &&& is_canonical_decimal(w.subrange(8, w.len() - 4))
            &&& parse_decimal(w.subrange(8, w.len() - 4)) == id
        }),
{
    reveal_strlit("episode_");
    reveal_strlit(".mp3");
    reveal_strlit("artwork_");
    reveal_strlit(".jpg");
    decimal_is_canonical(id as int);
    let d = decimal(id as int);
    let a = local_audio_name(id);
    assert(a.subrange(0, 8) =~= "episode_"@);
    assert(a.subrange(a.len() - 4, a.len() as int) =~= ".mp3"@);
    assert(a.subrange(8, a.len() - 4) =~= d);
    let w = local_artwork_name(id);
    assert(w.subrange(0, 8) =~= "artwork_"@);
    assert(w.subrange(w.len() - 4, w.len() as int) =~= ".jpg"@);
    assert(w.subrange(8, w.len() - 4) =~= d);
}

/// `format!("episode_{}.mp3", id)`.
pub fn local_audio_file_name(id: i32) -> (r: String)
    ensures
        r@ == local_audio_name(id),
{
    let mut s = String::from_str("episode_");
    append_decimal(&mut s, id);
    s.append(".mp3");
    s
}

/// `format!("artwork_{}.jpg", id)`.
pub fn local_artwork_file_name(id: i32) -> (r: String)
    ensures
        r@ == local_artwork_name(id),
{
    let mut s = String::from_str("artwork_");
    append_decimal(&mut s, id);
    s.append(".jpg");
    s
}

/// The actions whose success is reported in the interface's notices.
pub open spec fn reported_in_notices(a: EpisodeAction) -> bool {
    a == EpisodeAction::AddToQueue || a == EpisodeAction::Save || a == EpisodeAction::ServerDownload
}

/// The actions whose success is reported in the application state.
pub open spec fn reported_in_library(a: EpisodeAction) -> bool {
    a == EpisodeAction::RemoveFromQueue || a == EpisodeAction::RemoveSaved
        || a == EpisodeAction::RemoveDownloaded || a == EpisodeAction::MarkCompleted
        || a == EpisodeAction::MarkUncompleted
}

/// The text of a reply: the success message or the error.
pub open spec fn reply_text(outcome: &Result<String, String>) -> Seq<char> {
    match outcome {
        Ok(s) => s@,
        Err(e) => e@,
    }
}

/// One list of the library after `action` came back: filtered when the action
/// removes from that list and succeeded, unchanged otherwise.
pub open spec fn list_after(
    list: Option<Seq<EpisodeRecord>>,
    removes_from_it: bool,
    ok: bool,
    id: i32,
) -> Option<Seq<EpisodeRecord>> {
    if removes_from_it && ok {
        without(list, id)
    } else {
        list
    }
}

/// The notice's info message after `action` came back.
pub open spec fn notice_info_after(
    action: EpisodeAction,
    id: i32,
    outcome: &Result<String, String>,
    old_info: Option<Seq<char>>,
) -> Option<Seq<char>> {
    if outcome is Ok && reported_in_notices(action) {
        Some(reply_text(outcome))
    } else if outcome is Ok && action == EpisodeAction::RemoveLocalDownload {
        Some("Episode "@ + local_audio_name(id) + " downloaded locally!"@)
    } else {
        old_info
    }
}

/// The notice's error message after `action` came back: a failure is shown
/// as it came, but for a failed local removal, which is prefixed.
pub open spec fn notice_error_after(
    action: EpisodeAction,
    outcome: &Result<String, String>,
    old_error: Option<Seq<char>>,
) -> Option<Seq<char>> {
    if outcome is Err {
        if action == EpisodeAction::RemoveLocalDownload {
            Some("Failed to download episode audio: "@ + reply_text(outcome))
        } else {
            Some(reply_text(outcome))
        }
    } else {
        old_error
    }
}

/// Law: where a reply goes. Successes of queueing, saving and server
/// downloads are reported in the notices, those of removals and completion
/// requests in the application state; a successful removal drops the
/// episode from the list it removes from and leaves other lists as they
/// were; a local removal reports the audio file it removed; a failure goes to
/// the notices' error as it came, prefixed for a local removal, and leaves
/// the info messages alone; a success leaves the error alone.
pub proof fn replies_reach_the_right_state(
    action: EpisodeAction,
    id: i32,
    outcome: Result<String, String>,
    list: Option<Seq<EpisodeRecord>>,
    removes_from_it: bool,
    old_info: Option<Seq<char>>,
    old_error: Option<Seq<char>>,
)
    ensures
        (match &outcome {
            Ok(s) => reply_text(&outcome) == s@,
            Err(e) => reply_text(&outcome) == e@,
        }),
        reported_in_notices(action) == (action == EpisodeAction::AddToQueue || action == EpisodeAction::Save
            || action == EpisodeAction::ServerDownload),
        reported_in_library(action) == (action == EpisodeAction::RemoveFromQueue || action
            == EpisodeAction::RemoveSaved || action == EpisodeAction::RemoveDownloaded || action
            == EpisodeAction::MarkCompleted || action == EpisodeAction::MarkUncompleted),
        !(removes_from_it && outcome is Ok) ==> list_after(list, removes_from_it, outcome is Ok, id) == list,
        removes_from_it && outcome is Ok ==> list_after(list, removes_from_it, outcome is Ok, id) == (match list {
            Some(v) => Some(v.filter(keeps_other_than(id))),
            None => None::<Seq<EpisodeRecord>>,
        }),
        outcome is Err ==> notice_info_after(action, id, &outcome, old_info) == old_info,
        outcome is Ok ==> notice_error_after(action, &outcome, old_error) == old_error,
        outcome is Err && action != EpisodeAction::RemoveLocalDownload ==> notice_error_after(
            action,
            &outcome,
            old_error,
        ) == Some(reply_text(&outcome)),
        outcome is Err && action == EpisodeAction::RemoveLocalDownload ==> notice_error_after(
            action,
            &outcome,
            old_error,
        ) == Some("Failed to download episode audio: "@ + reply_text(&outcome)),
        outcome is Ok && reported_in_notices(action) ==> notice_info_after(action, id, &outcome, old_info)
            == Some(reply_text(&outcome)),
        outcome is Ok && (reported_in_library(action) || action == EpisodeAction::LocalDownload)
            ==> notice_info_after(action, id, &outcome, old_info) == old_info,
        outcome is Ok && action == EpisodeAction::RemoveLocalDownload ==> notice_info_after(
            action,
            id,
            &outcome,
            old_info,
        ) == Some("Episode "@ + local_audio_name(id) + " downloaded locally!"@),
{
}

/// Applies the reply to an episode action to the state. A success message
/// (`Ok`) or an error text (`Err`, as the error is displayed) came back:
/// - on success, removals drop the episode from their list, completion
///   requests toggle the completed list, and the message is reported in the
///   application state for those, and in the notices for queueing, saving and
///   server downloads; a local removal reports which file it removed and
///   counts one more local change;
/// - on failure, the error goes to the notices.
pub fn apply_reply(
    action: EpisodeAction,
    episode_id: i32,
    outcome: Result<String, String>,
    library: &mut LibraryState,
    notices: &mut NoticeState,
)
    requires
        action != EpisodeAction::LocalDownload,
        action == EpisodeAction::RemoveLocalDownload && outcome is Ok
            ==> (old(notices).local_download_increment matches Some(n) ==> n < i32::MAX),
    ensures
        list_view(&final(library).queued_episodes) == list_after(
            list_view(&old(library).queued_episodes),
            action == EpisodeAction::RemoveFromQueue,
            outcome is Ok,
            episode_id,
        ),
        list_view(&final(library).saved_episodes) == list_after(
            list_view(&old(library).saved_episodes),
            action == EpisodeAction::RemoveSaved,
            outcome is Ok,
            episode_id,
        ),
        list_view(&final(library).downloaded_episodes) == list_after(
            list_view(&old(library).downloaded_episodes),
            action == EpisodeAction::RemoveDownloaded,
            outcome is Ok,
            episode_id,
        ),
        ids_view(&final(library).completed_episodes) == (if outcome is Ok && (action
            == EpisodeAction::MarkCompleted || action == EpisodeAction::MarkUncompleted) {
            toggled(ids_view(&old(library).completed_episodes), episode_id)
        } else {
            ids_view(&old(library).completed_episodes)
        }),
        message_view(&final(library).info_message) == (if outcome is Ok && reported_in_library(action) {
            Some(reply_text(&outcome))
        } else {
            message_view(&old(library).info_message)
        }),
        message_view(&final(notices).info_message) == notice_info_after(
            action,
            episode_id,
            &outcome,
            message_view(&old(notices).info_message),
        ),
        message_view(&final(notices).error_message) == notice_error_after(
            action,
            &outcome,
            message_view(&old(notices).error_message),
        ),
        final(notices).local_download_increment == (if outcome is Ok && action
            == EpisodeAction::RemoveLocalDownload {
            Some(
                match old(notices).local_download_increment {
                    Some(n) => (n + 1) as i32,
                    None => 1i32,
                },
            )
        } else {
            old(notices).local_download_increment
        }),
{
    match outcome {
        Ok(message) => {
            match action {
                EpisodeAction::AddToQueue | EpisodeAction::Save | EpisodeAction::ServerDownload => {
                    notices.info_message = Some(message);
                },
                EpisodeAction::RemoveFromQueue => {
                    let list = library.queued_episodes.take();
                    library.queued_episodes = match list {
                        Some(v) => Some(without_episode(v, episode_id)),
                        None => None,
                    };
                    library.info_message = Some(message);
                },
                EpisodeAction::RemoveSaved => {
                    let list = library.saved_episodes.take();
                    library.saved_episodes = match list {
                        Some(v) => Some(without_episode(v, episode_id)),
                        None => None,
                    };
                    library.info_message = Some(message);
                },
                EpisodeAction::RemoveDownloaded => {
                    let list = library.downloaded_episodes.take();
                    library.downloaded_episodes = match list {
                        Some(v) => Some(without_episode(v, episode_id)),
                        None => None,
                    };
                    library.info_message = Some(message);
                },
                EpisodeAction::MarkCompleted | EpisodeAction::MarkUncompleted => {
                    let list = library.completed_episodes.take();
                    library.completed_episodes = toggle_completed(list, episode_id);
                    library.info_message = Some(message);
                },
                EpisodeAction::RemoveLocalDownload => {
                    let file_name = local_audio_file_name(episode_id);
                    let mut text = String::from_str("Episode ");
                    text.append(file_name.as_str());
                    text.append(" downloaded locally!");
                    notices.info_message = Some(text);
                    notices.local_download_increment = match notices.local_download_increment {
                        Some(n) => Some(n + 1),
                        None => Some(1),
                    };
                },
                EpisodeAction::LocalDownload => {
                },
            }
        },
        Err(error) => {
            match action {
                EpisodeAction::RemoveLocalDownload => {
                    notices.error_message = Some(
                        concat("Failed to download episode audio: ", error.as_str()),
                    );
                },
                _ => {
                    notices.error_message = Some(error);
                },
            }
        },
    }
}

} // verus!
