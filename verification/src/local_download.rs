//! Downloading an episode to the device: the files it writes and the order of
//! its steps, each step reporting into the interface's notices.

use vstd::prelude::*;
use vstd::string::*;
use crate::episode::EpisodeRecord;
use crate::library::{
    local_artwork_file_name, local_artwork_name, local_audio_file_name, local_audio_name,
    message_view, server_call, EpisodeRequest, NoticeState, ServerCall,
};
use crate::text::concat;

verus! {

/// What a local download needs before its first step.
pub struct LocalDownloadPlan {
    pub call: ServerCall,
    pub audio_file: String,
    pub artwork_file: String,
}

/// The plan of a local download of `episode` for the signed-in user: the
/// metadata request, and the names of the audio and artwork files. A missing
/// user or server panics at the click.
pub fn local_download_plan(
    episode: &EpisodeRecord,
    user_id: Option<i32>,
    server_name: &Option<String>,
    api_key: &Option<Option<String>>,
) -> (r: LocalDownloadPlan)
    requires
        user_id is Some,
        server_name is Some,
    ensures
        r.call.request == (EpisodeRequest { episode_id: episode.id, user_id: user_id->0 }),
        r.call.server_name@ == server_name->0@,
        message_view(&r.call.api_key) == (match api_key {
            Some(Some(k)) => Some(k@),
            _ => None::<Seq<char>>,
        }),
        r.audio_file@ == local_audio_name(episode.id),
        r.artwork_file@ == local_artwork_name(episode.id),
{
    LocalDownloadPlan {
        call: server_call(episode, user_id, server_name, api_key),
        audio_file: local_audio_file_name(episode.id),
        artwork_file: local_artwork_file_name(episode.id),
    }
}

/// The steps of a local download, in the order they run.
#[derive(Clone, Copy, Debug, PartialEq, Eq, Structural)]
pub enum LocalDownloadStep {
    FetchMetadata,
    DownloadAudio,
    DownloadArtwork,
    UpdateLocalDatabase,
    FetchPodcastDetails,
    UpdatePodcastDatabase,
    Finished,
}

/// How many steps at most are left from a step.
pub open spec fn steps_left(step: LocalDownloadStep) -> nat {
    match step {
        LocalDownloadStep::FetchMetadata => 6,
        LocalDownloadStep::DownloadAudio => 5,
        LocalDownloadStep::DownloadArtwork => 4,
        LocalDownloadStep::UpdateLocalDatabase => 3,
        LocalDownloadStep::FetchPodcastDetails => 2,
        LocalDownloadStep::UpdatePodcastDatabase => 1,
        LocalDownloadStep::Finished => 0,
    }
}

/// The step after `step`, given whether it failed.
pub open spec fn next_step(step: LocalDownloadStep, failed: bool) -> LocalDownloadStep {
    match step {
        LocalDownloadStep::FetchMetadata => if failed {
            LocalDownloadStep::Finished
        } else {
            LocalDownloadStep::DownloadAudio
        },
        LocalDownloadStep::DownloadAudio => LocalDownloadStep::DownloadArtwork,
        LocalDownloadStep::DownloadArtwork => LocalDownloadStep::UpdateLocalDatabase,
        LocalDownloadStep::UpdateLocalDatabase => LocalDownloadStep::FetchPodcastDetails,
        LocalDownloadStep::FetchPodcastDetails => if failed {
            LocalDownloadStep::Finished
        } else {
            LocalDownloadStep::UpdatePodcastDatabase
        },
        LocalDownloadStep::UpdatePodcastDatabase => LocalDownloadStep::Finished,
        LocalDownloadStep::Finished => LocalDownloadStep::Finished,
    }
}

/// The text put before the error of a failed step.
pub open spec fn failure_prefix(step: LocalDownloadStep) -> Seq<char> {
    match step {
        LocalDownloadStep::FetchMetadata => "s "@,
        LocalDownloadStep::DownloadAudio => "Failed to download episode audio: "@,
        LocalDownloadStep::DownloadArtwork => "Failed to download episode artwork: "@,
        LocalDownloadStep::UpdateLocalDatabase => "Failed to update local database: "@,
        LocalDownloadStep::FetchPodcastDetails => "Failed to fetch podcast metadata: "@,
        LocalDownloadStep::UpdatePodcastDatabase => "Failed to update podcast database: "@,
        LocalDownloadStep::Finished => Seq::empty(),
    }
}

fn failure_prefix_text(step: LocalDownloadStep) -> (r: &'static str)
    requires
        step != LocalDownloadStep::Finished,
    ensures
        r@ == failure_prefix(step),
{
    match step {
        LocalDownloadStep::FetchMetadata => "s ",
        LocalDownloadStep::DownloadAudio => "Failed to download episode audio: ",
        LocalDownloadStep::DownloadArtwork => "Failed to download episode artwork: ",
        LocalDownloadStep::UpdateLocalDatabase => "Failed to update local database: ",
        LocalDownloadStep::FetchPodcastDetails => "Failed to fetch podcast metadata: ",
        LocalDownloadStep::UpdatePodcastDatabase => "Failed to update podcast database: ",
        LocalDownloadStep::Finished => "",
    }
}

/// Records how `step` ended and gives the next step. `failure` holds the
/// step's error as displayed, or `None` when the step succeeded. A successful
/// metadata fetch announces the queued download; a failed step sets the
/// error message with its prefix. A failed metadata or podcast-details fetch
/// ends the download; the other failures do not stop it.
pub fn local_download_advance(
    step: LocalDownloadStep,
    failure: Option<String>,
    notices: &mut NoticeState,
) -> (r: LocalDownloadStep)
    requires
        step != LocalDownloadStep::Finished,
    ensures
        r == next_step(step, failure is Some),
        message_view(&final(notices).error_message) == (match failure {
            Some(e) => Some(failure_prefix(step) + e@),
            None => message_view(&old(notices).error_message),
        }),
        message_view(&final(notices).info_message) == (if step == LocalDownloadStep::FetchMetadata
            && failure is None {
            Some("Episode download queued!"@)
        } else {
            message_view(&old(notices).info_message)
        }),
        final(notices).local_download_increment == old(notices).local_download_increment,
{
    let failed = failure.is_some();
    match failure {
        Some(e) => {
            notices.error_message = Some(concat(failure_prefix_text(step), e.as_str()));
        },
        None => {
            if step == LocalDownloadStep::FetchMetadata {
                notices.info_message = Some(String::from_str("Episode download queued!"));
            }
        },
    }
    match step {
        LocalDownloadStep::FetchMetadata => if failed {
            LocalDownloadStep::Finished
        } else {
            LocalDownloadStep::DownloadAudio
        },
        LocalDownloadStep::DownloadAudio => LocalDownloadStep::DownloadArtwork,
        LocalDownloadStep::DownloadArtwork => LocalDownloadStep::UpdateLocalDatabase,
        LocalDownloadStep::UpdateLocalDatabase => LocalDownloadStep::FetchPodcastDetails,
        LocalDownloadStep::FetchPodcastDetails => if failed {
            LocalDownloadStep::Finished
        } else {
            LocalDownloadStep::UpdatePodcastDatabase
        },
        LocalDownloadStep::UpdatePodcastDatabase => LocalDownloadStep::Finished,
        LocalDownloadStep::Finished => LocalDownloadStep::Finished,
    }
}

/// What the server says of an episode before a local download.
pub struct EpisodeMetadata {
    pub episodeurl: String,
    pub episodeartwork: String,
    pub podcastid: i32,
}

/// The request that a step of a local download makes.
pub enum LocalDownloadRequest {
    /// Ask the server for the episode's metadata, with the plan's call.
    EpisodeMetadata,
    /// Download the file at `url` and store it under `file_name`.
    DownloadFile { url: String, file_name: String },
    /// Record the fetched metadata in the device's database.
    UpdateLocalDatabase,
    /// Ask the server for the details of the episode's podcast.
    PodcastDetails { server_name: String, api_key: String, user_id: i32, podcast_id: i32 },
    /// Record the fetched podcast details in the device's database.
    UpdatePodcastDatabase,
}

/// The request of a step, from the plan and, after the first step, the
/// fetched metadata: the audio comes from the episode's address and goes to
/// the audio file, the artwork from the artwork address to the artwork file,
/// and the podcast details are asked for the metadata's podcast with the
/// plan's server, key and user. Asking for the details without a key panics.
pub fn local_download_request(
    step: LocalDownloadStep,
    plan: &LocalDownloadPlan,
    metadata: &Option<EpisodeMetadata>,
) -> (r: LocalDownloadRequest)
    requires
        step != LocalDownloadStep::Finished,
        step != LocalDownloadStep::FetchMetadata ==> metadata is Some,
        step == LocalDownloadStep::FetchPodcastDetails ==> plan.call.api_key is Some,
    ensures
        match step {
            LocalDownloadStep::FetchMetadata => r is EpisodeMetadata,
            LocalDownloadStep::DownloadAudio => r matches LocalDownloadRequest::DownloadFile { url, file_name }
                && url@ == metadata->0.episodeurl@ && file_name@ == plan.audio_file@,
            LocalDownloadStep::DownloadArtwork => r matches LocalDownloadRequest::DownloadFile {
                url,
                file_name,
            } && url@ == metadata->0.episodeartwork@ && file_name@ == plan.artwork_file@,
            LocalDownloadStep::UpdateLocalDatabase => r is UpdateLocalDatabase,
            LocalDownloadStep::FetchPodcastDetails => r matches LocalDownloadRequest::PodcastDetails {
                server_name,
                api_key,
                user_id,
                podcast_id,
            } && server_name@ == plan.call.server_name@ && api_key@ == plan.call.api_key->0@ && user_id
                == plan.call.request.user_id && podcast_id == metadata->0.podcastid,
            LocalDownloadStep::UpdatePodcastDatabase => r is UpdatePodcastDatabase,
            LocalDownloadStep::Finished => true,
        },
{
    match step {
        LocalDownloadStep::FetchMetadata => LocalDownloadRequest::EpisodeMetadata,
        LocalDownloadStep::DownloadAudio => match metadata {
            Some(m) => LocalDownloadRequest::DownloadFile {
                url: m.episodeurl.clone(),
                file_name: plan.audio_file.clone(),
            },
            None => LocalDownloadRequest::UpdateLocalDatabase,
        },
        LocalDownloadStep::DownloadArtwork => match metadata {
            Some(m) => LocalDownloadRequest::DownloadFile {
                url: m.episodeartwork.clone(),
                file_name: plan.artwork_file.clone(),
            },
            None => LocalDownloadRequest::UpdateLocalDatabase,
        },
        LocalDownloadStep::UpdateLocalDatabase => LocalDownloadRequest::UpdateLocalDatabase,
        LocalDownloadStep::FetchPodcastDetails => {
            let key = match &plan.call.api_key {
                Some(k) => k.clone(),
                None => String::new(),
            };
            let podcast_id = match metadata {
                Some(m) => m.podcastid,
                None => 0,
            };
            LocalDownloadRequest::PodcastDetails {
                server_name: plan.call.server_name.clone(),
                api_key: key,
                user_id: plan.call.request.user_id,
                podcast_id,
            }
        },
        LocalDownloadStep::UpdatePodcastDatabase => LocalDownloadRequest::UpdatePodcastDatabase,
        LocalDownloadStep::Finished => LocalDownloadRequest::UpdatePodcastDatabase,
    }
}

/// Law: the order of the steps and what stops a download: the metadata
/// comes first and its failure ends the download; then the audio, the
/// artwork and the local database follow each other whatever fails; a failed
/// podcast-details fetch ends the download, and the podcast database update
/// is the last step.
pub proof fn local_download_order(failed: bool)
    ensures
        next_step(LocalDownloadStep::FetchMetadata, true) == LocalDownloadStep::Finished,
        next_step(LocalDownloadStep::FetchMetadata, false) == LocalDownloadStep::DownloadAudio,
        next_step(LocalDownloadStep::DownloadAudio, failed) == LocalDownloadStep::DownloadArtwork,
        next_step(LocalDownloadStep::DownloadArtwork, failed) == LocalDownloadStep::UpdateLocalDatabase,
        next_step(LocalDownloadStep::UpdateLocalDatabase, failed) == LocalDownloadStep::FetchPodcastDetails,
        next_step(LocalDownloadStep::FetchPodcastDetails, true) == LocalDownloadStep::Finished,
        next_step(LocalDownloadStep::FetchPodcastDetails, false) == LocalDownloadStep::UpdatePodcastDatabase,
        next_step(LocalDownloadStep::UpdatePodcastDatabase, failed) == LocalDownloadStep::Finished,
{
}

/// Law: the text put before the error of each failed step.
pub proof fn local_download_failure_texts()
    ensures
        failure_prefix(LocalDownloadStep::FetchMetadata) == "s "@,
        failure_prefix(LocalDownloadStep::DownloadAudio) == "Failed to download episode audio: "@,
        failure_prefix(LocalDownloadStep::DownloadArtwork) == "Failed to download episode artwork: "@,
        failure_prefix(LocalDownloadStep::UpdateLocalDatabase) == "Failed to update local database: "@,
        failure_prefix(LocalDownloadStep::FetchPodcastDetails) == "Failed to fetch podcast metadata: "@,
        failure_prefix(LocalDownloadStep::UpdatePodcastDatabase) == "Failed to update podcast database: "@,
{
}

/// Law: every step moves the download closer to its end, so a download
/// finishes after at most six steps, whatever fails.
pub proof fn local_download_terminates(step: LocalDownloadStep, failed: bool)
    requires
        step != LocalDownloadStep::Finished,
    ensures
        steps_left(next_step(step, failed)) < steps_left(step),
        steps_left(step) <= 6,
{
}

/// Law: only a failed metadata fetch ends a download before the podcast
/// details are asked for; the audio, the artwork and the local database are
/// each attempted once the metadata has arrived, whatever fails among them.
pub proof fn local_download_attempts_every_file(failures: Seq<bool>)
    requires
        failures.len() >= 4,
        !failures[0],
    ensures
        next_step(LocalDownloadStep::FetchMetadata, failures[0]) == LocalDownloadStep::DownloadAudio,
        next_step(LocalDownloadStep::DownloadAudio, failures[1]) == LocalDownloadStep::DownloadArtwork,
        next_step(LocalDownloadStep::DownloadArtwork, failures[2])
            == LocalDownloadStep::UpdateLocalDatabase,
        next_step(LocalDownloadStep::UpdateLocalDatabase, failures[3])
            == LocalDownloadStep::FetchPodcastDetails,
{
}

} // verus!
