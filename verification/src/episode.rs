//! Episodes as the components see them, whatever list they come from, and the
//! properties that the context button and the error snackbar receive.

use vstd::prelude::*;
use vstd::std_specs::cmp::PartialEqSpecImpl;

verus! {

/// The list or response an episode came from. The components treat every kind
/// alike but for the context button's comparison of properties.
#[derive(Clone, Copy, Debug, PartialEq, Eq, Structural)]
pub enum EpisodeKind {
    Episode,
    QueuedEpisode,
    SavedEpisode,
    HistoryEpisode,
    EpisodeDownload,
    SearchEpisode,
    SearchNewEpisode,
}

/// What the components read of an episode: its artwork address, its title and
/// its identifier, together with the kind of record it came from.
#[derive(Debug)]
pub struct EpisodeRecord {
    pub kind: EpisodeKind,
    pub artwork: String,
    pub title: String,
    pub id: i32,
}

impl EpisodeRecord {
    /// An episode record of the given kind.
    pub fn new(kind: EpisodeKind, artwork: String, title: String, id: i32) -> (r: EpisodeRecord)
        ensures
            r.kind == kind,
            r.artwork@ == artwork@,
            r.title@ == title@,
            r.id == id,
    {
        EpisodeRecord { kind, artwork, title, id }
    }
}

/// An episode of a podcast search result, whose fields the search response
/// may leave out.
pub struct SearchNewEpisode {
    pub artwork: Option<String>,
    pub title: Option<String>,
    pub episode_id: Option<i32>,
}

impl SearchNewEpisode {
    /// The artwork address; reading a missing one panics.
    pub fn get_episode_artwork(&self) -> (r: String)
        requires
            self.artwork is Some,
        ensures
            r@ == self.artwork->0@,
    {
        match &self.artwork {
            Some(a) => a.clone(),
            None => String::new(),
        }
    }

    /// The title; reading a missing one panics.
    pub fn get_episode_title(&self) -> (r: String)
        requires
            self.title is Some,
        ensures
            r@ == self.title->0@,
    {
        match &self.title {
            Some(t) => t.clone(),
            None => String::new(),
        }
    }

    /// The identifier; reading a missing one panics.
    pub fn get_episode_id(&self) -> (r: i32)
        requires
            self.episode_id is Some,
        ensures
            r == self.episode_id->0,
    {
        match self.episode_id {
            Some(id) => id,
            None => 0,
        }
    }

    /// The record the components show, which reads all three fields.
    pub fn to_record(&self) -> (r: EpisodeRecord)
        requires
            self.artwork is Some,
            self.title is Some,
            self.episode_id is Some,
        ensures
            r.kind == EpisodeKind::SearchNewEpisode,
            r.artwork@ == self.artwork->0@,
            r.title@ == self.title->0@,
            r.id == self.episode_id->0,
    {
        EpisodeRecord {
            kind: EpisodeKind::SearchNewEpisode,
            artwork: self.get_episode_artwork(),
            title: self.get_episode_title(),
            id: self.get_episode_id(),
        }
    }
}

/// What every episode offers the components: artwork, title, identifier and a
/// copy of itself.
pub trait EpisodeTrait {
    fn get_episode_artwork(&self) -> String;

    fn get_episode_title(&self) -> String;

    fn get_episode_id(&self) -> i32;

    fn clone_box(&self) -> EpisodeRecord;
}

impl EpisodeTrait for EpisodeRecord {
    fn get_episode_artwork(&self) -> (r: String)
        ensures
            r@ == self.artwork@,
    {
        self.artwork.clone()
    }

    fn get_episode_title(&self) -> (r: String)
        ensures
            r@ == self.title@,
    {
        self.title.clone()
    }

    fn get_episode_id(&self) -> (r: i32)
        ensures
            r == self.id,
    {
        self.id
    }

    fn clone_box(&self) -> (r: EpisodeRecord)
        ensures
            r == *self,
    {
        EpisodeRecord {
            kind: self.kind,
            artwork: self.artwork.clone(),
            title: self.title.clone(),
            id: self.id,
        }
    }
}

/// The properties of the context button: the episode it acts on and the page
/// it stands on.
pub struct ContextButtonProps {
    pub episode: EpisodeRecord,
    pub page_type: String,
}

/// When the context button counts its properties as unchanged: the comparison
/// looks at the episode of the left-hand side only, twice, and answers `true`
/// exactly when that episode is of the `Episode` or the `QueuedEpisode` kind,
/// whatever the right-hand side holds.
pub open spec fn props_unchanged(props: &ContextButtonProps, _other: &ContextButtonProps) -> bool {
    props.episode.kind == EpisodeKind::Episode || props.episode.kind == EpisodeKind::QueuedEpisode
}

/// Law: the comparison of properties answers `true` exactly for an
/// `Episode` or `QueuedEpisode` on the left, and does not look at the right.
pub proof fn props_comparison_reads_left_kind(p: &ContextButtonProps, q1: &ContextButtonProps, q2: &ContextButtonProps)
    ensures
        props_unchanged(p, q1) == props_unchanged(p, q2),
        p.episode.kind == EpisodeKind::Episode ==> props_unchanged(p, q1),
        p.episode.kind == EpisodeKind::QueuedEpisode ==> props_unchanged(p, q1),
        p.episode.kind != EpisodeKind::Episode && p.episode.kind != EpisodeKind::QueuedEpisode
            ==> !props_unchanged(p, q1),
{
}

impl PartialEq for ContextButtonProps {
    fn eq(&self, other: &Self) -> (r: bool) {
        match self.episode.kind {
            EpisodeKind::Episode => true,
            EpisodeKind::QueuedEpisode => true,
            _ => false,
        }
    }
}

impl PartialEqSpecImpl for ContextButtonProps {
    open spec fn obeys_eq_spec() -> bool {
        true
    }

    open spec fn eq_spec(&self, other: &ContextButtonProps) -> bool {
        props_unchanged(self, other)
    }
}

/// The properties of the error snackbar: the message to show, if any.
pub struct ErrorMessageProps {
    pub error_message: Option<String>,
}

/// What the error snackbar shows: the message when there is one, and nothing
/// otherwise.
pub fn error_message(props: &ErrorMessageProps) -> (r: Option<String>)
    ensures
        r is Some <==> props.error_message is Some,
        r is Some ==> r->0@ == props.error_message->0@,
{
    match &props.error_message {
        Some(message) => Some(message.clone()),
        None => None,
    }
}

} // verus!
