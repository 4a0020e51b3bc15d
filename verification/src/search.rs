//! The search bar: its own state (the typed text, the chosen search index and
//! its two dropdowns) and the steps of a search it starts.

use vstd::prelude::*;
use vstd::string::*;
use crate::library::message_view;
use crate::text::{concat, str_equal};

verus! {

/// The name of the search index that the bar starts with.
pub open spec fn default_index() -> Seq<char> {
    "podcast_index"@
}

/// Whether a name is one of the two search indexes the bar offers.
pub open spec fn known_index(index: Seq<char>) -> bool {
    index == "podcast_index"@ || index == "itunes"@
}

/// The label shown for a search index name.
pub open spec fn index_label(index: Seq<char>) -> Seq<char> {
    if index == "podcast_index"@ {
        "Podcast Index"@
    } else if index == "itunes"@ {
        "iTunes"@
    } else {
        "Unknown"@
    }
}

/// The class of a mobile index button: the common classes, its corner, and
/// "active" when its index is the chosen one (an empty word otherwise).
pub open spec fn index_button_class(chosen: Seq<char>, button_index: Seq<char>, left: bool) -> Seq<char> {
    (if left {
        "px-4 py-2 text-sm font-medium rounded-l-lg search-drop-button "@
    } else {
        "px-4 py-2 text-sm font-medium rounded-r-lg search-drop-button "@
    }) + (if chosen == button_index {
        "active"@
    } else {
        ""@
    })
}

/// Law: a mobile index button's class marks it "active" exactly when its
/// index is the chosen one, for the left button as for the right; it starts
/// with the common classes and the corner of its side.
pub proof fn index_button_active_exactly_when_chosen(chosen: Seq<char>, button_index: Seq<char>, left: bool)
    ensures
        ({
            let c = index_button_class(chosen, button_index, left);
            let corner = if left { "rounded-l-lg"@ } else { "rounded-r-lg"@ };
            &&& c.len() >= 62
            &&& c.subrange(0, 30) == "px-4 py-2 text-sm font-medium "@
            &&& c.subrange(30, 42) == corner
            &&& c.subrange(42, 62) == " search-drop-button "@
            &&& chosen == button_index ==> c.subrange(62, c.len() as int) == "active"@
            &&& chosen != button_index ==> c.len() == 62
        }),
{
    reveal_strlit("px-4 py-2 text-sm font-medium rounded-l-lg search-drop-button ");
    reveal_strlit("px-4 py-2 text-sm font-medium rounded-r-lg search-drop-button ");
    reveal_strlit("px-4 py-2 text-sm font-medium ");
    reveal_strlit("rounded-l-lg");
    reveal_strlit("rounded-r-lg");
    reveal_strlit(" search-drop-button ");
    reveal_strlit("active");
    reveal_strlit("");
    let c = index_button_class(chosen, button_index, left);
    assert(c.subrange(0, 30) =~= "px-4 py-2 text-sm font-medium "@);
    let corner = if left { "rounded-l-lg"@ } else { "rounded-r-lg"@ };
    assert(c.subrange(30, 42) =~= corner);
    assert(c.subrange(42, 62) =~= " search-drop-button "@);
    if chosen == button_index {
        assert(c.subrange(62, c.len() as int) =~= "active"@);
    }
}

/// Law: the labels of the index names: "Podcast Index" for "podcast_index",
/// "iTunes" for "itunes", "Unknown" for any other name.
pub proof fn index_labels(index: Seq<char>)
    ensures
        index == "podcast_index"@ ==> index_label(index) == "Podcast Index"@,
        index == "itunes"@ ==> index_label(index) == "iTunes"@,
        !known_index(index) ==> index_label(index) == "Unknown"@,
        default_index() == "podcast_index"@,
{
    reveal_strlit("podcast_index");
    reveal_strlit("itunes");
    assert("podcast_index"@.len() != "itunes"@.len());
}

/// The state that the search bar keeps.
pub struct SearchBarState {
    pub podcast_value: String,
    pub search_index: String,
    pub dropdown_open: bool,
    pub mobile_dropdown_open: bool,
}

/// What a click on the search button asks for.
#[derive(Clone, Copy, Debug, PartialEq, Eq, Structural)]
pub enum SearchClick {
    /// Open or close the mobile dropdown (now open when the flag is true).
    ToggleMobileDropdown(bool),
    /// Run the search.
    Submit,
}

impl SearchBarState {
    /// The search bar as it first shows: no text, the Podcast Index chosen,
    /// both dropdowns closed.
    pub fn new() -> (r: SearchBarState)
        ensures
            r.podcast_value@ == Seq::<char>::empty(),
            r.search_index@ == default_index(),
            r.search_index@ == "podcast_index"@,
            r.index_is_known(),
            !r.dropdown_open,
            !r.mobile_dropdown_open,
    {
        SearchBarState {
            podcast_value: String::new(),
            search_index: String::from_str("podcast_index"),
            dropdown_open: false,
            mobile_dropdown_open: false,
        }
    }

    /// The chosen index is one of the two the bar offers.
    pub open spec fn index_is_known(&self) -> bool {
        known_index(self.search_index@)
    }

    /// The text field changed.
    pub fn set_input(&mut self, value: String)
        ensures
            final(self).podcast_value@ == value@,
            old(self).index_is_known() ==> final(self).index_is_known(),
            final(self).search_index@ == old(self).search_index@,
            final(self).dropdown_open == old(self).dropdown_open,
            final(self).mobile_dropdown_open == old(self).mobile_dropdown_open,
    {
        self.podcast_value = value;
    }

    /// A click on the index dropdown's button.
    pub fn toggle_dropdown(&mut self)
        ensures
            final(self).dropdown_open == !old(self).dropdown_open,
            old(self).index_is_known() ==> final(self).index_is_known(),
            final(self).podcast_value@ == old(self).podcast_value@,
            final(self).search_index@ == old(self).search_index@,
            final(self).mobile_dropdown_open == old(self).mobile_dropdown_open,
    {
        self.dropdown_open = !self.dropdown_open;
    }

    /// An index was chosen from the dropdown, which offers "itunes" and
    /// "podcast_index": it becomes the search index and the index dropdown
    /// closes.
    pub fn select_index(&mut self, category: &str)
        requires
            known_index(category@),
        ensures
            final(self).index_is_known(),
            final(self).search_index@ == category@,
            !final(self).dropdown_open,
            final(self).podcast_value@ == old(self).podcast_value@,
            final(self).mobile_dropdown_open == old(self).mobile_dropdown_open,
    {
        self.search_index = category.to_owned();
        self.dropdown_open = false;
    }

    /// A click on the search button. On a narrow window (`is_narrow`, under
    /// 768 pixels) it opens or closes the mobile dropdown; otherwise it
    /// submits the search.
    pub fn click_search(&mut self, is_narrow: bool) -> (r: SearchClick)
        ensures
            r == (if is_narrow {
                SearchClick::ToggleMobileDropdown(!old(self).mobile_dropdown_open)
            } else {
                SearchClick::Submit
            }),
            final(self).mobile_dropdown_open == (if is_narrow {
                !old(self).mobile_dropdown_open
            } else {
                old(self).mobile_dropdown_open
            }),
            final(self).podcast_value@ == old(self).podcast_value@,
            final(self).search_index@ == old(self).search_index@,
            final(self).dropdown_open == old(self).dropdown_open,
            old(self).index_is_known() ==> final(self).index_is_known(),
    {
        if is_narrow {
            self.mobile_dropdown_open = !self.mobile_dropdown_open;
            SearchClick::ToggleMobileDropdown(self.mobile_dropdown_open)
        } else {
            SearchClick::Submit
        }
    }

    /// The label of the chosen index.
    pub fn index_display(&self) -> (r: &'static str)
        ensures
            r@ == index_label(self.search_index@),
    {
        search_index_display(self.search_index.as_str())
    }
}

/// What the user does to the search bar, as far as the chosen index goes.
pub enum BarEvent {
    Input,
    ToggleDropdown,
    Select(Seq<char>),
    ClickSearch(bool),
}

/// The chosen index after an event: only choosing an index changes it.
pub open spec fn index_after(index: Seq<char>, event: BarEvent) -> Seq<char> {
    match event {
        BarEvent::Select(category) => category,
        _ => index,
    }
}

/// The chosen index after a sequence of events, from the bar's first state.
pub open spec fn index_after_all(events: Seq<BarEvent>) -> Seq<char>
    decreases events.len(),
{
    if events.len() == 0 {
        default_index()
    } else {
        index_after(index_after_all(events.drop_last()), events.last())
    }
}

/// Law: whatever the user does, choosing only among the dropdown's two
/// entries, the chosen index stays "podcast_index" or "itunes", and the
/// button reads "Podcast Index" or "iTunes", never "Unknown".
pub proof fn search_index_always_known(events: Seq<BarEvent>)
    requires
        forall|k: int| 0 <= k < events.len() ==> (#[trigger] events[k] matches BarEvent::Select(c)
            ==> known_index(c)),
    ensures
        known_index(index_after_all(events)),
        index_label(index_after_all(events)) == "Podcast Index"@ || index_label(index_after_all(events))
            == "iTunes"@,
        index_label(index_after_all(events)) != "Unknown"@,
    decreases events.len(),
{
    reveal_strlit("Podcast Index");
    reveal_strlit("iTunes");
    reveal_strlit("Unknown");
    if events.len() > 0 {
        let rest = events.drop_last();
        assert forall|k: int| 0 <= k < rest.len() implies (#[trigger] rest[k] matches BarEvent::Select(c)
            ==> known_index(c)) by {
            assert(rest[k] == events[k]);
        }
        search_index_always_known(rest);
        assert(events[events.len() - 1] == events.last());
    }
    assert("Podcast Index"@.len() != "Unknown"@.len());
    assert("iTunes"@.len() != "Unknown"@.len());
}

/// The label shown for a search index name: "Podcast Index", "iTunes", or
/// "Unknown" for any other name.
pub fn search_index_display(index: &str) -> (r: &'static str)
    ensures
        r@ == index_label(index@),
{
    if str_equal(index, "podcast_index") {
        "Podcast Index"
    } else if str_equal(index, "itunes") {
        "iTunes"
    } else {
        "Unknown"
    }
}

/// The class of a mobile index button, `left` for the button with the left
/// rounded corner.
pub fn search_index_button_class(chosen: &str, button_index: &str, left: bool) -> (r: String)
    ensures
        r@ == index_button_class(chosen@, button_index@, left),
{
    let base = if left {
        "px-4 py-2 text-sm font-medium rounded-l-lg search-drop-button "
    } else {
        "px-4 py-2 text-sm font-medium rounded-r-lg search-drop-button "
    };
    let state = if str_equal(chosen, button_index) {
        "active"
    } else {
        ""
    };
    concat(base, state)
}

/// The part of the application state that a search changes.
pub struct SearchStore<R> {
    pub is_loading: Option<bool>,
    pub search_results: Option<R>,
    pub podcast_added: Option<bool>,
}

/// Where a search stands.
#[derive(Clone, Copy, Debug, PartialEq, Eq, Structural)]
pub enum SearchStep {
    Start,
    TestingConnection,
    Searching,
    Done,
}

/// What comes back to a search.
pub enum SearchEvent<R> {
    /// The search was submitted.
    Submitted,
    /// The server connection test ended, with its error as displayed.
    ConnectionTested(Result<(), String>),
    /// The search ended, with its results when it succeeded.
    SearchFinished(Option<R>),
}

/// What a submitted search looks for, and where.
pub struct SearchQuery {
    /// The typed text.
    pub term: String,
    /// The chosen search index.
    pub index: String,
    /// The address of the server's API.
    pub api_url: String,
}

/// The search that a submission starts: the bar's typed text and chosen
/// index, on the server whose API address is given. Submitting without a
/// server panics.
pub fn search_query(bar: &SearchBarState, api_url: &Option<String>) -> (r: SearchQuery)
    requires
        api_url is Some,
    ensures
        r.term@ == bar.podcast_value@,
        r.index@ == bar.search_index@,
        r.api_url@ == api_url->0@,
{
    let url = match api_url {
        Some(u) => u.clone(),
        None => String::new(),
    };
    SearchQuery { term: bar.podcast_value.clone(), index: bar.search_index.clone(), api_url: url }
}

fn copy_query(q: &SearchQuery) -> (r: SearchQuery)
    ensures
        r.term@ == q.term@,
        r.index@ == q.index@,
        r.api_url@ == q.api_url@,
{
    SearchQuery { term: q.term.clone(), index: q.index.clone(), api_url: q.api_url.clone() }
}

/// What the search asks the application to do next.
pub enum SearchCommand {
    /// Test the connection to the server at this API address.
    TestConnection(String),
    /// Search this index for this text on this server.
    RunSearch(SearchQuery),
    /// Show the results page at this route.
    Navigate(String),
    /// Write this line to the console.
    Log(String),
    /// Nothing more.
    Nothing,
}

/// The route of the results page.
pub open spec fn results_route() -> Seq<char> {
    "/pod_layout"@
}

/// The next step of the search `query` after `event`:
/// - submitted at the start, it starts loading and tests the connection to
///   the query's server;
/// - a connection that works leads to the search of the query's index for
///   its text on that server; one that fails stops
///   loading and logs the error;
/// - results are stored with the podcast not yet added, loading stops, and
///   the results page opens; a failed search only stops loading;
/// - any other event at any other step changes nothing.
pub fn search_advance<R>(
    query: &SearchQuery,
    step: SearchStep,
    event: SearchEvent<R>,
    store: &mut SearchStore<R>,
) -> (r: (
    SearchStep,
    SearchCommand,
))
    ensures
        match (step, event) {
            (SearchStep::Start, SearchEvent::Submitted) => {
                &&& r.0 == SearchStep::TestingConnection
                &&& r.1 matches SearchCommand::TestConnection(url) && url@ == query.api_url@
                &&& final(store).is_loading == Some(true)
                &&& final(store).search_results == old(store).search_results
                &&& final(store).podcast_added == old(store).podcast_added
            },
            (SearchStep::TestingConnection, SearchEvent::ConnectionTested(Ok(()))) => {
                &&& r.0 == SearchStep::Searching
                &&& r.1 matches SearchCommand::RunSearch(q) && q.term@ == query.term@
                    && q.index@ == query.index@ && q.api_url@ == query.api_url@
                &&& *final(store) == *old(store)
            },
            (SearchStep::TestingConnection, SearchEvent::ConnectionTested(Err(e))) => {
                &&& r.0 == SearchStep::Done
                &&& r.1 matches SearchCommand::Log(line) && line@ == "Error testing connection: "@ + e@
                &&& final(store).is_loading == Some(false)
                &&& final(store).search_results == old(store).search_results
                &&& final(store).podcast_added == old(store).podcast_added
            },
            (SearchStep::Searching, SearchEvent::SearchFinished(Some(results))) => {
                &&& r.0 == SearchStep::Done
                &&& r.1 matches SearchCommand::Navigate(route) && route@ == results_route() && route@ == "/pod_layout"@
                &&& final(store).is_loading == Some(false)
                &&& final(store).search_results == Some(results)
                &&& final(store).podcast_added == Some(false)
            },
            (SearchStep::Searching, SearchEvent::SearchFinished(None)) => {
                &&& r.0 == SearchStep::Done
                &&& r.1 is Nothing
                &&& final(store).is_loading == Some(false)
                &&& final(store).search_results == old(store).search_results
                &&& final(store).podcast_added == old(store).podcast_added
            },
            _ => {
                &&& r.0 == step
                &&& r.1 is Nothing
                &&& *final(store) == *old(store)
            },
        },
{
    match step {
        SearchStep::Start => match event {
            SearchEvent::Submitted => {
                store.is_loading = Some(true);
                (SearchStep::TestingConnection, SearchCommand::TestConnection(query.api_url.clone()))
            },
            _ => (step, SearchCommand::Nothing),
        },
        SearchStep::TestingConnection => match event {
            SearchEvent::ConnectionTested(Ok(())) => (SearchStep::Searching, SearchCommand::RunSearch(copy_query(query))),
            SearchEvent::ConnectionTested(Err(e)) => {
                store.is_loading = Some(false);
                let line = concat("Error testing connection: ", e.as_str());
                (SearchStep::Done, SearchCommand::Log(line))
            },
            _ => (step, SearchCommand::Nothing),
        },
        SearchStep::Searching => match event {
            SearchEvent::SearchFinished(Some(results)) => {
                store.search_results = Some(results);
                store.podcast_added = Some(false);
                store.is_loading = Some(false);
                (SearchStep::Done, SearchCommand::Navigate(String::from_str("/pod_layout")))
            },
            SearchEvent::SearchFinished(None) => {
                store.is_loading = Some(false);
                (SearchStep::Done, SearchCommand::Nothing)
            },
            _ => (step, SearchCommand::Nothing),
        },
        SearchStep::Done => (step, SearchCommand::Nothing),
    }
}

} // verus!
