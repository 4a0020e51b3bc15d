# podcast_ui

The decisions behind a podcast client's episode components, verified with
Verus, and the Yew components that use them.

- `src/` is the verified library:
  - `text`: string comparison and decimal notation of integers;
  - `episode`: episode records, the episode trait, component properties;
  - `completion`: the completed-episode list and how completion requests
    toggle it;
  - `library`: episode actions, the requests they send and how replies change
    the application and interface state;
  - `local_download`: the steps of downloading an episode to the device;
  - `menu`: the context button's dropdown entries per page;
  - `search`: the search bar's state and the steps of a search;
  - `episode_item`: the layout of an episode row and the show-notes selection.
- `app/` holds the Yew components, the stores and the service interface
  through which the components reach the server and the device.
- `tests/` runs the library on concrete values.
