//! The decisions behind a podcast client's episode components: what the
//! context menu offers, how the library lists change when a request comes
//! back, the steps of a local download, the search bar's state and how an
//! episode row is laid out.

pub mod completion;
pub mod episode;
pub mod episode_item;
pub mod library;
pub mod local_download;
pub mod menu;
pub mod search;
pub mod text;
