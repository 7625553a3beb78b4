//! A music player's core: the library of tracks, the playback state machine,
//! the view model, audio-configuration negotiation, the decisions of the
//! audio engine and the user-interface wiring.

pub mod time;
pub mod text;
pub mod library;
pub mod event;
pub mod error;
pub mod player;
pub mod view_model;
pub mod audio;
pub mod scan;
pub mod ui;

pub use audio::command::Command;
pub use audio::error::{AudioError, HandleError};
pub use error::CoreError;
pub use event::Event;
pub use library::{AlbumId, Library, Track, TrackId, TrackRow};
pub use player::Player;
pub use scan::{FakeScanner, FilesystemScanner, ScanError};
pub use time::Duration;
pub use ui::handle::PlayerHandle;
pub use ui::pick::PickState;
pub use view_model::ViewModel;
