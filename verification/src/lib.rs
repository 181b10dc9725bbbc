//! Decision core of a media-session player backend.
//!
//! The host platform reports the currently playing media session through
//! native calls that may fail, may find no session at all, and speak in native
//! codes, ticks and UTF-16 text. This crate holds everything that is decided
//! about those reports: which native call comes next, what its outcome means,
//! and which stable value or error the consumer gets. It performs no native
//! call itself; a host runs the calls and hands their outcomes in.
//!
//! - [`player`]: the backend, which exists only where the platform's session
//!   manager was acquired, and from which every query starts.
//! - [`native`]: the native calls that a query can ask for and the replies
//!   that a host can give.
//! - [`queries`]: metadata, playback status, position, name and progress,
//!   each as a state machine over requests and replies.
//! - [`status`], [`metadata`], [`progress`], [`text`], [`error`]: the values
//!   that consumers get and how they come from native ones.
//! - [`events`]: the timer ticks that tell a consumer to query again.
//! - [`steady`], [`laws`]: what the queries come to on a platform that holds
//!   still, with proofs.

pub mod error;
pub mod events;
pub mod laws;
pub mod metadata;
pub mod native;
pub mod player;
pub mod progress;
pub mod queries;
pub mod status;
pub mod steady;
pub mod text;

pub use error::{FetchStage, PlayerError};
pub use events::{EventStream, MissedTicks, PlayerEvent, TimerPlan};
pub use metadata::Metadata;
pub use native::{Reply, Request};
pub use player::Player;
pub use progress::Progress;
pub use queries::metadata::MetadataQuery;
pub use queries::name::NameQuery;
pub use queries::position::PositionQuery;
pub use queries::progress::ProgressQuery;
pub use queries::properties::PropertiesQuery;
pub use queries::status::StatusQuery;
pub use queries::Step;
pub use status::PlaybackStatus;
