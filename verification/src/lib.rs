//! Metadata aggregation for music tracks: the shared record, the query each
//! source understands, and the rules for combining what the sources return.

pub mod configuration;
pub mod date;
pub mod deezer;
pub mod error;
pub mod fault;
pub mod jsonb;
pub mod lrclib;
pub mod metadata;
pub mod musicbrainz;
pub mod query;
pub mod sources;
pub mod spotifydb;
pub mod tag;
pub mod text;
pub mod track;

pub use configuration::Configuration;
pub use deezer::Deezer;
pub use error::Error;
pub use lrclib::LRCLib;
pub use metadata::Metadata;
pub use musicbrainz::MusicBrainz;
pub use sources::{MetadataSources, Provider};
pub use spotifydb::SpotifyDB;
pub use track::Track;
