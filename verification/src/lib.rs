//! Verified core of the Volumio evo plugins: the MPD playback warden
//! (protocol, field projection, supervisor decisions, custody bookkeeping),
//! the local metadata respondent and the local artwork respondent.
//!
//! Everything here is plain computation with contracts checked by Verus.
//! Sockets, timers, the file system, tag reading and JSON live in the
//! companion application, which feeds these functions what it observed.

pub mod text;
pub mod span;
pub mod keyed;
pub mod contract;

pub mod mpd_error;
pub mod mpd_types;
pub mod mpd_version;
pub mod mpd_fields;
pub mod mpd_protocol;
pub mod mpd_framing;
pub mod mpd_commands;
pub mod mpd_endpoint;

pub mod backoff;
pub mod playback_error;
pub mod supervisor;
pub mod report;
pub mod playback_plugin;

pub mod requests;
pub mod artwork_resolve;
pub mod artwork_plugin;
pub mod metadata_query;
