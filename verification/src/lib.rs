//! Verified core of a weather station that updates its firmware over the
//! air.
//!
//! The publisher side turns a firmware image into the response that
//! announces and carries it ([`advert`], [`checksum`], [`decimal`]). The
//! agent side reads the announcement back ([`header`], [`text`]) and runs
//! the update as a state machine that decides, event by event, what its
//! driver has to do next ([`session`], [`outcome`]); [`trace`] states what
//! holds of whole update attempts. The small rules of the sensor side live
//! in [`pulse`], [`rain`] and [`wind`].

pub mod advert;
pub mod checksum;
pub mod decimal;
pub mod header;
pub mod outcome;
pub mod pulse;
pub mod rain;
pub mod session;
pub mod text;
pub mod trace;
pub mod wind;
