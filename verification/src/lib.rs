//! The logic of the PBUI desktop companion: a catalog of bundled playlists, and
//! the three calls that read, update and reset the progress state kept by the
//! remote service.
//!
//! Nothing here touches the network. The remote commands come in two halves:
//! one describes the call to make, the other reads what came back.

pub mod bundle;
pub mod catalog;
pub mod json;
pub mod requests;
