//! Owning handles over the native CD-ROM audio interface: drive status,
//! playback results and the lifecycle of an open drive.
pub mod cd;
pub mod ll;
