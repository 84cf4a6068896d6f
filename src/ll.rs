//! The native CD-ROM layer's status codes and record shapes.
use vstd::prelude::*;

verus! {

/// A drive status as the native layer reports it.
pub type CDstatus = i32;

pub const CD_TRAYEMPTY: CDstatus = 0;

pub const CD_STOPPED: CDstatus = 1;

pub const CD_PLAYING: CDstatus = 2;

pub const CD_PAUSED: CDstatus = 3;

pub const CD_ERROR: CDstatus = -1;

/// The native layer's record of one track on a disc.
#[allow(non_camel_case_types)]
#[derive(Clone, Copy)]
pub struct SDL_CDtrack {
    pub id: u8,
    pub _type: u8,
    pub unused: u16,
    pub length: u32,
    pub offset: u32,
}

/// The native layer's record of an open drive: its id, status, and up to a
/// hundred tracks. The native layer owns and fills it.
#[allow(non_camel_case_types)]
#[derive(Clone, Copy)]
pub struct SDL_CD {
    pub id: i32,
    pub status: CDstatus,
    pub numtracks: i32,
    pub cur_track: i32,
    pub cur_frame: i32,
    pub track: [SDL_CDtrack; 100],
}

} // verus!
