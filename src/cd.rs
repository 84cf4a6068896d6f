//! Drive status, playback results and the owning handle of an open drive.
use vstd::prelude::*;

use crate::ll::{CDstatus, CD_ERROR, CD_PAUSED, CD_PLAYING, CD_STOPPED, CD_TRAYEMPTY};

verus! {

/// The state of a drive, one of the five that the native layer reports.
#[derive(Clone, Copy, Debug, PartialEq, Eq, Structural)]
pub enum Status {
    TrayEmptyStatus,
    StoppedStatus,
    PlayingStatus,
    PausedStatus,
    ErrorStatus,
}

/// The status that a native status code stands for. A code outside the five
/// defined ones stands for the error state.
pub open spec fn status_of_code(code: int) -> Status {
    if code == CD_TRAYEMPTY as int {
        Status::TrayEmptyStatus
    } else if code == CD_STOPPED as int {
        Status::StoppedStatus
    } else if code == CD_PLAYING as int {
        Status::PlayingStatus
    } else if code == CD_PAUSED as int {
        Status::PausedStatus
    } else {
        Status::ErrorStatus
    }
}

/// The native code of each status.
pub open spec fn code_of_status(s: Status) -> int {
    match s {
        Status::TrayEmptyStatus => CD_TRAYEMPTY as int,
        Status::StoppedStatus => CD_STOPPED as int,
        Status::PlayingStatus => CD_PLAYING as int,
        Status::PausedStatus => CD_PAUSED as int,
        Status::ErrorStatus => CD_ERROR as int,
    }
}

impl Status {
    /// Maps a native status code to its status; unknown codes give
    /// `ErrorStatus`.
    pub fn from_code(code: CDstatus) -> (r: Status)
        ensures
            r == status_of_code(code as int),
    {
        if code == CD_TRAYEMPTY {
            Status::TrayEmptyStatus
        } else if code == CD_STOPPED {
            Status::StoppedStatus
        } else if code == CD_PLAYING {
            Status::PlayingStatus
        } else if code == CD_PAUSED {
            Status::PausedStatus
        } else {
            Status::ErrorStatus
        }
    }

    /// The native code of this status.
    pub fn code(&self) -> (r: CDstatus)
        ensures
            r as int == code_of_status(*self),
    {
        match self {
            Status::TrayEmptyStatus => CD_TRAYEMPTY,
            Status::StoppedStatus => CD_STOPPED,
            Status::PlayingStatus => CD_PLAYING,
            Status::PausedStatus => CD_PAUSED,
            Status::ErrorStatus => CD_ERROR,
        }
    }
}

/// Each status survives the trip through its native code.
pub proof fn status_code_round_trip(s: Status)
    ensures
        status_of_code(code_of_status(s)) == s,
{
}

/// A code other than the five defined ones maps to the error state.
pub proof fn unknown_code_is_error(code: int)
    requires
        code != CD_TRAYEMPTY as int,
        code != CD_STOPPED as int,
        code != CD_PLAYING as int,
        code != CD_PAUSED as int,
        code != CD_ERROR as int,
    ensures
        status_of_code(code) == Status::ErrorStatus,
{
}

/// Whether a playback call (play, play tracks, pause, resume, stop)
/// succeeded, from the code the native call returned: only zero is success.
pub fn call_succeeded(code: i32) -> (r: bool)
    ensures
        r <==> code == 0,
{
    code == 0
}

/// The owner of one open drive: a non-null native handle. The handle is
/// given back for closing only by consuming the owner, so an owner closes it
/// at most once and is never used afterwards. That one owner holds a given
/// handle rests on the caller, who passes each handle from the native open
/// to `open` (or `wrap_cd`) once.
#[derive(PartialEq, Eq, Structural)]
pub struct CD {
    raw: usize,
}

impl CD {
    #[verifier::type_invariant]
    spec fn non_null(self) -> bool {
        self.raw != 0
    }

    /// The native handle this value owns.
    pub closed spec fn handle(self) -> usize {
        self.raw
    }

    /// Takes the outcome of the native open of a drive: the handle it
    /// returned (0 when it failed) and the native last-error text. A null
    /// handle gives an error with a message: that text, or a fixed
    /// description when the text is empty. Any other handle is owned by the
    /// result.
    pub fn open(raw: usize, last_error: String) -> (r: Result<CD, String>)
        ensures
            r is Err <==> raw == 0,
            r matches Ok(cd) ==> cd.handle() == raw,
            r matches Err(e) ==> e@.len() > 0,
            r matches Err(e) ==> (last_error@.len() > 0 ==> e@ == last_error@),
    {
        if raw == 0 {
            if last_error.as_str().unicode_len() == 0 {
                proof {
                    reveal_strlit("could not open the drive");
                }
                Err(String::from_str("could not open the drive"))
            } else {
                Err(last_error)
            }
        } else {
            Ok(wrap_cd(raw))
        }
    }

    /// The native handle, for a native call on the open drive.
    pub fn raw(&self) -> (r: usize)
        ensures
            r == self.handle(),
            r != 0,
    {
        proof {
            use_type_invariant(self);
        }
        self.raw
    }

    /// Gives up ownership of the handle so that it can be closed; the owner
    /// is consumed and cannot be used again.
    pub fn release(self) -> (r: usize)
        ensures
            r == self.handle(),
            r != 0,
    {
        proof {
            use_type_invariant(&self);
        }
        self.raw
    }
}

/// Wraps a non-null native handle in its owner.
pub fn wrap_cd(raw: usize) -> (r: CD)
    requires
        raw != 0,
    ensures
        r.handle() == raw,
{
    CD { raw }
}

} // verus!
