//! Response status codes used by the sync server.

use vstd::prelude::*;

verus! {

pub const SUCCESS: i32 = 1;

pub const NO_UPDATE: i32 = 6;

pub const SUCCESS_ALT: i32 = 200;

pub const PARAM_ERROR: i32 = 305;

pub const NOTE_SAVE_FAIL: i32 = 433;

pub const CONTENT_CONFLICT: i32 = 441;

pub const UPLOAD_SESSION_INVALID: i32 = 463;

pub const SYNC_CONFLICT: i32 = 490;

} // verus!
