//! Handles of user-generated content files and the result of downloading one.
use vstd::prelude::*;

use std::string::FromUtf8Error;

use crate::ids::{AppId, SteamId};
use crate::string_ext::{
    nul_prefix, string_from_nul_terminated_c_chars, unsigned_bytes, utf8_decoding,
};

verus! {

/// The native value that marks "no file".
pub const UGC_HANDLE_INVALID: u64 = 0xffff_ffff_ffff_ffff;

/// The handle of a user-generated content file.
#[derive(Debug, Copy, Clone, Hash, PartialEq, Eq, Structural, PartialOrd, Ord)]
pub struct UgcHandle(u64);

impl UgcHandle {
    pub closed spec fn value(self) -> u64 {
        self.0
    }

    /// The handle of a native value, or `None` for the invalid handle.
    pub fn from_inner(handle: u64) -> (r: Option<UgcHandle>)
        ensures
            r is None <==> handle == UGC_HANDLE_INVALID,
            r matches Some(h) ==> h.value() == handle,
    {
        if handle == UGC_HANDLE_INVALID {
            None
        } else {
            Some(UgcHandle(handle))
        }
    }

    pub fn as_u64(self) -> (r: u64)
        ensures
            r == self.value(),
    {
        self.0
    }
}

/// A finished download of a user-generated content file.
#[derive(Debug, Clone, Hash, PartialEq, Eq, PartialOrd, Ord)]
pub struct DownloadUGCResult {
    app_id: AppId,
    size_in_bytes: i32,
    filename: String,
    steam_id_owner: SteamId,
}

impl DownloadUGCResult {
    pub closed spec fn spec_app_id(&self) -> u32 {
        self.app_id.0
    }

    pub closed spec fn spec_size_in_bytes(&self) -> i32 {
        self.size_in_bytes
    }

    pub closed spec fn spec_filename(&self) -> Seq<char> {
        self.filename@
    }

    pub closed spec fn spec_owner(&self) -> u64 {
        self.steam_id_owner.value()
    }

    /// The result of a download response: its application, size, file name
    /// buffer (nul-terminated UTF-8) and owner. Fails when the file name is
    /// not valid UTF-8.
    pub fn from_response(app_id: u32, size_in_bytes: i32, filename: &[i8], owner: u64) -> (r:
        Result<DownloadUGCResult, FromUtf8Error>)
        ensures
            r is Ok <==> utf8_decoding(nul_prefix(unsigned_bytes(filename@))) is Some,
            r matches Ok(d) ==> utf8_decoding(nul_prefix(unsigned_bytes(filename@))) == Some(
                d.spec_filename(),
            ) && d.spec_app_id() == app_id && d.spec_size_in_bytes() == size_in_bytes
                && d.spec_owner() == owner,
    {
        match string_from_nul_terminated_c_chars(filename) {
            Ok(name) => Ok(
                DownloadUGCResult {
                    app_id: AppId::new(app_id),
                    size_in_bytes,
                    filename: name,
                    steam_id_owner: SteamId::new(owner),
                },
            ),
            Err(e) => Err(e),
        }
    }
}

} // verus!
