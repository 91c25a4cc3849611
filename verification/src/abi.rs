//! The records of the control plane: what a client asks and what it is answered.

use vstd::prelude::*;

verus! {

/// Asks whether an archive is stored and unpacked into a directory.
#[derive(Debug, Clone)]
pub struct CheckTarRequest {
    pub tar_hash: String,
    pub file_path: String,
}

/// Asks to unpack a stored archive into a directory.
#[derive(Debug, Clone)]
pub struct UnTarRequest {
    pub tar_hash: String,
    pub target_dir: String,
    pub overwrite: Option<bool>,
}

/// Announces the upload of an archive, and what to unpack it into afterwards.
#[derive(Debug, Clone)]
pub struct UploadTarRequest {
    pub tar_hash: String,
    pub un_tar: Option<UnTarRequest>,
}

/// Announces the download of an archive.
#[derive(Debug, Clone)]
pub struct DownloadTarRequest {
    pub tar_hash: String,
}

/// Asks to replace a text in the files of a directory that have one of the suffixes.
#[derive(Debug, Clone)]
pub struct ReplaceTextRequest {
    pub target_dir: String,
    pub old_text: String,
    pub new_text: String,
    pub suffix: Vec<String>,
}

/// Asks to clear a directory. Reserved.
#[derive(Debug, Clone, Copy)]
pub struct ClearDirRequest {}

/// Asks to clear the archive store. Reserved.
#[derive(Debug, Clone, Copy)]
pub struct ClearTarDirRequest {}

/// Where to send the bytes of an announced upload.
#[derive(Debug, Clone)]
pub struct UploadTarData {
    pub upload_url: String,
}

/// Where to fetch the bytes of an announced download.
#[derive(Debug, Clone)]
pub struct DownloadTarData {
    pub download_url: String,
}

/// The answer to a check that succeeded.
#[derive(Debug, Clone, Copy, PartialEq, Eq, Structural)]
pub struct CheckTarResponse {}

/// The answer to an announced upload.
#[derive(Debug, Clone)]
pub struct UploadTarResponse {
    pub data: Option<UploadTarData>,
}

/// The answer to an announced download.
#[derive(Debug, Clone)]
pub struct DownloadTarResponse {
    pub data: Option<DownloadTarData>,
}

/// The answer to an unpacking that succeeded.
#[derive(Debug, Clone, Copy, PartialEq, Eq, Structural)]
pub struct UnTarResponse {}

/// The answer to a replacement that succeeded.
#[derive(Debug, Clone, Copy, PartialEq, Eq, Structural)]
pub struct ReplaceTextResponse {}

/// The answer to a request to clear a directory.
#[derive(Debug, Clone, Copy, PartialEq, Eq, Structural)]
pub struct ClearDirResponse {}

/// The answer to a request to clear the archive store.
#[derive(Debug, Clone, Copy, PartialEq, Eq, Structural)]
pub struct ClearTarDirResponse {}

impl CheckTarResponse {
    /// The empty answer.
    pub fn new() -> (r: Self)
        ensures
            r == (CheckTarResponse {  }),
    {
        CheckTarResponse {  }
    }

    /// The answer to a request that succeeded.
    pub fn success() -> (r: Self)
        ensures
            r == (CheckTarResponse {  }),
    {
        Self::new()
    }
}

impl UnTarResponse {
    /// The empty answer.
    pub fn new() -> (r: Self)
        ensures
            r == (UnTarResponse {  }),
    {
        UnTarResponse {  }
    }

    /// The answer to a request that succeeded.
    pub fn success() -> (r: Self)
        ensures
            r == (UnTarResponse {  }),
    {
        Self::new()
    }
}

impl ReplaceTextResponse {
    /// The empty answer.
    pub fn new() -> (r: Self)
        ensures
            r == (ReplaceTextResponse {  }),
    {
        ReplaceTextResponse {  }
    }

    /// The answer to a request that succeeded.
    pub fn success() -> (r: Self)
        ensures
            r == (ReplaceTextResponse {  }),
    {
        Self::new()
    }
}

impl ClearDirResponse {
    /// The empty answer.
    pub fn new() -> (r: Self)
        ensures
            r == (ClearDirResponse {  }),
    {
        ClearDirResponse {  }
    }

    /// The answer to a request that succeeded.
    pub fn success() -> (r: Self)
        ensures
            r == (ClearDirResponse {  }),
    {
        Self::new()
    }
}

impl ClearTarDirResponse {
    /// The empty answer.
    pub fn new() -> (r: Self)
        ensures
            r == (ClearTarDirResponse {  }),
    {
        ClearTarDirResponse {  }
    }

    /// The answer to a request that succeeded.
    pub fn success() -> (r: Self)
        ensures
            r == (ClearTarDirResponse {  }),
    {
        Self::new()
    }
}

impl UploadTarResponse {
    /// The text of the upload url that the response carries, if it carries one.
    pub open spec fn url(&self) -> Option<Seq<char>> {
        match self.data {
            Some(d) => Some(d.upload_url@),
            None => None,
        }
    }

    /// An answer that carries `data`.
    pub fn new(data: Option<UploadTarData>) -> (r: Self)
        ensures
            r.data == data,
    {
        UploadTarResponse { data }
    }

    /// The answer to a request that succeeded, with its `data`.
    pub fn success(data: Option<UploadTarData>) -> (r: Self)
        ensures
            r.data == data,
    {
        Self::new(data)
    }
}

impl DownloadTarResponse {
    /// The text of the download url that the response carries, if it carries one.
    pub open spec fn url(&self) -> Option<Seq<char>> {
        match self.data {
            Some(d) => Some(d.download_url@),
            None => None,
        }
    }

    /// An answer that carries `data`.
    pub fn new(data: Option<DownloadTarData>) -> (r: Self)
        ensures
            r.data == data,
    {
        DownloadTarResponse { data }
    }

    /// The answer to a request that succeeded, with its `data`.
    pub fn success(data: Option<DownloadTarData>) -> (r: Self)
        ensures
            r.data == data,
    {
        Self::new(data)
    }
}

} // verus!
