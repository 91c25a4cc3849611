//! The control plane: every request of a client, answered by the hub.
//!
//! A failure is answered as an [`ErrorStatus`]: the category of the error,
//! its text, and its code in four bytes.

use vstd::prelude::*;
use crate::abi::{
    CheckTarRequest, CheckTarResponse, ClearDirRequest, ClearDirResponse, ClearTarDirRequest,
    ClearTarDirResponse, DownloadTarData, DownloadTarRequest, DownloadTarResponse,
    ReplaceTextRequest, UnTarRequest, UploadTarData, UploadTarRequest, UploadTarResponse,
};
use crate::error::ErrorStatus;
use crate::server::{
    download_ticket, replacement, upload_ticket, MyPluginHub, Probe, UnTarPlan,
};
use crate::text_replace::{sources, writes, FileWrite, SourceFile};
use crate::token::is_token;

verus! {

/// Answers whether an archive is stored and unpacked into a directory.
/// `archive_on_disk` and `dir_on_disk` say whether the archive's file and
/// the directory are on disk.
pub fn check_tar(
    hub: &MyPluginHub,
    request: CheckTarRequest,
    archive_on_disk: bool,
    dir_on_disk: bool,
) -> (r: Result<CheckTarResponse, ErrorStatus>)
    ensures
        match hub@.state.checked(
            request.tar_hash@,
            request.file_path@,
            archive_on_disk,
            dir_on_disk,
        ) {
            Ok(_) => r is Ok,
            Err(e) => r matches Err(status) && status@ == e.status(),
        },
{
    match hub.check_tar_dir(
        request.tar_hash.as_str(),
        request.file_path.as_str(),
        archive_on_disk,
        dir_on_disk,
    ) {
        Ok(()) => Ok(CheckTarResponse::success()),
        Err(e) => Err(e.status()),
    }
}

/// Announces an upload at the time `now` and answers with the token under
/// which the bytes are to be sent.
pub fn upload_tar(hub: &mut MyPluginHub, request: UploadTarRequest, now: u64) -> (r: Result<
    UploadTarResponse,
    ErrorStatus,
>)
    ensures
        r matches Ok(response) && response.url() matches Some(token) && is_token(token)
            && final(hub)@ == old(hub)@.with_uploads(
            old(hub)@.state.uploads.insert(token, upload_ticket(request, now)),
        ),
{
    match hub.generate_upload_url(request, now) {
        Ok(reply) => Ok(UploadTarResponse::success(Some(UploadTarData { upload_url: reply }))),
        Err(e) => Err(e.status()),
    }
}

/// Announces a download at the time `now` and answers with the token under
/// which the bytes are to be fetched.
pub fn download_tar(hub: &mut MyPluginHub, request: DownloadTarRequest, now: u64) -> (r: Result<
    DownloadTarResponse,
    ErrorStatus,
>)
    ensures
        r matches Ok(response) && response.url() matches Some(token) && is_token(token)
            && final(hub)@ == old(hub)@.with_downloads(
            old(hub)@.state.downloads.insert(token, download_ticket(request, now)),
        ),
{
    match hub.generate_download_url(request, now) {
        Ok(reply) => Ok(
            DownloadTarResponse::success(Some(DownloadTarData { download_url: reply })),
        ),
        Err(e) => Err(e.status()),
    }
}

/// Decides on the unpacking that a client asks for. `probe` says whether
/// the target directory exists and whether the archive's file is on disk.
pub fn un_tar(hub: &MyPluginHub, request: UnTarRequest, probe: Probe) -> (r: Result<
    UnTarPlan,
    ErrorStatus,
>)
    ensures
        match hub@.extraction(
            request.tar_hash@,
            request.target_dir@,
            request.overwrite == Some(true),
            probe,
        ) {
            Ok(plan) => r matches Ok(p) && p@ == plan,
            Err(e) => r matches Err(status) && status@ == e.status(),
        },
{
    let overwrite = match request.overwrite {
        Some(b) => b,
        None => false,
    };
    match hub.un_tar_to_dir(
        request.tar_hash.as_str(),
        request.target_dir.as_str(),
        overwrite,
        probe,
    ) {
        Ok(plan) => Ok(plan),
        Err(e) => Err(e.status()),
    }
}

/// Decides what the replacement that a client asks for writes. `tree`
/// holds the files that the walk of the target directory has visited, or
/// nothing where that directory does not exist.
pub fn replace_text(
    hub: &MyPluginHub,
    request: ReplaceTextRequest,
    tree: Option<&Vec<SourceFile>>,
) -> (r: Result<Vec<FileWrite>, ErrorStatus>)
    ensures
        match replacement(
            hub@.config.base_dir,
            request,
            match tree {
                Some(files) => Some(sources(files@)),
                None => None,
            },
        ) {
            Ok(list) => r matches Ok(out) && writes(out@) == list,
            Err(e) => r matches Err(status) && status@ == e.status(),
        },
{
    match hub.text_replace_by_request(request, tree) {
        Ok(out) => Ok(out),
        Err(e) => Err(e.status()),
    }
}

/// Reserved: whatever is asked, the request succeeds with the empty answer,
/// and nothing is cleared.
pub fn clear_tar_dir(_request: ClearTarDirRequest) -> (r: Result<ClearTarDirResponse, ErrorStatus>)
    ensures
        r == Ok::<ClearTarDirResponse, ErrorStatus>(ClearTarDirResponse {  }),
{
    Ok(ClearTarDirResponse::success())
}

/// Reserved: whatever is asked, the request succeeds with the empty answer,
/// and nothing is cleared.
pub fn clear_dir(_request: ClearDirRequest) -> (r: Result<ClearDirResponse, ErrorStatus>)
    ensures
        r == Ok::<ClearDirResponse, ErrorStatus>(ClearDirResponse {  }),
{
    Ok(ClearDirResponse::success())
}

} // verus!
