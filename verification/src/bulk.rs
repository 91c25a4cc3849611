//! The bulk plane: what the hub decides when bytes arrive or are fetched
//! under a token, and the status under which a failure is answered.

use vstd::prelude::*;
use vstd::string::*;
use crate::error::{outcome, HubError, HubErrorView};
use crate::file::is_single_name;
use crate::maps::{Ticket, TicketView};
use crate::server::{
    archive_name, open_ticket, temp_path, HubView, MyPluginHub, Probe, UploadStep,
    UploadStepView, UPLOAD_TTL_MS,
};
use crate::strings::str_concat;

verus! {

/// The largest body that an upload may have, in bytes.
pub const BODY_LIMIT: usize = 250 * 1024 * 1024;

/// The stream of a download: the file to send and the headers to send it under.
#[derive(Debug)]
pub struct Download {
    pub path: String,
    pub content_type: String,
    pub content_disposition: String,
}

/// A [`Download`] in contracts.
pub ghost struct DownloadView {
    pub path: Seq<char>,
    pub content_type: Seq<char>,
    pub content_disposition: Seq<char>,
}

impl View for Download {
    type V = DownloadView;

    open spec fn view(&self) -> DownloadView {
        DownloadView {
            path: self.path@,
            content_type: self.content_type@,
            content_disposition: self.content_disposition@,
        }
    }
}

/// The status under which the bulk plane answers a failure: 400 for an
/// invalid path, 404 for a token or an archive that is not there, 500 for anything else.
pub open spec fn status_of(e: HubErrorView) -> u16 {
    match e {
        HubErrorView::InvalidPath(_) => 400,
        HubErrorView::ResourceNotFound => 404,
        HubErrorView::TarNotExist(_) => 404,
        _ => 500,
    }
}

/// The value of the disposition header for the archive with the given hash.
pub open spec fn disposition(hash: Seq<char>) -> Seq<char> {
    "attachment; filename=\""@ + hash + ".tar.gz\""@
}

/// What an upload begins with once its ticket is at hand. An archive that is
/// stored already is not received again: what is left is what the ticket
/// asks for after the upload. Any other archive is received into its
/// temporary file.
pub open spec fn upload_start(hub: HubView, ticket: TicketView, probe: Probe) -> Result<
    UploadStepView,
    HubErrorView,
> {
    if hub.state.stored(ticket.hash, probe.archive_exists) is Ok {
        hub.after_store(ticket, probe)
    } else if !is_single_name(archive_name(ticket.hash)) {
        Err(HubErrorView::InvalidPath(archive_name(ticket.hash)))
    } else {
        Ok(UploadStepView::Receive { temp_path: temp_path(hub.config.tar_dir_path, ticket.hash) })
    }
}

/// The status under which the bulk plane answers a failure.
pub fn http_status(e: &HubError) -> (status: u16)
    ensures
        status == status_of(e@),
{
    match e {
        HubError::InvalidPath(_) => 400,
        HubError::ResourceNotFound => 404,
        HubError::TarNotExist(_) => 404,
        _ => 500,
    }
}

/// Bytes arrive under a token at the time `now`: the ticket under the token
/// is taken out of the registry, and it is answered where it was still open.
/// A second arrival under the token finds nothing.
pub fn accept_upload(hub: &mut MyPluginHub, token: &str, now: u64) -> (r: Result<Ticket, HubError>)
    ensures
        outcome(r) == open_ticket(old(hub)@.state.uploads, token@, UPLOAD_TTL_MS, now),
        final(hub)@ == old(hub)@.with_uploads(old(hub)@.state.uploads.remove(token@)),
{
    hub.consume_upload(token, now)
}

/// Decides how the upload of a ticket begins. `probe` says whether the
/// archive's file is on disk and whether the directory that the ticket
/// names exists.
pub fn upload(hub: &MyPluginHub, ticket: &Ticket, probe: Probe) -> (r: Result<UploadStep, HubError>)
    ensures
        outcome(r) == upload_start(hub@, ticket@, probe),
{
    let hash = ticket.hash.as_str();
    if hub.get_tar_hash(hash, probe.archive_exists).is_ok() {
        return match &ticket.post_extract {
            Some(p) => match hub.un_tar_to_dir(hash, p.target_dir.as_str(), p.overwrite, probe) {
                Ok(plan) => Ok(UploadStep::Extract(plan)),
                Err(e) => Err(e),
            },
            None => Ok(UploadStep::Done),
        };
    }
    match hub.archive_paths(hash) {
        Err(e) => Err(e),
        Ok(paths) => Ok(UploadStep::Receive { temp_path: paths.1 }),
    }
}

/// Decides on the download under a token at the time `now`: the archive's
/// file is streamed as a gzip attachment that is named after the hash.
/// `on_disk` says whether that file is there.
pub fn download(hub: &MyPluginHub, token: &str, now: u64, on_disk: bool) -> (r: Result<
    Download,
    HubError,
>)
    ensures
        match hub@.download_path(token@, now, on_disk) {
            Ok(found) => outcome(r) == Ok::<DownloadView, HubErrorView>(
                DownloadView {
                    path: found.1,
                    content_type: "application/gzip"@,
                    content_disposition: disposition(found.0),
                },
            ),
            Err(e) => outcome(r) == Err::<DownloadView, HubErrorView>(e),
        },
{
    match hub.get_download_tar_path(token, now, on_disk) {
        Err(e) => Err(e),
        Ok(found) => {
            let mut name = str_concat("attachment; filename=\"", found.0.as_str());
            name.append(".tar.gz\"");
            Ok(
                Download {
                    path: found.1,
                    content_type: String::from_str("application/gzip"),
                    content_disposition: name,
                },
            )
        },
    }
}

} // verus!
