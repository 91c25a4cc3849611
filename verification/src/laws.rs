//! What holds of the hub whatever it is asked, stated over the models that
//! the contracts of its operations use.

use vstd::prelude::*;
use crate::bulk::{status_of, upload_start};
use crate::digest::{content_hash, hex_digit, is_hex_digit};
use crate::error::HubErrorView;
use crate::file::{
    components, dot, dot_dot, is_absolute, is_single_name, joined, lemma_absolute_is_refused,
    lemma_parent_is_refused, lemma_single_name_joined,
    parent_segment_at,
};
use crate::maps::TicketView;
use crate::abi::{DownloadTarRequest, ReplaceTextRequest, UploadTarRequest};
use crate::server::{
    archive_name, download_ticket, open_ticket, replacement, upload_ticket, HubState,
    HubView, Probe, UnTarPlanView, UploadStepView, DOWNLOAD_TTL_MS, UPLOAD_TTL_MS,
};

verus! {

/// A token serves one upload: once the ticket under a token has been taken
/// out of the registry, the token opens nothing, at whatever time it is tried.
pub proof fn lemma_token_serves_once(state: HubState, token: Seq<char>, later: u64)
    ensures
        open_ticket(state.uploads.remove(token), token, UPLOAD_TTL_MS, later) == Err::<
            TicketView,
            HubErrorView,
        >(HubErrorView::ResourceNotFound),
        status_of(HubErrorView::ResourceNotFound) == 404,
{
}

/// An announced upload is open for less than 30 seconds: the ticket that
/// was issued at `issued` opens at every time before `issued` plus 30
/// seconds, and at no time from then on.
pub proof fn lemma_upload_expires(
    state: HubState,
    token: Seq<char>,
    request: UploadTarRequest,
    issued: u64,
    now: u64,
)
    ensures
        now < issued + 30_000 ==> open_ticket(
            state.uploads.insert(token, upload_ticket(request, issued)),
            token,
            UPLOAD_TTL_MS,
            now,
        ) == Ok::<TicketView, HubErrorView>(upload_ticket(request, issued)),
        now >= issued + 30_000 ==> open_ticket(
            state.uploads.insert(token, upload_ticket(request, issued)),
            token,
            UPLOAD_TTL_MS,
            now,
        ) == Err::<TicketView, HubErrorView>(HubErrorView::ResourceNotFound),
{
}

/// An announced download is open for less than 30 minutes: the ticket that
/// was issued at `issued` opens at every time before `issued` plus 30
/// minutes, and at no time from then on.
pub proof fn lemma_download_expires(
    state: HubState,
    token: Seq<char>,
    request: DownloadTarRequest,
    issued: u64,
    now: u64,
)
    ensures
        now < issued + 30 * 60 * 1000 ==> open_ticket(
            state.downloads.insert(token, download_ticket(request, issued)),
            token,
            DOWNLOAD_TTL_MS,
            now,
        ) == Ok::<TicketView, HubErrorView>(download_ticket(request, issued)),
        now >= issued + 30 * 60 * 1000 ==> open_ticket(
            state.downloads.insert(token, download_ticket(request, issued)),
            token,
            DOWNLOAD_TTL_MS,
            now,
        ) == Err::<TicketView, HubErrorView>(HubErrorView::ResourceNotFound),
{
}

/// Every ticket that a registry opens is in the registry and has not expired.
pub proof fn lemma_open_tickets_are_live(
    tickets: Map<Seq<char>, TicketView>,
    token: Seq<char>,
    ttl: u64,
    now: u64,
)
    ensures
        open_ticket(tickets, token, ttl, now) matches Ok(ticket) ==> tickets.dom().contains(token)
            && tickets[token] == ticket && now < ticket.issued_at + ttl,
{
}

/// A target directory that is absolute or steps to a parent is refused as
/// an invalid path, by the check of a directory, by unpacking and by text
/// replacement alike, whatever the hub remembers and whatever is on disk,
/// and nothing is planned for it.
pub proof fn lemma_unsafe_target_is_refused(
    hub: HubView,
    hash: Seq<char>,
    dir: Seq<char>,
    overwrite: bool,
    probe: Probe,
    request: ReplaceTextRequest,
    tree: Option<Seq<(Seq<char>, Seq<char>)>>,
    at: int,
)
    requires
        is_absolute(dir) || parent_segment_at(dir, at),
        request.target_dir@ == dir,
    ensures
        !is_single_name(dir),
        hub.state.checked(hash, dir, probe.archive_exists, probe.target_exists) == Err::<
            (),
            HubErrorView,
        >(HubErrorView::InvalidPath(dir)),
        hub.extraction(hash, dir, overwrite, probe) == Err::<UnTarPlanView, HubErrorView>(
            HubErrorView::InvalidPath(dir),
        ),
        replacement(hub.config.base_dir, request, tree) == Err::<
            Seq<(Seq<char>, Seq<char>)>,
            HubErrorView,
        >(
            HubErrorView::InvalidPath(dir),
        ),
        status_of(HubErrorView::InvalidPath(dir)) == 400,
{
    if is_absolute(dir) {
        lemma_absolute_is_refused(dir);
    } else {
        lemma_parent_is_refused(dir, at);
    }
}

/// Whatever is unpacked is unpacked into a direct child of the base
/// directory, from a direct child of the archive directory: the path of
/// each has the components of its directory and then one ordinary name.
pub proof fn lemma_plans_stay_below(
    hub: HubView,
    hash: Seq<char>,
    dir: Seq<char>,
    overwrite: bool,
    probe: Probe,
)
    ensures
        hub.extraction(hash, dir, overwrite, probe) matches Ok(plan) ==> {
            let base = components(hub.config.base_dir);
            let store = components(hub.config.tar_dir_path);
            &&& components(plan.dest_path).len() == base.len() + 1
            &&& components(plan.dest_path).take(base.len() as int) == base
            &&& components(plan.dest_path).last() is Normal
            &&& components(plan.archive_path).len() == store.len() + 1
            &&& components(plan.archive_path).take(store.len() as int) == store
            &&& components(plan.archive_path).last() is Normal
        },
{
    if hub.extraction(hash, dir, overwrite, probe) is Ok {
        lemma_single_name_joined(hub.config.base_dir, dir);
        lemma_single_name_joined(hub.config.tar_dir_path, archive_name(hash));
    }
}

/// An archive that is stored is not received again: a further upload of it
/// begins with what its ticket asks for after the upload, writes no file,
/// and leaves the archive stored. It is done at once where the ticket asks
/// for nothing more, and it succeeds unless the ticket asks to unpack into
/// an invalid directory, or into one that exists without leave to overwrite it.
pub proof fn lemma_republish_is_done(
    hub: HubView,
    ticket: TicketView,
    bytes: Seq<u8>,
    probe: Probe,
)
    requires
        hub.state.stored(ticket.hash, probe.archive_exists) is Ok,
    ensures
        upload_start(hub, ticket, probe) == hub.after_store(ticket, probe),
        content_hash(bytes) == ticket.hash ==> hub.uploaded(ticket, bytes, probe)
            == hub.after_store(ticket, probe),
        hub.after_store(ticket, probe) matches Ok(step) ==> step is Extract || step is Done,
        hub.after_upload(ticket, bytes, probe) == hub,
        ticket.post_extract is None ==> hub.after_store(ticket, probe) == Ok::<
            UploadStepView,
            HubErrorView,
        >(UploadStepView::Done),
        ticket.post_extract matches Some(p) ==> (hub.after_store(ticket, probe) is Ok
            <==> is_single_name(p.target_dir) && (p.overwrite || !probe.target_exists)),
{
    assert(hub.state.known.insert(ticket.hash) =~= hub.state.known);
    assert(hub.with_known(ticket.hash) == hub);
}

/// Bytes that do not have the announced hash are neither moved nor stored,
/// and the hub remembers nothing of them, whether or not a file is on disk
/// under the archive's name.
pub proof fn lemma_mismatch_stores_nothing(
    hub: HubView,
    ticket: TicketView,
    bytes: Seq<u8>,
    probe: Probe,
)
    requires
        content_hash(bytes) != ticket.hash,
    ensures
        hub.received(ticket, bytes) == Err::<UploadStepView, HubErrorView>(
            HubErrorView::HashNotMatch(ticket.hash, content_hash(bytes)),
        ),
        hub.uploaded(ticket, bytes, probe) == Err::<UploadStepView, HubErrorView>(
            HubErrorView::HashNotMatch(ticket.hash, content_hash(bytes)),
        ),
        hub.after_upload(ticket, bytes, probe) == hub,
        status_of(HubErrorView::HashNotMatch(ticket.hash, content_hash(bytes))) == 500,
{
}

/// The hub asks to move or to store only bytes that have the announced
/// hash, and an archive becomes known only through bytes that have its hash
/// and a file that is on disk under its name.
pub proof fn lemma_only_announced_bytes_are_stored(
    hub: HubView,
    ticket: TicketView,
    bytes: Seq<u8>,
    probe: Probe,
)
    ensures
        hub.received(ticket, bytes) is Ok ==> content_hash(bytes) == ticket.hash,
        hub.uploaded(ticket, bytes, probe) is Ok ==> content_hash(bytes) == ticket.hash,
        forall|hash: Seq<char>|
            #[trigger] hub.after_upload(ticket, bytes, probe).state.known.contains(hash)
                && !hub.state.known.contains(hash) ==> hash == content_hash(bytes)
                && probe.archive_exists,
{
}

/// A directory that exists is kept unless the caller asks to overwrite it:
/// without `overwrite` the unpacking is refused, and with it the directory
/// is removed before a stored archive is unpacked.
pub proof fn lemma_overwrite(hub: HubView, hash: Seq<char>, dir: Seq<char>, probe: Probe)
    requires
        is_single_name(dir),
        probe.target_exists,
    ensures
        hub.extraction(hash, dir, false, probe) == Err::<UnTarPlanView, HubErrorView>(
            HubErrorView::DirHasExist(dir),
        ),
        hub.state.stored(hash, probe.archive_exists) is Ok ==> (hub.extraction(
            hash,
            dir,
            true,
            probe,
        ) matches Ok(plan) && plan.remove_first && plan.dest_path == joined(
            hub.config.base_dir,
            dir,
        )),
        hub.state.stored(hash, probe.archive_exists) is Err ==> hub.extraction(
            hash,
            dir,
            true,
            probe,
        ) is Err,
{
}

/// Every content hash names a file of the archive store: 64 hexadecimal
/// digits, followed by the ending of an archive, are a single name.
pub proof fn lemma_hash_names_a_file(hash: Seq<char>)
    requires
        hash.len() == 64,
        forall|i: int| 0 <= i < 64 ==> is_hex_digit(#[trigger] hash[i]),
    ensures
        is_single_name(archive_name(hash)),
{
    reveal_strlit(".tar.gz");
    let name = archive_name(hash);
    assert(name.len() == 71);
    assert forall|i: int| 0 <= i < name.len() implies name[i] != '/' by {
        if i < 64 {
            assert(name[i] == hash[i]);
            let value = choose|value: int| 0 <= value < 16 && hash[i] == #[trigger] hex_digit(value);
            assert(hex_digit(value) != '/');
        } else {
            assert(name[i] == ".tar.gz"@[i - 64]);
        }
    }
    assert(name != dot()) by {
        assert(dot().len() == 1);
    }
    assert(name != dot_dot()) by {
        assert(dot_dot().len() == 2);
    }
}

} // verus!
