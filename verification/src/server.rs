//! The hub: its archive store, its index of unpacked directories and its
//! registry of announced transfers, and what it decides for every operation.
//!
//! The hub never touches the disk or the clock itself. Whoever drives it
//! tells it what is on disk where an operation depends on that, and what
//! time it is, in milliseconds; the hub answers with what to do next.

use vstd::prelude::*;
use vstd::string::*;
use dashmap::DashMap;
use dashmap::DashSet;
use crate::abi::{DownloadTarRequest, ReplaceTextRequest, UploadTarRequest};
use crate::digest::{content_hash, verify_archive};
use crate::error::{outcome, HubError, HubErrorView};
use crate::file::{is_single_name, join, joined, path_is_valid};
use crate::maps::{
    index_contents, index_insert, index_lookup, index_new, set_contains, set_contents,
    set_insert, set_new, set_under, ticket_contents, tickets_get, tickets_insert, tickets_new,
    tickets_remove, PostExtract, PostExtractView, Ticket, TicketView,
};
use crate::strings::str_concat;
use crate::text_replace::{
    sources, texts, writes, FileWrite, Setting, SettingView, SourceFile,
};
use crate::token::{is_token, random_token};

verus! {

/// How long an announced upload stays open, in milliseconds.
pub const UPLOAD_TTL_MS: u64 = 30_000;

/// How long an announced download stays open, in milliseconds.
pub const DOWNLOAD_TTL_MS: u64 = 1_800_000;

/// Where the hub keeps its files.
#[derive(Debug)]
pub struct MyPluginHubConfig {
    /// The directory below which archives are unpacked.
    pub base_dir: String,
    /// The directory in which archives are stored.
    pub tar_dir_path: String,
}

/// What the hub remembers.
///
/// The maps are the hub's own: they change through the hub's operations
/// and through nothing else, so that what the contracts say of them holds
/// from one operation to the next.
#[derive(Debug)]
pub struct MyPluginHubContext {
    /// The hashes of the archives that are stored.
    tar_set: DashSet<String>,
    /// For every hash, the directories that its archive has been unpacked into.
    item_dir_map: DashMap<String, DashSet<String>>,
    /// The announced uploads, by token.
    upload_path_map: DashMap<String, Ticket>,
    /// The announced downloads, by token.
    download_path_map: DashMap<String, Ticket>,
}

/// The hub.
#[derive(Debug)]
pub struct MyPluginHub {
    pub config: MyPluginHubConfig,
    pub context: MyPluginHubContext,
}

/// Where the hub keeps its files, in contracts.
pub ghost struct ConfigView {
    pub base_dir: Seq<char>,
    pub tar_dir_path: Seq<char>,
}

/// What the hub remembers, in contracts.
pub ghost struct HubState {
    /// The hashes of the archives that are stored.
    pub known: Set<Seq<char>>,
    /// For every hash, the directories that its archive has been unpacked into.
    pub extracted: Map<Seq<char>, Set<Seq<char>>>,
    /// The announced uploads, by token.
    pub uploads: Map<Seq<char>, TicketView>,
    /// The announced downloads, by token.
    pub downloads: Map<Seq<char>, TicketView>,
}

/// The hub in contracts: where it keeps its files, and what it remembers.
pub ghost struct HubView {
    pub config: ConfigView,
    pub state: HubState,
}

/// What the driver has seen on disk: whether the archive of the operation is
/// stored under its name, and whether the target directory of the operation exists.
#[derive(Debug, Clone, Copy, PartialEq, Eq, Structural)]
pub struct Probe {
    pub archive_exists: bool,
    pub target_exists: bool,
}

/// An unpacking that the hub has decided on: which archive to unpack into
/// which directory, the paths of the two, and whether to remove the
/// directory first.
///
/// The plan says nothing of what the archive holds. Whoever carries it out
/// hands the path of every entry to [`crate::file::entry_path_is_safe`] before the entry
/// is unpacked, and ends the unpacking with the error where an entry is
/// refused: an entry is written only where its path stays below the directory.
#[derive(Debug)]
pub struct UnTarPlan {
    pub tar_hash: String,
    pub target_dir: String,
    pub archive_path: String,
    pub dest_path: String,
    pub remove_first: bool,
}

/// An [`UnTarPlan`] in contracts.
pub ghost struct UnTarPlanView {
    pub tar_hash: Seq<char>,
    pub target_dir: Seq<char>,
    pub archive_path: Seq<char>,
    pub dest_path: Seq<char>,
    pub remove_first: bool,
}

/// What the driver of an upload does next.
#[derive(Debug)]
pub enum UploadStep {
    /// Receive the body into the temporary file, then hand its bytes to
    /// [`MyPluginHub::upload_tar_by_path`].
    Receive { temp_path: String },
    /// Move the temporary file to the archive's own path, then go on with
    /// [`MyPluginHub::upload_tar`].
    Promote { temp_path: String, archive_path: String },
    /// Write the bytes to the archive's own path, then go on with
    /// [`MyPluginHub::upload_tar`].
    Store { archive_path: String },
    /// Unpack as the plan says, each entry only after
    /// [`crate::file::entry_path_is_safe`] has accepted its path, then record the
    /// directory with [`MyPluginHub::record_extraction`].
    Extract(UnTarPlan),
    /// Nothing is left to do.
    Done,
}

/// An [`UploadStep`] in contracts.
pub ghost enum UploadStepView {
    Receive { temp_path: Seq<char> },
    Promote { temp_path: Seq<char>, archive_path: Seq<char> },
    Store { archive_path: Seq<char> },
    Extract(UnTarPlanView),
    Done,
}

impl View for MyPluginHubConfig {
    type V = ConfigView;

    open spec fn view(&self) -> ConfigView {
        ConfigView { base_dir: self.base_dir@, tar_dir_path: self.tar_dir_path@ }
    }
}

impl View for MyPluginHub {
    type V = HubView;

    open spec fn view(&self) -> HubView {
        HubView { config: self.config@, state: self.context@ }
    }
}

impl View for MyPluginHubContext {
    type V = HubState;

    closed spec fn view(&self) -> HubState {
        HubState {
            known: set_contents(self.tar_set),
            extracted: index_contents(self.item_dir_map),
            uploads: ticket_contents(self.upload_path_map),
            downloads: ticket_contents(self.download_path_map),
        }
    }
}

impl View for UnTarPlan {
    type V = UnTarPlanView;

    open spec fn view(&self) -> UnTarPlanView {
        UnTarPlanView {
            tar_hash: self.tar_hash@,
            target_dir: self.target_dir@,
            archive_path: self.archive_path@,
            dest_path: self.dest_path@,
            remove_first: self.remove_first,
        }
    }
}

impl View for UploadStep {
    type V = UploadStepView;

    open spec fn view(&self) -> UploadStepView {
        match self {
            UploadStep::Receive { temp_path } => UploadStepView::Receive { temp_path: temp_path@ },
            UploadStep::Promote { temp_path, archive_path } => UploadStepView::Promote {
                temp_path: temp_path@,
                archive_path: archive_path@,
            },
            UploadStep::Store { archive_path } => UploadStepView::Store {
                archive_path: archive_path@,
            },
            UploadStep::Extract(plan) => UploadStepView::Extract(plan@),
            UploadStep::Done => UploadStepView::Done,
        }
    }
}

/// The name of the file that holds the archive with the given hash.
pub open spec fn archive_name(hash: Seq<char>) -> Seq<char> {
    hash + ".tar.gz"@
}

/// The path of the file that holds the archive with the given hash.
pub open spec fn archive_path(tar_dir: Seq<char>, hash: Seq<char>) -> Seq<char> {
    joined(tar_dir, archive_name(hash))
}

/// The path of the file into which an upload of the archive is received.
pub open spec fn temp_path(tar_dir: Seq<char>, hash: Seq<char>) -> Seq<char> {
    joined(joined(tar_dir, "__tmp__"@), archive_name(hash))
}

/// The ticket that an announced upload leaves in the registry.
pub open spec fn upload_ticket(request: UploadTarRequest, now: u64) -> TicketView {
    TicketView {
        hash: request.tar_hash@,
        post_extract: match request.un_tar {
            Some(u) => Some(
                PostExtractView { target_dir: u.target_dir@, overwrite: u.overwrite == Some(true) },
            ),
            None => None,
        },
        issued_at: now,
    }
}

/// The ticket that an announced download leaves in the registry.
pub open spec fn download_ticket(request: DownloadTarRequest, now: u64) -> TicketView {
    TicketView { hash: request.tar_hash@, post_extract: None, issued_at: now }
}

/// Whether a ticket is still open at the time `now`: less than `ttl`
/// milliseconds have passed since it was issued.
pub open spec fn is_open(ticket: TicketView, ttl: u64, now: u64) -> bool {
    now < ticket.issued_at + ttl
}

/// What a registry answers for a token at the time `now`: the ticket under
/// the token where it holds one that is still open, else that there is no
/// such resource.
pub open spec fn open_ticket(
    tickets: Map<Seq<char>, TicketView>,
    token: Seq<char>,
    ttl: u64,
    now: u64,
) -> Result<TicketView, HubErrorView> {
    if tickets.dom().contains(token) && is_open(tickets[token], ttl, now) {
        Ok(tickets[token])
    } else {
        Err(HubErrorView::ResourceNotFound)
    }
}

/// A registry without the ticket under `token`, where that ticket is no
/// longer open at the time `now`; else the registry as it is.
pub open spec fn without_expired(
    tickets: Map<Seq<char>, TicketView>,
    token: Seq<char>,
    ttl: u64,
    now: u64,
) -> Map<Seq<char>, TicketView> {
    if tickets.dom().contains(token) && !is_open(tickets[token], ttl, now) {
        tickets.remove(token)
    } else {
        tickets
    }
}

impl HubState {
    /// Nothing is remembered.
    pub open spec fn is_empty(self) -> bool {
        &&& self.known == Set::<Seq<char>>::empty()
        &&& self.extracted.dom() == Set::<Seq<char>>::empty()
        &&& self.uploads.dom() == Set::<Seq<char>>::empty()
        &&& self.downloads.dom() == Set::<Seq<char>>::empty()
    }

    /// Every directory that the index records is a single name.
    pub open spec fn wf(self) -> bool {
        forall|hash: Seq<char>, dir: Seq<char>|
            self.extracted.dom().contains(hash) && #[trigger] self.extracted[hash].contains(dir)
                ==> is_single_name(dir)
    }

    /// Whether the index records that the archive has been unpacked into the directory.
    pub open spec fn records(self, hash: Seq<char>, dir: Seq<char>) -> bool {
        set_under(self.extracted, hash).contains(dir)
    }

    /// What the store answers for a hash: the hash itself where the archive
    /// is known and its file is on disk; an invalid path where the hash
    /// is known but gives no valid file name; else that the archive does not exist.
    pub open spec fn stored(self, hash: Seq<char>, on_disk: bool) -> Result<
        Seq<char>,
        HubErrorView,
    > {
        if self.known.contains(hash) {
            if !is_single_name(archive_name(hash)) {
                Err(HubErrorView::InvalidPath(archive_name(hash)))
            } else if on_disk {
                Ok(hash)
            } else {
                Err(HubErrorView::TarNotExist(hash))
            }
        } else {
            Err(HubErrorView::TarNotExist(hash))
        }
    }

    /// What a check of an unpacked directory answers. A directory that is
    /// no single name is an invalid path, whatever the hub remembers.
    /// Otherwise the check succeeds where the archive is stored, the index
    /// records the directory and the directory is on disk; a missing
    /// archive is reported as such, and a directory that is not recorded or
    /// not on disk as a file that does not exist.
    pub open spec fn checked(
        self,
        hash: Seq<char>,
        dir: Seq<char>,
        archive_on_disk: bool,
        dir_on_disk: bool,
    ) -> Result<(), HubErrorView> {
        if !is_single_name(dir) {
            Err(HubErrorView::InvalidPath(dir))
        } else {
            match self.stored(hash, archive_on_disk) {
                Err(e) => Err(e),
                Ok(_) => if self.records(hash, dir) && dir_on_disk {
                    Ok(())
                } else {
                    Err(HubErrorView::FileNotExist(dir))
                },
            }
        }
    }
}

impl MyPluginHubContext {
    /// A context that remembers nothing.
    pub fn new() -> (context: Self)
        ensures
            context@.is_empty(),
            context@.wf(),
    {
        MyPluginHubContext {
            tar_set: set_new(),
            item_dir_map: index_new(),
            upload_path_map: tickets_new(),
            download_path_map: tickets_new(),
        }
    }
}

impl Default for MyPluginHubConfig {
    /// The hub's files live below `/tmp/plugin_hub`, its archives in `__tar` there.
    fn default() -> (config: Self)
        ensures
            config.base_dir@ == "/tmp/plugin_hub"@,
            config.tar_dir_path@ == joined("/tmp/plugin_hub"@, "__tar"@),
    {
        MyPluginHubConfig {
            base_dir: String::from_str("/tmp/plugin_hub"),
            tar_dir_path: join("/tmp/plugin_hub", "__tar"),
        }
    }
}

impl Default for MyPluginHubContext {
    /// A context that remembers nothing.
    fn default() -> (context: Self)
        ensures
            context@.is_empty(),
            context@.wf(),
    {
        MyPluginHubContext::new()
    }
}

impl Default for MyPluginHub {
    /// A hub with the default configuration that remembers nothing.
    fn default() -> (hub: Self)
        ensures
            hub@.config.base_dir == "/tmp/plugin_hub"@,
            hub@.config.tar_dir_path == joined("/tmp/plugin_hub"@, "__tar"@),
            hub@.state.is_empty(),
            hub@.state.wf(),
    {
        MyPluginHub::new(MyPluginHubConfig::default())
    }
}

/// Whether a ticket is still open at the time `now`.
fn ticket_is_open(ticket: &Ticket, ttl: u64, now: u64) -> (open: bool)
    ensures
        open == is_open(ticket@, ttl, now),
{
    now < ticket.issued_at || now - ticket.issued_at < ttl
}

impl HubView {
    /// The hub with another memory.
    pub open spec fn with_state(self, state: HubState) -> HubView {
        HubView { state, ..self }
    }

    /// The hub once it knows the archive with the given hash.
    pub open spec fn with_known(self, hash: Seq<char>) -> HubView {
        self.with_state(HubState { known: self.state.known.insert(hash), ..self.state })
    }

    /// The hub once its index records the directory for the archive.
    pub open spec fn with_recorded(self, hash: Seq<char>, dir: Seq<char>) -> HubView {
        self.with_state(
            HubState {
                extracted: self.state.extracted.insert(
                    hash,
                    set_under(self.state.extracted, hash).insert(dir),
                ),
                ..self.state
            },
        )
    }

    /// The hub with the registry of uploads replaced.
    pub open spec fn with_uploads(self, uploads: Map<Seq<char>, TicketView>) -> HubView {
        self.with_state(HubState { uploads, ..self.state })
    }

    /// The hub with the registry of downloads replaced.
    pub open spec fn with_downloads(self, downloads: Map<Seq<char>, TicketView>) -> HubView {
        self.with_state(HubState { downloads, ..self.state })
    }

    /// What the extraction of an archive into a directory comes to: the plan
    /// to carry out, or why there is none. The directory must be a single
    /// name; a directory that exists is only replaced where `overwrite` is
    /// set; the archive must be stored.
    pub open spec fn extraction(
        self,
        hash: Seq<char>,
        dir: Seq<char>,
        overwrite: bool,
        probe: Probe,
    ) -> Result<UnTarPlanView, HubErrorView> {
        if !is_single_name(dir) {
            Err(HubErrorView::InvalidPath(dir))
        } else if probe.target_exists && !overwrite {
            Err(HubErrorView::DirHasExist(dir))
        } else {
            match self.state.stored(hash, probe.archive_exists) {
                Err(e) => Err(e),
                Ok(_) => Ok(
                    UnTarPlanView {
                        tar_hash: hash,
                        target_dir: dir,
                        archive_path: archive_path(self.config.tar_dir_path, hash),
                        dest_path: joined(self.config.base_dir, dir),
                        remove_first: probe.target_exists && overwrite,
                    },
                ),
            }
        }
    }

    /// What is left to do for a ticket once its archive is stored: unpack it
    /// where the ticket says so, else nothing.
    pub open spec fn after_store(self, ticket: TicketView, probe: Probe) -> Result<
        UploadStepView,
        HubErrorView,
    > {
        match ticket.post_extract {
            Some(p) => match self.extraction(ticket.hash, p.target_dir, p.overwrite, probe) {
                Ok(plan) => Ok(UploadStepView::Extract(plan)),
                Err(e) => Err(e),
            },
            None => Ok(UploadStepView::Done),
        }
    }

    /// What receiving the bytes of an upload comes to: the move of the
    /// temporary file to the archive's own path where the bytes have the
    /// announced hash, and a mismatch of hashes where they have another.
    pub open spec fn received(self, ticket: TicketView, bytes: Seq<u8>) -> Result<
        UploadStepView,
        HubErrorView,
    > {
        if content_hash(bytes) != ticket.hash {
            Err(HubErrorView::HashNotMatch(ticket.hash, content_hash(bytes)))
        } else if !is_single_name(archive_name(ticket.hash)) {
            Err(HubErrorView::InvalidPath(archive_name(ticket.hash)))
        } else {
            Ok(
                UploadStepView::Promote {
                    temp_path: temp_path(self.config.tar_dir_path, ticket.hash),
                    archive_path: archive_path(self.config.tar_dir_path, ticket.hash),
                },
            )
        }
    }

    /// The hub after [`MyPluginHub::upload_tar`]: the archive becomes known
    /// where the bytes have its hash and its file is on disk under a valid
    /// name. Nothing changes before, and nothing for other bytes.
    pub open spec fn after_upload(self, ticket: TicketView, bytes: Seq<u8>, probe: Probe) -> HubView {
        if content_hash(bytes) == ticket.hash && is_single_name(archive_name(ticket.hash))
            && probe.archive_exists {
            self.with_known(ticket.hash)
        } else {
            self
        }
    }

    /// What [`MyPluginHub::upload_tar`] answers. The bytes are held against
    /// the announced hash first: bytes with another hash are a mismatch,
    /// whatever is on disk. Bytes with the hash are to be stored while the
    /// archive's file is not on disk. Once the file is on disk, the hub
    /// that knows the archive decides what the ticket asks for after the upload.
    pub open spec fn uploaded(self, ticket: TicketView, bytes: Seq<u8>, probe: Probe) -> Result<
        UploadStepView,
        HubErrorView,
    > {
        if content_hash(bytes) != ticket.hash {
            Err(HubErrorView::HashNotMatch(ticket.hash, content_hash(bytes)))
        } else if !is_single_name(archive_name(ticket.hash)) {
            Err(HubErrorView::InvalidPath(archive_name(ticket.hash)))
        } else if !probe.archive_exists {
            Ok(
                UploadStepView::Store {
                    archive_path: archive_path(self.config.tar_dir_path, ticket.hash),
                },
            )
        } else {
            self.with_known(ticket.hash).after_store(ticket, probe)
        }
    }

    /// What a download under a token comes to at the time `now`: the hash
    /// and the path of the archive where a download is registered under the
    /// token and still open, and the archive's file is on disk.
    pub open spec fn download_path(self, token: Seq<char>, now: u64, on_disk: bool) -> Result<
        (Seq<char>, Seq<char>),
        HubErrorView,
    > {
        match open_ticket(self.state.downloads, token, DOWNLOAD_TTL_MS, now) {
            Err(e) => Err(e),
            Ok(ticket) => if !is_single_name(archive_name(ticket.hash)) {
                Err(HubErrorView::InvalidPath(archive_name(ticket.hash)))
            } else if !on_disk {
                Err(HubErrorView::TarNotExist(ticket.hash))
            } else {
                Ok((ticket.hash, archive_path(self.config.tar_dir_path, ticket.hash)))
            },
        }
    }
}

impl MyPluginHub {
    /// A hub with the given configuration that remembers nothing.
    pub fn new(config: MyPluginHubConfig) -> (hub: Self)
        ensures
            hub@.config == config@,
            hub@.state.is_empty(),
            hub@.state.wf(),
    {
        MyPluginHub { config, context: MyPluginHubContext::new() }
    }

    /// The paths of an archive's files: where it is stored, and where an
    /// upload of it is received. A hash that gives no valid file name has none.
    pub fn archive_paths(&self, tar_hash: &str) -> (r: Result<(String, String), HubError>)
        ensures
            outcome(r) == (if is_single_name(archive_name(tar_hash@)) {
                Ok(
                    (
                        archive_path(self@.config.tar_dir_path, tar_hash@),
                        temp_path(self@.config.tar_dir_path, tar_hash@),
                    ),
                )
            } else {
                Err(HubErrorView::InvalidPath(archive_name(tar_hash@)))
            }),
    {
        let file = str_concat(tar_hash, ".tar.gz");
        match path_is_valid(file.as_str()) {
            Err(e) => Err(e),
            Ok(()) => {
                let stored = join(self.config.tar_dir_path.as_str(), file.as_str());
                let temp_dir = join(self.config.tar_dir_path.as_str(), "__tmp__");
                let temp = join(temp_dir.as_str(), file.as_str());
                Ok((stored, temp))
            },
        }
    }

    /// The path of the directory into which archives are unpacked under the
    /// given name. Only a single name has one.
    pub fn target_path(&self, item_dir: &str) -> (r: Result<String, HubError>)
        ensures
            outcome(r) == (if is_single_name(item_dir@) {
                Ok(joined(self@.config.base_dir, item_dir@))
            } else {
                Err(HubErrorView::InvalidPath(item_dir@))
            }),
    {
        match path_is_valid(item_dir) {
            Err(e) => Err(e),
            Ok(()) => Ok(join(self.config.base_dir.as_str(), item_dir)),
        }
    }

    /// Whether the archive with the given hash is stored: it is known, and
    /// `on_disk` says that its file is there.
    pub fn get_tar_hash(&self, tar_hash: &str, on_disk: bool) -> (r: Result<String, HubError>)
        ensures
            outcome(r) == self@.state.stored(tar_hash@, on_disk),
    {
        if set_contains(&self.context.tar_set, tar_hash) {
            let file = str_concat(tar_hash, ".tar.gz");
            match path_is_valid(file.as_str()) {
                Err(e) => {
                    return Err(e);
                },
                Ok(()) => {},
            }
            if on_disk {
                return Ok(tar_hash.to_owned());
            }
        }
        Err(HubError::TarNotExist(tar_hash.to_owned()))
    }

    /// Remembers that the archive with the given hash is stored.
    fn add_tar(&mut self, tar_hash: &str)
        ensures
            final(self)@ == old(self)@.with_known(tar_hash@),
    {
        let _ = set_insert(&mut self.context.tar_set, tar_hash);
    }

    /// Whether the archive is stored and unpacked into the directory. The
    /// directory is held against the rule for names before anything else.
    pub fn check_tar_dir(
        &self,
        tar_hash: &str,
        item_dir: &str,
        archive_on_disk: bool,
        dir_on_disk: bool,
    ) -> (r: Result<(), HubError>)
        ensures
            outcome(r) == self@.state.checked(tar_hash@, item_dir@, archive_on_disk, dir_on_disk),
    {
        match path_is_valid(item_dir) {
            Err(e) => {
                return Err(e);
            },
            Ok(()) => {},
        }
        match self.get_tar_hash(tar_hash, archive_on_disk) {
            Err(e) => {
                return Err(e);
            },
            Ok(_) => {},
        }
        let recorded = match index_lookup(&self.context.item_dir_map, tar_hash, item_dir) {
            Some(found) => found,
            None => false,
        };
        if recorded && dir_on_disk {
            return Ok(());
        }
        Err(HubError::FileNotExist(item_dir.to_owned()))
    }

    /// Records that the archive has been unpacked into the directory.
    pub fn add_tar_dir(&mut self, tar_hash: &str, item_dir: &str)
        requires
            is_single_name(item_dir@),
        ensures
            final(self)@ == old(self)@.with_recorded(tar_hash@, item_dir@),
            final(self)@.state.records(tar_hash@, item_dir@),
            old(self)@.state.wf() ==> final(self)@.state.wf(),
    {
        index_insert(&mut self.context.item_dir_map, tar_hash, item_dir);
        proof {
            let before = old(self)@.state;
            let after = self@.state;
            if before.wf() {
                assert forall|hash: Seq<char>, dir: Seq<char>|
                    after.extracted.dom().contains(hash) && #[trigger] after.extracted[hash].contains(
                        dir,
                    ) implies is_single_name(dir) by {
                    if hash == tar_hash@ {
                        if dir != item_dir@ {
                            assert(before.extracted[hash].contains(dir));
                        }
                    } else {
                        assert(before.extracted[hash].contains(dir));
                    }
                }
            }
        }
    }

    /// The plan has been carried out: records that its archive has been
    /// unpacked into its directory. A plan whose directory is no single
    /// name is refused, and nothing is recorded for it.
    pub fn record_extraction(&mut self, plan: &UnTarPlan) -> (r: Result<(), HubError>)
        ensures
            is_single_name(plan@.target_dir) ==> r is Ok && final(self)@ == old(self)@.with_recorded(
                plan@.tar_hash,
                plan@.target_dir,
            ),
            !is_single_name(plan@.target_dir) ==> outcome(r) == Err::<(), HubErrorView>(
                HubErrorView::InvalidPath(plan@.target_dir),
            ) && final(self)@ == old(self)@,
            old(self)@.state.wf() ==> final(self)@.state.wf(),
    {
        match path_is_valid(plan.target_dir.as_str()) {
            Err(e) => Err(e),
            Ok(()) => {
                self.add_tar_dir(plan.tar_hash.as_str(), plan.target_dir.as_str());
                Ok(())
            },
        }
    }

    /// Registers an upload under the given token, as announced at the time `now`.
    pub fn issue_upload(&mut self, token: &str, request: UploadTarRequest, now: u64)
        ensures
            final(self)@ == old(self)@.with_uploads(
                old(self)@.state.uploads.insert(token@, upload_ticket(request, now)),
            ),
    {
        let UploadTarRequest { tar_hash, un_tar } = request;
        let post_extract = match un_tar {
            Some(u) => {
                let overwrite = match u.overwrite {
                    Some(b) => b,
                    None => false,
                };
                Some(PostExtract { target_dir: u.target_dir, overwrite })
            },
            None => None,
        };
        let ticket = Ticket { hash: tar_hash, post_extract, issued_at: now };
        tickets_insert(&mut self.context.upload_path_map, token, ticket);
    }

    /// Registers a download under the given token, as announced at the time `now`.
    pub fn issue_download(&mut self, token: &str, request: DownloadTarRequest, now: u64)
        ensures
            final(self)@ == old(self)@.with_downloads(
                old(self)@.state.downloads.insert(token@, download_ticket(request, now)),
            ),
    {
        let ticket = Ticket { hash: request.tar_hash, post_extract: None, issued_at: now };
        tickets_insert(&mut self.context.download_path_map, token, ticket);
    }

    /// Announces an upload: registers it under a fresh random token and
    /// answers with the token. The ticket is open for 30 seconds from `now`.
    pub fn generate_upload_url(&mut self, upload_tar_request: UploadTarRequest, now: u64) -> (r:
        Result<String, HubError>)
        ensures
            r matches Ok(token) && is_token(token@) && final(self)@ == old(self)@.with_uploads(
                old(self)@.state.uploads.insert(token@, upload_ticket(upload_tar_request, now)),
            ),
    {
        let token = random_token();
        self.issue_upload(token.as_str(), upload_tar_request, now);
        Ok(token)
    }

    /// Announces a download: registers it under a fresh random token and
    /// answers with the token. The ticket is open for 30 minutes from `now`.
    pub fn generate_download_url(
        &mut self,
        download_tar_request: DownloadTarRequest,
        now: u64,
    ) -> (r: Result<String, HubError>)
        ensures
            r matches Ok(token) && is_token(token@) && final(self)@ == old(self)@.with_downloads(
                old(self)@.state.downloads.insert(
                    token@,
                    download_ticket(download_tar_request, now),
                ),
            ),
    {
        let token = random_token();
        self.issue_download(token.as_str(), download_tar_request, now);
        Ok(token)
    }

    /// The upload that is registered under the token and still open at the
    /// time `now`. The registry keeps it.
    pub fn take_upload(&self, token: &str, now: u64) -> (r: Result<Ticket, HubError>)
        ensures
            outcome(r) == open_ticket(self@.state.uploads, token@, UPLOAD_TTL_MS, now),
    {
        match tickets_get(&self.context.upload_path_map, token) {
            Some(ticket) => {
                if ticket_is_open(&ticket, UPLOAD_TTL_MS, now) {
                    Ok(ticket)
                } else {
                    Err(HubError::ResourceNotFound)
                }
            },
            None => Err(HubError::ResourceNotFound),
        }
    }

    /// The download that is registered under the token and still open at
    /// the time `now`. The registry keeps it.
    pub fn peek_download(&self, token: &str, now: u64) -> (r: Result<Ticket, HubError>)
        ensures
            outcome(r) == open_ticket(self@.state.downloads, token@, DOWNLOAD_TTL_MS, now),
    {
        match tickets_get(&self.context.download_path_map, token) {
            Some(ticket) => {
                if ticket_is_open(&ticket, DOWNLOAD_TTL_MS, now) {
                    Ok(ticket)
                } else {
                    Err(HubError::ResourceNotFound)
                }
            },
            None => Err(HubError::ResourceNotFound),
        }
    }

    /// Takes the upload that is registered under the token out of the
    /// registry: a token serves one upload. Answers with the ticket where it
    /// was still open at the time `now`.
    pub fn consume_upload(&mut self, token: &str, now: u64) -> (r: Result<Ticket, HubError>)
        ensures
            outcome(r) == open_ticket(old(self)@.state.uploads, token@, UPLOAD_TTL_MS, now),
            final(self)@ == old(self)@.with_uploads(old(self)@.state.uploads.remove(token@)),
    {
        match tickets_remove(&mut self.context.upload_path_map, token) {
            Some(ticket) => {
                if ticket_is_open(&ticket, UPLOAD_TTL_MS, now) {
                    Ok(ticket)
                } else {
                    Err(HubError::ResourceNotFound)
                }
            },
            None => Err(HubError::ResourceNotFound),
        }
    }

    /// The timer of an announced upload has rung: the ticket under the token
    /// leaves the registry if it is no longer open at the time `now`.
    /// Nothing happens where the registry holds no such ticket.
    pub fn expire_upload(&mut self, token: &str, now: u64)
        ensures
            final(self)@ == old(self)@.with_uploads(
                without_expired(old(self)@.state.uploads, token@, UPLOAD_TTL_MS, now),
            ),
    {
        match tickets_get(&self.context.upload_path_map, token) {
            Some(ticket) => {
                if !ticket_is_open(&ticket, UPLOAD_TTL_MS, now) {
                    let _ = tickets_remove(&mut self.context.upload_path_map, token);
                }
            },
            None => {},
        }
    }

    /// The timer of an announced download has rung: the ticket under the
    /// token leaves the registry if it is no longer open at the time `now`.
    /// Nothing happens where the registry holds no such ticket.
    pub fn expire_download(&mut self, token: &str, now: u64)
        ensures
            final(self)@ == old(self)@.with_downloads(
                without_expired(old(self)@.state.downloads, token@, DOWNLOAD_TTL_MS, now),
            ),
    {
        match tickets_get(&self.context.download_path_map, token) {
            Some(ticket) => {
                if !ticket_is_open(&ticket, DOWNLOAD_TTL_MS, now) {
                    let _ = tickets_remove(&mut self.context.download_path_map, token);
                }
            },
            None => {},
        }
    }

    /// Decides on the unpacking of a stored archive into a directory below
    /// the base directory. `probe` says whether the directory exists and
    /// whether the archive's file is on disk.
    pub fn un_tar_to_dir(&self, tar_hash: &str, item_dir: &str, overwrite: bool, probe: Probe) -> (r:
        Result<UnTarPlan, HubError>)
        ensures
            outcome(r) == self@.extraction(tar_hash@, item_dir@, overwrite, probe),
    {
        match path_is_valid(item_dir) {
            Err(e) => {
                return Err(e);
            },
            Ok(()) => {},
        }
        if probe.target_exists && !overwrite {
            return Err(HubError::DirHasExist(item_dir.to_owned()));
        }
        match self.get_tar_hash(tar_hash, probe.archive_exists) {
            Err(e) => {
                return Err(e);
            },
            Ok(_) => {},
        }
        let file = str_concat(tar_hash, ".tar.gz");
        Ok(
            UnTarPlan {
                tar_hash: tar_hash.to_owned(),
                target_dir: item_dir.to_owned(),
                archive_path: join(self.config.tar_dir_path.as_str(), file.as_str()),
                dest_path: join(self.config.base_dir.as_str(), item_dir),
                remove_first: probe.target_exists && overwrite,
            },
        )
    }
}

/// The setting under which a request to replace text runs: the tree below
/// the target directory is rewritten in place, in the files whose type is
/// one of the request's suffixes, and nothing is left out but what always is.
pub open spec fn replace_setting(base_dir: Seq<char>, request: ReplaceTextRequest) -> SettingView {
    SettingView {
        old_web_prefix: request.old_text@,
        new_web_prefix: request.new_text@,
        exclude_path: None,
        source_path: joined(base_dir, request.target_dir@),
        output_path: joined(base_dir, request.target_dir@),
        file_types: Some(texts(request.suffix@)),
    }
}

/// What a request to replace text comes to, given the files that the walk
/// of the target directory has visited, or nothing where that directory
/// does not exist: the files to write, or why there are none.
pub open spec fn replacement(
    base_dir: Seq<char>,
    request: ReplaceTextRequest,
    tree: Option<Seq<(Seq<char>, Seq<char>)>>,
) -> Result<Seq<(Seq<char>, Seq<char>)>, HubErrorView> {
    if !is_single_name(request.target_dir@) {
        Err(HubErrorView::InvalidPath(request.target_dir@))
    } else {
        match tree {
            None => Err(HubErrorView::DirNotExist(request.target_dir@)),
            Some(files) => match replace_setting(base_dir, request).writes_for(files) {
                Ok(list) => Ok(list),
                Err(pattern) => Err(HubErrorView::ConfigureError(pattern)),
            },
        }
    }
}

impl MyPluginHub {
    /// Turns a request to replace text into the setting under which it runs.
    /// The target directory must be a single name.
    pub fn text_replace_request_to_setting(&self, request: ReplaceTextRequest) -> (r: Result<
        Setting,
        HubError,
    >)
        ensures
            outcome(r) == (if is_single_name(request.target_dir@) {
                Ok(replace_setting(self@.config.base_dir, request))
            } else {
                Err(HubErrorView::InvalidPath(request.target_dir@))
            }),
    {
        let ReplaceTextRequest { target_dir, old_text, new_text, suffix } = request;
        match path_is_valid(target_dir.as_str()) {
            Err(e) => {
                return Err(e);
            },
            Ok(()) => {},
        }
        let source_path = join(self.config.base_dir.as_str(), target_dir.as_str());
        let output_path = source_path.clone();
        Ok(
            Setting {
                old_web_prefix: old_text,
                new_web_prefix: new_text,
                source_path,
                output_path,
                exclude_path: None,
                file_types: Some(suffix),
            },
        )
    }

    /// Decides what a request to replace text writes. `tree` holds the files
    /// that the walk of the target directory has visited, or nothing where
    /// that directory does not exist.
    pub fn text_replace_by_request(
        &self,
        request: ReplaceTextRequest,
        tree: Option<&Vec<SourceFile>>,
    ) -> (r: Result<Vec<FileWrite>, HubError>)
        ensures
            match replacement(
                self@.config.base_dir,
                request,
                match tree {
                    Some(files) => Some(sources(files@)),
                    None => None,
                },
            ) {
                Ok(list) => r matches Ok(out) && writes(out@) == list,
                Err(e) => r matches Err(err) && err@ == e,
            },
    {
        let target_dir = request.target_dir.clone();
        let config = match self.text_replace_request_to_setting(request) {
            Err(e) => {
                return Err(e);
            },
            Ok(config) => config,
        };
        match tree {
            None => Err(HubError::DirNotExist(target_dir)),
            Some(files) => config.text_replace(files),
        }
    }

    /// The buffered upload, and the last part of every upload.
    ///
    /// The bytes are held against the hash of the ticket first; bytes with
    /// another hash change nothing, whether or not a file is on disk under
    /// the archive's name. While the archive's file is not on disk, bytes
    /// with the hash are to be stored under the archive's path, and the hub
    /// is asked again afterwards. Once the file is on disk the write is
    /// left out: the archive becomes known, and the hub decides what the
    /// ticket asks for after the upload.
    pub fn upload_tar(&mut self, ticket: &Ticket, bytes: &[u8], probe: Probe) -> (r: Result<
        UploadStep,
        HubError,
    >)
        ensures
            outcome(r) == old(self)@.uploaded(ticket@, bytes@, probe),
            final(self)@ == old(self)@.after_upload(ticket@, bytes@, probe),
    {
        let hash = ticket.hash.as_str();
        match verify_archive(hash, bytes) {
            Err(e) => {
                return Err(e);
            },
            Ok(()) => {},
        }
        let paths = match self.archive_paths(hash) {
            Err(e) => {
                return Err(e);
            },
            Ok(paths) => paths,
        };
        if !probe.archive_exists {
            return Ok(UploadStep::Store { archive_path: paths.0 });
        }
        self.add_tar(hash);
        match &ticket.post_extract {
            None => Ok(UploadStep::Done),
            Some(p) => {
                match self.un_tar_to_dir(hash, p.target_dir.as_str(), p.overwrite, probe) {
                    Err(e) => Err(e),
                    Ok(plan) => Ok(UploadStep::Extract(plan)),
                }
            },
        }
    }

    /// The streamed upload, once the body has been received: `bytes` are
    /// what the temporary file holds. Where they have the hash of the
    /// ticket, the file is to be moved to the archive's own path; where they
    /// have another, nothing is to be moved.
    pub fn upload_tar_by_path(&self, ticket: &Ticket, bytes: &[u8]) -> (r: Result<
        UploadStep,
        HubError,
    >)
        ensures
            outcome(r) == self@.received(ticket@, bytes@),
    {
        let hash = ticket.hash.as_str();
        match verify_archive(hash, bytes) {
            Err(e) => {
                return Err(e);
            },
            Ok(()) => {},
        }
        match self.archive_paths(hash) {
            Err(e) => Err(e),
            Ok(paths) => Ok(UploadStep::Promote { temp_path: paths.1, archive_path: paths.0 }),
        }
    }

    /// The archive of the download that is registered under the token: its
    /// hash and the path of its file. `on_disk` says whether that file is there.
    pub fn get_download_tar_path(&self, url: &str, now: u64, on_disk: bool) -> (r: Result<
        (String, String),
        HubError,
    >)
        ensures
            outcome(r) == self@.download_path(url@, now, on_disk),
    {
        let ticket = match self.peek_download(url, now) {
            Err(e) => {
                return Err(e);
            },
            Ok(ticket) => ticket,
        };
        let paths = match self.archive_paths(ticket.hash.as_str()) {
            Err(e) => {
                return Err(e);
            },
            Ok(paths) => paths,
        };
        if !on_disk {
            return Err(HubError::TarNotExist(ticket.hash));
        }
        Ok((ticket.hash, paths.0))
    }

    /// The buffered download: the hash of the archive that is registered
    /// under the token, and its bytes. `content` holds what the archive's
    /// file holds, or nothing where that file is not on disk.
    pub fn download_tar(&self, url: &str, now: u64, content: Option<Vec<u8>>) -> (r: Result<
        (String, Vec<u8>),
        HubError,
    >)
        ensures
            match self@.download_path(url@, now, content is Some) {
                Ok(found) => outcome(r) == Ok::<(Seq<char>, Seq<u8>), HubErrorView>(
                    (found.0, content->0@),
                ),
                Err(e) => outcome(r) == Err::<(Seq<char>, Seq<u8>), HubErrorView>(e),
            },
    {
        let on_disk = content.is_some();
        match self.get_download_tar_path(url, now, on_disk) {
            Err(e) => Err(e),
            Ok(found) => match content {
                Some(bytes) => Ok((found.0, bytes)),
                None => Err(HubError::TarNotExist(found.0)),
            },
        }
    }
}

} // verus!
