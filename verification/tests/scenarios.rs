use std::collections::{BTreeMap, BTreeSet};

use extension_hub::abi::{
    CheckTarRequest, DownloadTarRequest, ReplaceTextRequest, UnTarRequest, UploadTarRequest,
};
use extension_hub::bulk::{accept_upload, download, http_status, upload};
use extension_hub::digest::hash_hex;
use extension_hub::error::{ErrorStatus, HubError, HubErrorCode, StatusCategory};
use extension_hub::maps::Ticket;
use extension_hub::rpc;
use extension_hub::server::{MyPluginHub, MyPluginHubConfig, Probe, UploadStep};
use extension_hub::text_replace::SourceFile;

/// A disk in memory: files by path, and the directories that exist.
struct Disk {
    files: BTreeMap<String, Vec<u8>>,
    dirs: BTreeSet<String>,
}

fn new_hub() -> (MyPluginHub, Disk) {
    let hub = MyPluginHub::new(MyPluginHubConfig {
        base_dir: "/srv/hub".to_string(),
        tar_dir_path: "/srv/hub/__tar".to_string(),
    });
    (hub, Disk { files: BTreeMap::new(), dirs: BTreeSet::new() })
}

fn look(hub: &MyPluginHub, disk: &Disk, hash: &str, target: Option<&str>) -> Probe {
    let archive_exists = match hub.archive_paths(hash) {
        Ok(paths) => disk.files.contains_key(&paths.0),
        Err(_) => false,
    };
    let target_exists = match target.map(|t| hub.target_path(t)) {
        Some(Ok(path)) => disk.dirs.contains(&path),
        _ => false,
    };
    Probe { archive_exists, target_exists }
}

fn look_for(hub: &MyPluginHub, disk: &Disk, ticket: &Ticket) -> Probe {
    let target = ticket.post_extract.as_ref().map(|p| p.target_dir.as_str());
    look(hub, disk, &ticket.hash, target)
}

fn code_of(status: &ErrorStatus) -> i32 {
    HubErrorCode::try_from(status.details.as_slice()).unwrap().code()
}

/// Carries out the steps of an upload on the disk in memory.
fn drive(hub: &mut MyPluginHub, disk: &mut Disk, ticket: &Ticket, body: &[u8], first: UploadStep) -> Result<(), HubError> {
    let mut step = first;
    loop {
        step = match step {
            UploadStep::Receive { temp_path } => {
                disk.files.insert(temp_path.clone(), body.to_vec());
                let bytes = disk.files[&temp_path].clone();
                hub.upload_tar_by_path(ticket, &bytes)?
            }
            UploadStep::Promote { temp_path, archive_path } => {
                let bytes = disk.files.remove(&temp_path).unwrap();
                disk.files.insert(archive_path, bytes);
                let probe = look_for(hub, disk, ticket);
                hub.upload_tar(ticket, body, probe)?
            }
            UploadStep::Store { archive_path } => {
                disk.files.insert(archive_path, body.to_vec());
                let probe = look_for(hub, disk, ticket);
                hub.upload_tar(ticket, body, probe)?
            }
            UploadStep::Extract(plan) => {
                assert!(disk.files.contains_key(&plan.archive_path));
                if plan.remove_first {
                    disk.dirs.remove(&plan.dest_path);
                }
                disk.dirs.insert(plan.dest_path.clone());
                assert_eq!(plan.tar_hash, ticket.hash);
                assert_eq!(plan.target_dir, ticket.post_extract.as_ref().unwrap().target_dir);
                hub.record_extraction(&plan)?;
                UploadStep::Done
            }
            UploadStep::Done => return Ok(()),
        }
    }
}

fn post(hub: &mut MyPluginHub, disk: &mut Disk, token: &str, body: &[u8], now: u64) -> Result<(), HubError> {
    let ticket = accept_upload(hub, token, now)?;
    let probe = look_for(hub, disk, &ticket);
    let first = upload(hub, &ticket, probe)?;
    drive(hub, disk, &ticket, body, first)
}

fn post_status(hub: &mut MyPluginHub, disk: &mut Disk, token: &str, body: &[u8], now: u64) -> u16 {
    match post(hub, disk, token, body, now) {
        Ok(()) => 200,
        Err(e) => http_status(&e),
    }
}

fn get(hub: &MyPluginHub, disk: &Disk, token: &str, now: u64) -> Result<(String, String, Vec<u8>), HubError> {
    let on_disk = match hub.peek_download(token, now) {
        Ok(ticket) => look(hub, disk, &ticket.hash, None).archive_exists,
        Err(_) => false,
    };
    let found = download(hub, token, now, on_disk)?;
    Ok((found.content_type, found.content_disposition, disk.files[&found.path].clone()))
}

fn announce_upload(hub: &mut MyPluginHub, hash: &str, un_tar: Option<UnTarRequest>, now: u64) -> String {
    let request = UploadTarRequest { tar_hash: hash.to_string(), un_tar };
    rpc::upload_tar(hub, request, now).unwrap().data.unwrap().upload_url
}

fn announce_download(hub: &mut MyPluginHub, hash: &str, now: u64) -> String {
    let request = DownloadTarRequest { tar_hash: hash.to_string() };
    rpc::download_tar(hub, request, now).unwrap().data.unwrap().download_url
}

fn check(hub: &MyPluginHub, disk: &Disk, hash: &str, dir: &str) -> Result<(), i32> {
    let probe = look(hub, disk, hash, Some(dir));
    let request = CheckTarRequest { tar_hash: hash.to_string(), file_path: dir.to_string() };
    match rpc::check_tar(hub, request, probe.archive_exists, probe.target_exists) {
        Ok(_) => Ok(()),
        Err(status) => Err(code_of(&status)),
    }
}

fn un_tar(hub: &mut MyPluginHub, disk: &mut Disk, hash: &str, dir: &str, overwrite: Option<bool>) -> Result<bool, ErrorStatus> {
    let probe = look(hub, disk, hash, Some(dir));
    let request = UnTarRequest { tar_hash: hash.to_string(), target_dir: dir.to_string(), overwrite };
    let plan = rpc::un_tar(hub, request, probe)?;
    let removed = plan.remove_first;
    if plan.remove_first {
        disk.dirs.remove(&plan.dest_path);
    }
    disk.dirs.insert(plan.dest_path.clone());
    hub.record_extraction(&plan).unwrap();
    Ok(removed)
}

fn publish(hub: &mut MyPluginHub, disk: &mut Disk, bytes: &[u8], now: u64) -> String {
    let h = hash_hex(bytes);
    let token = announce_upload(hub, &h, None, now);
    assert_eq!(post_status(hub, disk, &token, bytes, now + 1), 200);
    h
}

#[test]
fn publish_then_consume() {
    let (mut hub, mut disk) = new_hub();
    let bytes = b"HELLO\n";
    let h = hash_hex(bytes);
    let t1 = announce_upload(&mut hub, &h, None, 1_000);
    assert_eq!(post_status(&mut hub, &mut disk, &t1, bytes, 2_000), 200);
    assert_eq!(disk.files.get(&format!("/srv/hub/__tar/{}.tar.gz", h)).unwrap(), bytes);
    assert_eq!(disk.files.len(), 1);
    let t2 = announce_download(&mut hub, &h, 3_000);
    assert_ne!(t1, t2);
    let (content_type, disposition, body) = get(&hub, &disk, &t2, 4_000).unwrap();
    assert_eq!(body, bytes);
    assert_eq!(content_type, "application/gzip");
    assert_eq!(disposition, format!("attachment; filename=\"{}.tar.gz\"", h));
}

#[test]
fn check_before_publish() {
    let (mut hub, mut disk) = new_hub();
    let bytes = b"HELLO\n";
    let h = hash_hex(bytes);
    assert_eq!(check(&hub, &disk, &h, "plug"), Err(1000));
    assert_eq!(publish(&mut hub, &mut disk, bytes, 0), h);
    assert_eq!(check(&hub, &disk, &h, "plug"), Err(1001));
    assert_eq!(un_tar(&mut hub, &mut disk, &h, "plug", Some(true)).unwrap(), false);
    assert!(disk.dirs.contains("/srv/hub/plug"));
    assert_eq!(check(&hub, &disk, &h, "plug"), Ok(()));
    assert_eq!(check(&hub, &disk, &h, "other"), Err(1001));
}

#[test]
fn corrupt_upload() {
    let (mut hub, mut disk) = new_hub();
    let h = hash_hex(b"HELLO\n");
    let token = announce_upload(&mut hub, &h, None, 0);
    match post(&mut hub, &mut disk, &token, b"HELLO!", 10) {
        Err(HubError::HashNotMatch(expected, found)) => {
            assert_eq!(expected, h);
            assert_eq!(found, hash_hex(b"HELLO!"));
        }
        other => panic!("{:?}", other),
    }
    let token = announce_upload(&mut hub, &h, None, 20);
    let error = post(&mut hub, &mut disk, &token, b"HELLO!", 30).unwrap_err();
    assert_eq!(http_status(&error), 500);
    assert_eq!(error.code(), 1008);
    assert!(hub.get_tar_hash(&h, look(&hub, &disk, &h, None).archive_exists).is_err());
    assert!(!disk.files.contains_key(&format!("/srv/hub/__tar/{}.tar.gz", h)));
    assert_eq!(check(&hub, &disk, &h, "plug"), Err(1000));
}

#[test]
fn expiry_race() {
    let (mut hub, mut disk) = new_hub();
    let bytes = b"HELLO\n";
    let h = hash_hex(bytes);
    let t1 = announce_upload(&mut hub, &h, None, 5_000);
    let error = post(&mut hub, &mut disk, &t1, bytes, 5_000 + 31_000).unwrap_err();
    assert_eq!(http_status(&error), 404);
    assert_eq!(error.code(), 1009);
    assert!(disk.files.is_empty());
    let t2 = announce_upload(&mut hub, &h, None, 50_000);
    assert_eq!(post_status(&mut hub, &mut disk, &t2, bytes, 50_000 + 29_999), 200);
    let t3 = announce_upload(&mut hub, &h, None, 100_000);
    assert_eq!(post_status(&mut hub, &mut disk, &t3, bytes, 100_000 + 30_000), 404);
}

#[test]
fn path_traversal() {
    let (mut hub, mut disk) = new_hub();
    let h = publish(&mut hub, &mut disk, b"HELLO\n", 0);
    let status = un_tar(&mut hub, &mut disk, &h, "../escape", Some(true)).unwrap_err();
    assert_eq!(code_of(&status), 1010);
    assert_eq!(status.category, StatusCategory::InvalidArgument);
    assert_eq!(status.message, "Invalid path: ../escape");
    assert!(disk.dirs.iter().all(|d| !d.contains("escape")));
    assert!(disk.dirs.is_empty());
    for bad in ["/etc", "a/b", "..", ".", "", "plug/../../x", "plug/", "plug/."] {
        let status = un_tar(&mut hub, &mut disk, &h, bad, Some(true)).unwrap_err();
        assert_eq!(code_of(&status), 1010, "{:?}", bad);
    }
    assert!(disk.dirs.is_empty());
}

#[test]
fn text_replace() {
    let (hub, _disk) = new_hub();
    let tree = vec![
        SourceFile { relative_path: "a.js".to_string(), content: "log(x)".to_string() },
        SourceFile { relative_path: "a.txt".to_string(), content: "log(x)".to_string() },
    ];
    let request = ReplaceTextRequest {
        target_dir: "plug".to_string(),
        old_text: "log".to_string(),
        new_text: "warn".to_string(),
        suffix: vec!["js".to_string()],
    };
    let out = rpc::replace_text(&hub, request, Some(&tree)).unwrap();
    assert_eq!(out.len(), 1);
    assert_eq!(out[0].path, "/srv/hub/plug/a.js");
    assert_eq!(out[0].content, "warn(x)");
}

#[test]
fn text_replace_needs_the_directory() {
    let (hub, _disk) = new_hub();
    let request = |dir: &str| ReplaceTextRequest {
        target_dir: dir.to_string(),
        old_text: "a".to_string(),
        new_text: "b".to_string(),
        suffix: vec!["js".to_string()],
    };
    let status = rpc::replace_text(&hub, request("plug"), None).unwrap_err();
    assert_eq!(code_of(&status), 1002);
    assert_eq!(status.category, StatusCategory::NotFound);
    assert_eq!(status.message, "Directory 'plug' not exist");
    let status = rpc::replace_text(&hub, request("../plug"), Some(&vec![])).unwrap_err();
    assert_eq!(code_of(&status), 1010);
    let status = rpc::replace_text(&hub, request("/"), None).unwrap_err();
    assert_eq!(code_of(&status), 1010);
}

#[test]
fn a_token_serves_one_upload() {
    let (mut hub, mut disk) = new_hub();
    let bytes = b"HELLO\n";
    let h = hash_hex(bytes);
    let token = announce_upload(&mut hub, &h, None, 0);
    assert_eq!(post_status(&mut hub, &mut disk, &token, bytes, 1), 200);
    assert_eq!(post_status(&mut hub, &mut disk, &token, bytes, 2), 404);
    assert!(matches!(hub.take_upload(&token, 2), Err(HubError::ResourceNotFound)));
}

#[test]
fn a_download_token_serves_until_it_expires() {
    let (mut hub, mut disk) = new_hub();
    let bytes = b"HELLO\n";
    let h = publish(&mut hub, &mut disk, bytes, 0);
    let token = announce_download(&mut hub, &h, 10_000);
    assert_eq!(get(&hub, &disk, &token, 10_000).unwrap().2, bytes);
    assert_eq!(get(&hub, &disk, &token, 10_000 + 1_799_999).unwrap().2, bytes);
    let error = get(&hub, &disk, &token, 10_000 + 1_800_000).unwrap_err();
    assert_eq!(http_status(&error), 404);
    assert_eq!(error.code(), 1009);
    let error = get(&hub, &disk, "no such token", 0).unwrap_err();
    assert_eq!(error.code(), 1009);
}

#[test]
fn a_download_needs_the_file() {
    let (mut hub, mut disk) = new_hub();
    let bytes = b"HELLO\n";
    let h = publish(&mut hub, &mut disk, bytes, 0);
    let token = announce_download(&mut hub, &h, 0);
    disk.files.clear();
    let error = get(&hub, &disk, &token, 1).unwrap_err();
    assert_eq!(error.code(), 1000);
    assert_eq!(http_status(&error), 404);
    let unknown = announce_download(&mut hub, "0000", 0);
    assert_eq!(get(&hub, &disk, &unknown, 1).unwrap_err().code(), 1000);
    let bad = announce_download(&mut hub, "../x", 0);
    let error = get(&hub, &disk, &bad, 1).unwrap_err();
    assert_eq!(error.code(), 1010);
    assert_eq!(http_status(&error), 400);
}

#[test]
fn publishing_twice_keeps_one_file() {
    let (mut hub, mut disk) = new_hub();
    let bytes = b"HELLO\n";
    let h = publish(&mut hub, &mut disk, bytes, 0);
    assert!(hub.get_tar_hash(&h, true).is_ok());
    let token = announce_upload(&mut hub, &h, None, 100);
    assert!(hub.get_tar_hash(&h, true).is_ok());
    let ticket = hub.take_upload(&token, 101).unwrap();
    assert!(matches!(upload(&hub, &ticket, look_for(&hub, &disk, &ticket)), Ok(UploadStep::Done)));
    assert_eq!(post_status(&mut hub, &mut disk, &token, b"anything at all", 102), 200);
    assert!(hub.get_tar_hash(&h, true).is_ok());
    assert_eq!(disk.files.len(), 1);
    assert_eq!(disk.files.values().next().unwrap(), bytes);
}

#[test]
fn an_upload_may_ask_to_be_unpacked() {
    let (mut hub, mut disk) = new_hub();
    let bytes = b"HELLO\n";
    let h = hash_hex(bytes);
    let un_tar = UnTarRequest { tar_hash: h.clone(), target_dir: "plug".to_string(), overwrite: None };
    let token = announce_upload(&mut hub, &h, Some(un_tar.clone()), 0);
    assert_eq!(post_status(&mut hub, &mut disk, &token, bytes, 1), 200);
    assert!(disk.dirs.contains("/srv/hub/plug"));
    assert_eq!(check(&hub, &disk, &h, "plug"), Ok(()));
    let token = announce_upload(&mut hub, &h, Some(un_tar.clone()), 10);
    let error = post(&mut hub, &mut disk, &token, bytes, 11).unwrap_err();
    assert_eq!(error.code(), 1005);
    assert_eq!(http_status(&error), 500);
    let again = UnTarRequest { overwrite: Some(true), ..un_tar };
    let token = announce_upload(&mut hub, &h, Some(again), 20);
    assert_eq!(post_status(&mut hub, &mut disk, &token, bytes, 21), 200);
}

#[test]
fn an_upload_into_an_invalid_directory_stores_the_archive_only() {
    let (mut hub, mut disk) = new_hub();
    let bytes = b"HELLO\n";
    let h = hash_hex(bytes);
    let un_tar = UnTarRequest { tar_hash: h.clone(), target_dir: "../escape".to_string(), overwrite: Some(true) };
    let token = announce_upload(&mut hub, &h, Some(un_tar), 0);
    let error = post(&mut hub, &mut disk, &token, bytes, 1).unwrap_err();
    assert_eq!(error.code(), 1010);
    assert_eq!(http_status(&error), 400);
    assert!(disk.dirs.is_empty());
    assert_eq!(disk.files.keys().collect::<Vec<_>>(), vec![&format!("/srv/hub/__tar/{}.tar.gz", h)]);
}

#[test]
fn a_hash_that_is_no_file_name_is_refused() {
    let (mut hub, mut disk) = new_hub();
    let token = announce_upload(&mut hub, "../../etc/passwd", None, 0);
    let error = post(&mut hub, &mut disk, &token, b"x", 1).unwrap_err();
    assert_eq!(error.code(), 1010);
    assert_eq!(http_status(&error), 400);
    assert!(disk.files.is_empty());
    assert!(hub.archive_paths("a/b").is_err());
    assert!(hub.archive_paths("").is_ok());
}

#[test]
fn overwrite_semantics() {
    let (mut hub, mut disk) = new_hub();
    let h = publish(&mut hub, &mut disk, b"HELLO\n", 0);
    assert_eq!(un_tar(&mut hub, &mut disk, &h, "plug", None).unwrap(), false);
    let status = un_tar(&mut hub, &mut disk, &h, "plug", Some(false)).unwrap_err();
    assert_eq!(code_of(&status), 1005);
    assert_eq!(status.category, StatusCategory::InvalidArgument);
    assert_eq!(status.message, "Directory 'plug' has exist");
    let status = un_tar(&mut hub, &mut disk, &h, "plug", None).unwrap_err();
    assert_eq!(code_of(&status), 1005);
    assert_eq!(un_tar(&mut hub, &mut disk, &h, "plug", Some(true)).unwrap(), true);
    let status = un_tar(&mut hub, &mut disk, "unknown", "fresh", Some(true)).unwrap_err();
    assert_eq!(code_of(&status), 1000);
    assert_eq!(status.category, StatusCategory::NotFound);
}

#[test]
fn the_buffered_upload_stores_then_remembers() {
    let (mut hub, mut disk) = new_hub();
    let bytes = b"HELLO\n";
    let h = hash_hex(bytes);
    let token = announce_upload(&mut hub, &h, None, 0);
    let ticket = accept_upload(&mut hub, &token, 1).unwrap();
    let probe = look_for(&hub, &disk, &ticket);
    assert!(!probe.archive_exists);
    assert!(matches!(hub.upload_tar(&ticket, b"other", probe), Err(HubError::HashNotMatch(_, _))));
    assert!(hub.get_tar_hash(&h, true).is_err());
    let step = hub.upload_tar(&ticket, bytes, probe).unwrap();
    match &step {
        UploadStep::Store { archive_path } => assert_eq!(archive_path, &format!("/srv/hub/__tar/{}.tar.gz", h)),
        other => panic!("{:?}", other),
    }
    assert!(hub.get_tar_hash(&h, true).is_err());
    drive(&mut hub, &mut disk, &ticket, bytes, step).unwrap();
    assert!(hub.get_tar_hash(&h, true).is_ok());
    assert!(hub.get_tar_hash(&h, false).is_err());
    assert_eq!(hub.download_tar("none", 0, Some(vec![1])).unwrap_err().code(), 1009);
    let t = announce_download(&mut hub, &h, 0);
    assert_eq!(hub.download_tar(&t, 1, Some(bytes.to_vec())).unwrap(), (h.clone(), bytes.to_vec()));
    assert_eq!(hub.download_tar(&t, 1, None).unwrap_err().code(), 1000);
}

#[test]
fn timers_remove_expired_tickets_only() {
    let (mut hub, _disk) = new_hub();
    let up = announce_upload(&mut hub, "h", None, 1_000);
    let down = announce_download(&mut hub, "h", 1_000);
    hub.expire_upload(&up, 30_999);
    hub.expire_download(&down, 1_800_999);
    assert!(hub.take_upload(&up, 30_999).is_ok());
    assert!(hub.peek_download(&down, 1_800_999).is_ok());
    assert!(hub.take_upload(&up, 31_000).is_err());
    hub.expire_upload(&up, 31_000);
    hub.expire_upload(&up, 31_000);
    hub.expire_download(&down, 1_801_000);
    assert!(hub.take_upload(&up, 1_000).is_err());
    assert!(hub.peek_download(&down, 1_000).is_err());
    hub.expire_upload("never issued", 0);
}

#[test]
fn reserved_requests_succeed() {
    assert!(matches!(
        rpc::clear_dir(extension_hub::abi::ClearDirRequest {}),
        Ok(extension_hub::abi::ClearDirResponse {})
    ));
    assert!(matches!(
        rpc::clear_tar_dir(extension_hub::abi::ClearTarDirRequest {}),
        Ok(extension_hub::abi::ClearTarDirResponse {})
    ));
}

#[test]
fn the_default_configuration() {
    let config = MyPluginHubConfig::default();
    assert_eq!(config.base_dir, "/tmp/plugin_hub");
    assert_eq!(config.tar_dir_path, "/tmp/plugin_hub/__tar");
    let hub = MyPluginHub::new(config);
    assert_eq!(hub.target_path("plug").unwrap(), "/tmp/plugin_hub/plug");
    let paths = hub.archive_paths("abc").unwrap();
    assert_eq!(paths.0, "/tmp/plugin_hub/__tar/abc.tar.gz");
    assert_eq!(paths.1, "/tmp/plugin_hub/__tar/__tmp__/abc.tar.gz");
}

#[test]
fn every_stored_archive_has_the_hash_of_its_name() {
    let (mut hub, mut disk) = new_hub();
    let bodies: [&[u8]; 4] = [b"HELLO\n", b"", b"another archive", &[7u8; 5000]];
    for (i, body) in bodies.iter().enumerate() {
        let h = hash_hex(body);
        let token = announce_upload(&mut hub, &h, None, i as u64);
        assert_eq!(post_status(&mut hub, &mut disk, &token, body, i as u64 + 1), 200);
        let wrong = announce_upload(&mut hub, &hash_hex(b"never sent"), None, i as u64);
        assert_eq!(post_status(&mut hub, &mut disk, &wrong, body, i as u64 + 1), 500);
    }
    let abandoned = format!("/srv/hub/__tar/__tmp__/{}.tar.gz", hash_hex(b"never sent"));
    assert!(disk.files.remove(&abandoned).is_some());
    assert_eq!(disk.files.len(), bodies.len());
    for (path, bytes) in &disk.files {
        assert_eq!(path, &format!("/srv/hub/__tar/{}.tar.gz", hash_hex(bytes)));
        assert!(hub.get_tar_hash(&hash_hex(bytes), true).is_ok());
    }
    assert!(hub.get_tar_hash(&hash_hex(b"never sent"), true).is_err());
}

#[test]
fn a_plan_for_no_single_name_records_nothing() {
    let (mut hub, mut disk) = new_hub();
    let h = publish(&mut hub, &mut disk, b"HELLO\n", 0);
    let probe = look(&hub, &disk, &h, Some("plug"));
    let mut plan = hub.un_tar_to_dir(&h, "plug", false, probe).unwrap();
    assert_eq!(plan.archive_path, format!("/srv/hub/__tar/{}.tar.gz", h));
    assert_eq!(plan.dest_path, "/srv/hub/plug");
    assert!(!plan.remove_first);
    plan.target_dir = "../plug".to_string();
    assert!(matches!(hub.record_extraction(&plan), Err(HubError::InvalidPath(_))));
    disk.dirs.insert("/srv/hub/plug".to_string());
    assert_eq!(check(&hub, &disk, &h, "plug"), Err(1001));
    plan.target_dir = "plug".to_string();
    hub.record_extraction(&plan).unwrap();
    assert_eq!(check(&hub, &disk, &h, "plug"), Ok(()));
    disk.dirs.clear();
    assert_eq!(check(&hub, &disk, &h, "plug"), Err(1001));
}

#[test]
fn the_index_is_kept_per_archive() {
    let (mut hub, mut disk) = new_hub();
    let a = publish(&mut hub, &mut disk, b"archive a", 0);
    let b = publish(&mut hub, &mut disk, b"archive b", 0);
    un_tar(&mut hub, &mut disk, &a, "plug", None).unwrap();
    un_tar(&mut hub, &mut disk, &a, "other", None).unwrap();
    assert_eq!(check(&hub, &disk, &a, "plug"), Ok(()));
    assert_eq!(check(&hub, &disk, &a, "other"), Ok(()));
    assert_eq!(check(&hub, &disk, &b, "plug"), Err(1001));
    un_tar(&mut hub, &mut disk, &b, "plug", Some(true)).unwrap();
    assert_eq!(check(&hub, &disk, &b, "plug"), Ok(()));
    assert_eq!(check(&hub, &disk, &a, "plug"), Ok(()));
}

#[test]
fn the_registries_are_kept_apart() {
    let (mut hub, _disk) = new_hub();
    let first = UploadTarRequest { tar_hash: "one".to_string(), un_tar: None };
    let second = UploadTarRequest {
        tar_hash: "two".to_string(),
        un_tar: Some(UnTarRequest { tar_hash: "ignored".to_string(), target_dir: "plug".to_string(), overwrite: Some(true) }),
    };
    hub.issue_upload("token", first, 0);
    assert_eq!(hub.take_upload("token", 1).unwrap().hash, "one");
    assert!(hub.take_upload("token", 1).unwrap().post_extract.is_none());
    hub.issue_upload("token", second, 10);
    let ticket = hub.take_upload("token", 11).unwrap();
    assert_eq!(ticket.hash, "two");
    assert_eq!(ticket.issued_at, 10);
    let post = ticket.post_extract.unwrap();
    assert_eq!(post.target_dir, "plug");
    assert!(post.overwrite);
    assert!(hub.peek_download("token", 11).is_err());
    hub.issue_download("token", DownloadTarRequest { tar_hash: "three".to_string() }, 20);
    assert_eq!(hub.peek_download("token", 21).unwrap().hash, "three");
    assert_eq!(hub.take_upload("token", 21).unwrap().hash, "two");
    assert_eq!(hub.consume_upload("token", 22).unwrap().hash, "two");
    assert!(hub.take_upload("token", 23).is_err());
    assert_eq!(hub.peek_download("token", 23).unwrap().hash, "three");
}

#[test]
fn a_check_refuses_an_invalid_directory_first() {
    let (mut hub, mut disk) = new_hub();
    for bad in ["../x", "/etc", "a/b", "..", "plug/", ""] {
        assert_eq!(check(&hub, &disk, "unknown", bad), Err(1010), "{:?}", bad);
    }
    let h = publish(&mut hub, &mut disk, b"HELLO\n", 0);
    un_tar(&mut hub, &mut disk, &h, "plug", None).unwrap();
    for bad in ["../x", "/etc", "a/b", "..", "plug/", "plug/.", ""] {
        assert_eq!(check(&hub, &disk, &h, bad), Err(1010), "{:?}", bad);
        let request = CheckTarRequest { tar_hash: h.clone(), file_path: bad.to_string() };
        let status = rpc::check_tar(&hub, request, true, true).unwrap_err();
        assert_eq!(status.category, StatusCategory::InvalidArgument);
        assert_eq!(status.message, format!("Invalid path: {}", bad));
        match hub.check_tar_dir(&h, bad, true, true) {
            Err(HubError::InvalidPath(p)) => assert_eq!(p, bad),
            other => panic!("{:?} gave {:?}", bad, other),
        }
    }
    assert_eq!(check(&hub, &disk, &h, "plug"), Ok(()));
    assert_eq!(check(&hub, &disk, "unknown", "plug"), Err(1000));
}

#[test]
fn a_file_on_disk_does_not_spare_the_digest() {
    let (mut hub, mut disk) = new_hub();
    let bytes = b"HELLO\n";
    let h = hash_hex(bytes);
    let path = format!("/srv/hub/__tar/{}.tar.gz", h);
    disk.files.insert(path.clone(), b"put there by someone else".to_vec());
    let token = announce_upload(&mut hub, &h, None, 0);
    let ticket = accept_upload(&mut hub, &token, 1).unwrap();
    let probe = look_for(&hub, &disk, &ticket);
    assert!(probe.archive_exists);
    match hub.upload_tar(&ticket, b"other bytes", probe) {
        Err(HubError::HashNotMatch(expected, found)) => {
            assert_eq!(expected, h);
            assert_eq!(found, hash_hex(b"other bytes"));
        }
        other => panic!("{:?}", other),
    }
    assert!(hub.get_tar_hash(&h, true).is_err());
    assert_eq!(disk.files[&path], b"put there by someone else".to_vec());
    let with_unpacking = Ticket {
        hash: h.clone(),
        post_extract: Some(extension_hub::maps::PostExtract { target_dir: "plug".to_string(), overwrite: true }),
        issued_at: 0,
    };
    assert!(matches!(
        hub.upload_tar(&with_unpacking, b"other bytes", probe),
        Err(HubError::HashNotMatch(_, _))
    ));
    assert!(hub.get_tar_hash(&h, true).is_err());
    assert!(disk.dirs.is_empty());
    assert!(matches!(hub.upload_tar(&ticket, bytes, probe), Ok(UploadStep::Done)));
    assert!(hub.get_tar_hash(&h, true).is_ok());
}
