use filestore_client::cli::Opt;
use filestore_client::config::{host_of, pick_config, pick_existing};
use filestore_client::download::{admit_save, pull_target, Receipt, SaveAction, SaveTarget};
use filestore_client::error::ClientError;
use filestore_client::image::{plan_image, BatchPhase};
use filestore_client::paths::TreeFile;
use filestore_client::registry::Registry;
use filestore_client::upload::{Upload, UploadAction, UploadPhase, MAX_DRAIN_POLLS};
use filestore_client::wire::{sort_listing, Entry, FileInfo, Timestamp};

fn info(name: &str, size: u64, b3: Option<&str>) -> FileInfo {
    FileInfo {
        name: name.to_string(),
        size,
        create_time: Timestamp { secs: 0, nanos: 0 },
        b3: b3.map(|s| s.to_string()),
        sha256: None,
        can_modify: true,
    }
}

fn entry(kind: u8, name: &str) -> Entry {
    Entry { file_type: kind, name: name.to_string(), size: 0, create_time: Timestamp { secs: 1, nanos: 2 } }
}

#[test]
fn sync_upload_sequence() {
    let mut u = Upload::new(7, 6, false);
    assert_eq!(u.on_chunk(6), UploadAction::Write { key: 7 });
    assert_eq!(u.progress(), 6);
    assert_eq!(u.on_chunk(0), UploadAction::Finish { key: 7 });
    u.on_finished();
    assert_eq!(u.phase, UploadPhase::Done);
}

#[test]
fn async_upload_300k_sequence() {
    let size = 300 * 1024;
    let mut u = Upload::new(9, size, true);
    assert_eq!(u.on_chunk(131072), UploadAction::WriteOffset { key: 9, offset: 0 });
    assert_eq!(u.on_chunk(131072), UploadAction::WriteOffset { key: 9, offset: 131072 });
    assert_eq!(u.on_chunk(45056), UploadAction::WriteOffset { key: 9, offset: 262144 });
    assert_eq!(u.sent, size);
    assert_eq!(u.on_chunk(0), UploadAction::CheckFinish { key: 9 });
    assert_eq!(u.on_check(false), UploadAction::PauseThenCheck { key: 9 });
    assert_eq!(u.on_check(true), UploadAction::Finish { key: 9 });
    assert_eq!(u.phase, UploadPhase::Finishing);
}

#[test]
fn drain_gives_up_after_twenty_polls() {
    let mut u = Upload::new(1, 10, true);
    u.on_chunk(10);
    assert_eq!(u.on_chunk(0), UploadAction::CheckFinish { key: 1 });
    for _ in 0..(MAX_DRAIN_POLLS - 1) {
        assert_eq!(u.on_check(false), UploadAction::PauseThenCheck { key: 1 });
    }
    assert_eq!(u.on_check(false), UploadAction::Finish { key: 1 });
    assert_eq!(u.polls, 20);
}

#[test]
fn chunk_after_end_is_ignored() {
    let mut u = Upload::new(1, 0, false);
    assert_eq!(u.on_chunk(0), UploadAction::Finish { key: 1 });
    assert_eq!(u.on_chunk(5), UploadAction::Idle);
    assert_eq!(u.sent, 0);
}

#[test]
fn image_push_rejected_by_lock() {
    let files = vec![
        TreeFile { dirs: vec![], name: "a".to_string() },
        TreeFile { dirs: vec!["foo".to_string()], name: "bar".to_string() },
        TreeFile { dirs: vec![], name: "c".to_string() },
    ];
    let mut batch = plan_image(&None, "img", "img".to_string(), &files).unwrap();
    assert_eq!(batch.next_file(), None);
    let r = batch.on_lock_reply(false, "conflict: foo/bar".to_string());
    match r {
        Err(ClientError::RemoteRejected(msg)) => assert!(msg.contains("conflict: foo/bar")),
        other => panic!("unexpected {:?}", other),
    }
    assert_eq!(batch.phase, BatchPhase::Rejected);
    for _ in 0..5 {
        assert_eq!(batch.next_file(), None);
    }
}

#[test]
fn image_push_admitted_hands_out_each_file() {
    let files = vec![
        TreeFile { dirs: vec![], name: "a".to_string() },
        TreeFile { dirs: vec!["s".to_string()], name: "b".to_string() },
    ];
    let mut batch = plan_image(&Some("d".to_string()), "img", "img".to_string(), &files).unwrap();
    assert_eq!(batch.names, vec!["d/img/a", "d/img/s/b"]);
    assert_eq!(batch.on_lock_reply(true, String::new()), Ok(()));
    assert_eq!(batch.next_file(), Some(0));
    assert_eq!(batch.next_file(), Some(1));
    assert_eq!(batch.next_file(), None);
    assert_eq!(batch.phase, BatchPhase::Done);
}

#[test]
fn empty_image_is_refused() {
    let r = plan_image(&None, "img", "some/img".to_string(), &vec![]);
    assert!(matches!(r, Err(ClientError::LocalPathInvalid(p)) if p == "some/img"));
}

#[test]
fn pull_overwrite_refused() {
    let path = "out.bin".to_string();
    assert_eq!(admit_save(&path, true, false), Err(ClientError::SavePathConflict("out.bin".to_string())));
    assert_eq!(admit_save(&path, true, true), Ok(SaveAction::ReplaceExisting));
    assert_eq!(admit_save(&path, false, false), Ok(SaveAction::Create));
}

#[test]
fn pull_needs_remote_digest() {
    let r = pull_target(&info("f.bin", 3, None), "dir/f.bin".to_string(), &SaveTarget::Here);
    assert_eq!(r, Err(ClientError::UnpullableRemote("dir/f.bin".to_string())));
}

#[test]
fn pull_save_path_resolution() {
    let i = info("f.bin", 3, Some("abcd"));
    let t = pull_target(&i, "r/f.bin".to_string(), &SaveTarget::Here).unwrap();
    assert_eq!(t.path, "f.bin");
    assert_eq!(t.digest, "abcd");
    assert_eq!(t.size, 3);
    let t = pull_target(&i, "r/f.bin".to_string(), &SaveTarget::IntoDir("down".to_string())).unwrap();
    assert_eq!(t.path, "down/f.bin");
    let t = pull_target(&i, "r/f.bin".to_string(), &SaveTarget::AsFile("x/y.bin".to_string())).unwrap();
    assert_eq!(t.path, "x/y.bin");
}

#[test]
fn async_pull_counts_reach_size() {
    let mut r = Receipt::new(1_000_000);
    let mut done = Vec::new();
    for _ in 0..7 {
        done.push(r.on_count(131072));
    }
    done.push(r.on_count(1_000_000 - 917504));
    assert_eq!(done, vec![false, false, false, false, false, false, false, true]);
    assert_eq!(r.received, 1_000_000);
    assert_eq!(r.progress(), 1_000_000);
}

#[test]
fn receipt_saturates() {
    let mut r = Receipt::new(10);
    assert!(r.on_count(u64::MAX));
    assert!(r.on_count(5));
    assert_eq!(r.received, u64::MAX);
    assert_eq!(r.progress(), 10);
}

#[test]
fn sync_pull_stops_on_empty_block() {
    let mut r = Receipt::new(5);
    assert!(r.on_block(3));
    assert!(r.on_block(2));
    assert!(!r.on_block(0));
    assert_eq!(r.received, 5);
}

#[test]
fn registry_lifecycle() {
    let mut reg: Registry<Vec<u8>> = Registry::new();
    assert_eq!(reg.checkout(3), Err(ClientError::UnknownKey(3)));
    reg.create(3, vec![1]);
    reg.create(3, vec![2]);
    assert!(reg.contains(3));
    assert_eq!(reg.checkout(3), Ok(vec![2]));
    assert!(!reg.contains(3));
    reg.create(3, vec![4]);
    assert_eq!(reg.close(3), Some(vec![4]));
    assert_eq!(reg.close(3), None);
}

#[test]
fn listing_puts_directories_first() {
    let sorted = sort_listing(vec![entry(0, "a"), entry(1, "d1"), entry(0, "b"), entry(1, "d2")]);
    let names: Vec<&str> = sorted.iter().map(|e| e.name.as_str()).collect();
    assert_eq!(names, vec!["d1", "d2", "a", "b"]);
    assert!(sort_listing(vec![]).is_empty());
}

#[test]
fn config_and_tls_lookup() {
    assert_eq!(pick_config("./config".into(), true, "/exe/config".into(), true), Ok("./config".to_string()));
    assert_eq!(pick_config("./config".into(), false, "/exe/config".into(), true), Ok("/exe/config".to_string()));
    assert_eq!(pick_config("./config".into(), false, "/exe/config".into(), false), Err(ClientError::ConfigMissing));
    assert_eq!(pick_existing("c.pem".into(), false, "/exe/c.pem".into(), false), Err(ClientError::TlsMaterialMissing("/exe/c.pem".to_string())));
    assert_eq!(pick_existing("c.pem".into(), true, "/exe/c.pem".into(), false), Ok("c.pem".to_string()));
}

#[test]
fn host_is_address_before_port() {
    assert_eq!(host_of("127.0.0.1:6666"), "127.0.0.1");
    assert_eq!(host_of("example.org"), "example.org");
    assert_eq!(host_of(""), "");
}

#[test]
fn create_needs_no_server() {
    assert!(!Opt::Create.needs_server());
    assert!(Opt::ShowDir { dir: "/".to_string() }.needs_server());
}

/// Where each chunk of a file of `size` bytes lands when read in blocks of
/// `block` bytes, in the given mode.
fn placements(size: u64, block: usize, is_async: bool) -> Vec<u64> {
    let mut u = Upload::new(5, size, is_async);
    let mut left = size;
    let mut out = Vec::new();
    while left > 0 {
        let len = left.min(block as u64);
        let before = u.sent;
        match u.on_chunk(len as usize) {
            UploadAction::WriteOffset { key: 5, offset } => out.push(offset),
            UploadAction::Write { key: 5 } => out.push(before),
            other => panic!("unexpected {:?}", other),
        }
        left -= len;
    }
    assert_eq!(u.sent, size);
    out
}

#[test]
fn sync_and_async_place_chunks_alike_for_each_block() {
    let size = 1_100_000u64;
    for block in [1usize, 1024, 65536, 131072, 1_048_576] {
        if block == 1 {
            let small = 3000u64;
            assert_eq!(placements(small, block, false), placements(small, block, true));
            continue;
        }
        let sync = placements(size, block, false);
        let asyn = placements(size, block, true);
        assert_eq!(sync, asyn);
        let expected: Vec<u64> = (0..sync.len() as u64).map(|i| i * block as u64).collect();
        assert_eq!(asyn, expected);
    }
}

use filestore_client::download::{Pull, PullAction, PullPhase};

#[test]
fn pull_async_sequence() {
    let mut p = Pull::new("r/big.bin".to_string(), SaveTarget::Here, false, true);
    assert_eq!(p.on_info(&info("big.bin", 1_000_000, Some("hh"))), PullAction::Probe);
    assert_eq!(p.path, "big.bin");
    assert_eq!(p.on_probe(false), PullAction::Open);
    assert_eq!(p.on_opened(42), PullAction::StartAsync { key: 42 });
    for _ in 0..7 {
        assert_eq!(p.on_count(131072), PullAction::Wait);
    }
    assert_eq!(p.on_count(1_000_000 - 917504), PullAction::Close { key: 42 });
    assert_eq!(p.receipt.received, 1_000_000);
    assert_eq!(p.on_digest(&"hh".to_string()), PullAction::Keep);
    assert_eq!(p.phase, PullPhase::Done);
}

#[test]
fn pull_sync_sequence() {
    let mut p = Pull::new("f".to_string(), SaveTarget::IntoDir("d".to_string()), true, false);
    assert_eq!(p.on_info(&info("f", 5, Some("hh"))), PullAction::Probe);
    assert_eq!(p.path, "d/f");
    assert_eq!(p.on_probe(true), PullAction::ReplaceThenOpen);
    assert_eq!(p.on_opened(3), PullAction::Read { key: 3, offset: 0 });
    assert_eq!(p.on_block(4), PullAction::Read { key: 3, offset: 4 });
    assert_eq!(p.on_block(1), PullAction::Read { key: 3, offset: 5 });
    assert_eq!(p.on_block(0), PullAction::Close { key: 3 });
    assert_eq!(p.on_count(9), PullAction::Idle);
}

#[test]
fn pull_hash_mismatch() {
    let mut p = Pull::new("f".to_string(), SaveTarget::Here, false, false);
    p.on_info(&info("f", 1, Some("good")));
    p.on_probe(false);
    p.on_opened(1);
    p.on_block(1);
    assert_eq!(p.on_block(0), PullAction::Close { key: 1 });
    assert_eq!(
        p.on_digest(&"bad".to_string()),
        PullAction::Discard(ClientError::HashMismatch { remote: "good".to_string(), local: "bad".to_string() })
    );
    assert_eq!(p.phase, PullPhase::Failed);
}

#[test]
fn pull_refused_when_save_exists() {
    let mut p = Pull::new("f".to_string(), SaveTarget::AsFile("out.bin".to_string()), false, true);
    p.on_info(&info("f", 1, Some("h")));
    assert_eq!(p.on_probe(true), PullAction::Fail(ClientError::SavePathConflict("out.bin".to_string())));
    assert_eq!(p.phase, PullPhase::Failed);
    assert_eq!(p.on_opened(7), PullAction::Idle);
    assert_eq!(p.on_count(1), PullAction::Idle);
}

#[test]
fn pull_of_remote_without_digest_stops() {
    let mut p = Pull::new("r/f".to_string(), SaveTarget::Here, false, false);
    assert_eq!(p.on_info(&info("f", 1, None)), PullAction::Fail(ClientError::UnpullableRemote("r/f".to_string())));
    assert_eq!(p.on_probe(false), PullAction::Idle);
}
