use std::io::Read;

use sha::utils::{Digest, DigestExt};
use ttr_launcher_oxide::codec::{apply_bspatch, decompress};
use ttr_launcher_oxide::error::{Checkpoint, UpdateError};
use ttr_launcher_oxide::install::{check_hash, download_fresh, patch_file, verify_patch};
use ttr_launcher_oxide::manifest::{applicable, FileObject, Manifest, PatchObject};
use ttr_launcher_oxide::reconcile::{choose_action, plan_file, Action};
use ttr_launcher_oxide::report::{
    file_outcome, set_executable, temp_path, FileOutcome, UpdateReport,
};
use ttr_launcher_oxide::task::{step, Command, FileEvent, FileTask};

fn hex(data: &[u8]) -> String {
    sha::sha1::Sha1::default().digest(data).to_hex()
}

fn bz(data: &[u8]) -> Vec<u8> {
    let mut out = Vec::new();
    bzip2::read::BzEncoder::new(data, bzip2::Compression::default())
        .read_to_end(&mut out)
        .unwrap();
    out
}

fn diff(source: &[u8], target: &[u8]) -> Vec<u8> {
    let mut out = Vec::new();
    qbsdiff::Bsdiff::new(source, target).compare(&mut out).unwrap();
    out
}

fn file(dl: &str, only: &[&str], hash: &str, comp_hash: &str) -> FileObject {
    FileObject {
        dl: dl.to_string(),
        only: only.iter().map(|s| s.to_string()).collect(),
        hash: hash.to_string(),
        comp_hash: comp_hash.to_string(),
        patches: Vec::new(),
    }
}

fn patch_obj(filename: &str, comp_patch_hash: &str, patch_hash: &str) -> PatchObject {
    PatchObject {
        filename: filename.to_string(),
        comp_patch_hash: comp_patch_hash.to_string(),
        patch_hash: patch_hash.to_string(),
    }
}

const ORIGINAL: &[u8] = b"engine build 1: the quick brown fox jumps over the lazy dog, twice over.";
const TARGET: &[u8] = b"engine build 2: the quick brown fox leaps over the lazy dog, twice over!!";

/// A file whose target is TARGET, with a patch from ORIGINAL, and the
/// compressed patch that goes with it.
fn patched_fixture() -> (FileObject, Vec<u8>) {
    let raw_patch = diff(ORIGINAL, TARGET);
    let comp_patch = bz(&raw_patch);
    let full = bz(TARGET);
    let mut obj = file("t.bz2", &["linux2"], &hex(TARGET), &hex(&full));
    obj.patches.push((
        hex(ORIGINAL),
        patch_obj("t.patch.bz2", &hex(&comp_patch), &hex(&raw_patch)),
    ));
    (obj, comp_patch)
}

#[test]
fn fresh_download_scenario() {
    let content = b"linux engine bytes".to_vec();
    let payload = bz(&content);
    let obj = file("a.bz2", &["linux2"], &hex(&content), &hex(&payload));
    let manifest: Manifest = vec![("a.bin".to_string(), obj)];
    let mut kept = applicable(manifest, &"linux2".to_string());
    assert_eq!(kept.len(), 1);
    let (name, obj) = kept.remove(0);
    assert_eq!(name, "a.bin");

    let (task, cmd) = step(FileTask::ReadLocal, FileEvent::Local(None), &obj);
    match cmd {
        Command::Fetch(n) => assert_eq!(n, "a.bz2"),
        other => panic!("expected a fetch, got {:?}", other),
    }
    let (task, cmd) = step(task, FileEvent::Fetched(Ok(payload)), &obj);
    match cmd {
        Command::Write(w) => {
            assert_eq!(w, content);
            assert_eq!(hex(&w), obj.hash);
        }
        other => panic!("expected a write, got {:?}", other),
    }
    let (task, cmd) = step(task, FileEvent::Written(Ok(())), &obj);
    assert!(matches!(task, FileTask::Done(FileOutcome::FreshlyInstalled)));
    assert!(matches!(cmd, Command::Finish));
}

#[test]
fn present_current_file_scenario() {
    let content = b"linux engine bytes".to_vec();
    let payload = bz(&content);
    let obj = file("a.bz2", &["linux2"], &hex(&content), &hex(&payload));
    let (task, cmd) = step(FileTask::ReadLocal, FileEvent::Local(Some(content)), &obj);
    assert!(matches!(task, FileTask::Done(FileOutcome::UpToDate)));
    assert!(matches!(cmd, Command::Finish));
}

#[test]
fn current_file_is_up_to_date() {
    let (obj, _) = patched_fixture();
    assert_eq!(plan_file(Some(TARGET), &obj), Action::UpToDate);
    assert_eq!(choose_action(Some(&hex(TARGET)), &obj), Action::UpToDate);
}

#[test]
fn absent_file_is_downloaded() {
    let (obj, _) = patched_fixture();
    assert_eq!(plan_file(None, &obj), Action::Download);
    assert_eq!(choose_action(None, &obj), Action::Download);
}

#[test]
fn known_source_is_patched() {
    let (obj, _) = patched_fixture();
    assert_eq!(plan_file(Some(ORIGINAL), &obj), Action::Patch(0));
}

#[test]
fn unknown_source_is_downloaded() {
    let (obj, _) = patched_fixture();
    assert_eq!(plan_file(Some(b"something else"), &obj), Action::Download);
}

#[test]
fn first_patch_with_key_is_chosen() {
    let mut obj = file("f.bz2", &["win64"], "target", "comp");
    obj.patches.push(("other".to_string(), patch_obj("o", "c", "p")));
    obj.patches.push(("src".to_string(), patch_obj("s", "c", "p")));
    assert_eq!(choose_action(Some(&"src".to_string()), &obj), Action::Patch(1));
    assert_eq!(obj.find_patch(&"src".to_string()), Some(1));
    assert_eq!(obj.find_patch(&"none".to_string()), None);
}

#[test]
fn patch_round_trip() {
    let (obj, comp_patch) = patched_fixture();
    let patch = &obj.patches[0].1;
    let target = patch_file(&comp_patch, patch, &obj, ORIGINAL).unwrap();
    assert_eq!(target, TARGET.to_vec());
    assert_eq!(hex(&target), obj.hash);
}

#[test]
fn patch_through_task() {
    let (obj, comp_patch) = patched_fixture();
    let (task, cmd) = step(FileTask::ReadLocal, FileEvent::Local(Some(ORIGINAL.to_vec())), &obj);
    match cmd {
        Command::Fetch(n) => assert_eq!(n, "t.patch.bz2"),
        other => panic!("expected a fetch, got {:?}", other),
    }
    let (task, cmd) = step(task, FileEvent::Fetched(Ok(comp_patch)), &obj);
    match cmd {
        Command::Write(w) => assert_eq!(w, TARGET.to_vec()),
        other => panic!("expected a write, got {:?}", other),
    }
    let (task, _) = step(task, FileEvent::Written(Ok(())), &obj);
    assert!(matches!(task, FileTask::Done(FileOutcome::Patched)));
}

#[test]
fn corrupt_download_is_rejected() {
    let content = b"payload content".to_vec();
    let mut payload = bz(&content);
    let obj = file("a.bz2", &["linux2"], &hex(&content), &hex(&payload));
    let last = payload.len() - 1;
    payload[last] ^= 0x01;
    assert!(matches!(
        download_fresh(&payload, &obj),
        Err(UpdateError::IntegrityMismatch(Checkpoint::Download))
    ));
    let task = FileTask::Fetching { action: Action::Download, original: None };
    let (task, cmd) = step(task, FileEvent::Fetched(Ok(payload)), &obj);
    assert!(matches!(cmd, Command::Finish));
    assert!(matches!(
        task,
        FileTask::Done(FileOutcome::Failed(UpdateError::IntegrityMismatch(Checkpoint::Download)))
    ));
}

#[test]
fn corrupt_patch_is_rejected() {
    let (obj, mut comp_patch) = patched_fixture();
    comp_patch[10] ^= 0x80;
    let patch = &obj.patches[0].1;
    assert!(matches!(
        patch_file(&comp_patch, patch, &obj, ORIGINAL),
        Err(UpdateError::IntegrityMismatch(Checkpoint::CompressedPatch))
    ));
    let task = FileTask::Fetching { action: Action::Patch(0), original: Some(ORIGINAL.to_vec()) };
    let (_, cmd) = step(task, FileEvent::Fetched(Ok(comp_patch)), &obj);
    assert!(matches!(cmd, Command::Finish));
}

#[test]
fn wrong_decompressed_patch_hash_is_rejected() {
    let raw_patch = diff(ORIGINAL, TARGET);
    let comp_patch = bz(&raw_patch);
    let patch = patch_obj("p", &hex(&comp_patch), "0000");
    assert!(matches!(
        verify_patch(&comp_patch, &patch),
        Err(UpdateError::IntegrityMismatch(Checkpoint::Patch))
    ));
}

#[test]
fn wrong_content_hash_is_rejected() {
    let content = b"payload content".to_vec();
    let payload = bz(&content);
    let obj = file("a.bz2", &["linux2"], "not the hash", &hex(&payload));
    assert!(matches!(
        download_fresh(&payload, &obj),
        Err(UpdateError::IntegrityMismatch(Checkpoint::Content))
    ));
}

#[test]
fn patched_result_with_wrong_hash_is_rejected() {
    let (mut obj, comp_patch) = patched_fixture();
    obj.hash = hex(b"another target");
    let patch = &obj.patches[0].1;
    assert!(matches!(
        patch_file(&comp_patch, patch, &obj, ORIGINAL),
        Err(UpdateError::IntegrityMismatch(Checkpoint::Content))
    ));
}

#[test]
fn undecodable_payload_is_reported() {
    let payload = b"not bzip2 at all".to_vec();
    let obj = file("a.bz2", &["linux2"], "h", &hex(&payload));
    assert!(matches!(download_fresh(&payload, &obj), Err(UpdateError::Decompressing)));
}

#[test]
fn invalid_patch_is_reported() {
    let raw_patch = b"this is not a bsdiff patch".to_vec();
    let comp_patch = bz(&raw_patch);
    let patch = patch_obj("p", &hex(&comp_patch), &hex(&raw_patch));
    let obj = file("t.bz2", &["linux2"], &hex(TARGET), "c");
    assert!(matches!(
        patch_file(&comp_patch, &patch, &obj, ORIGINAL),
        Err(UpdateError::Patching)
    ));
}

#[test]
fn out_of_range_patch_header_is_refused() {
    let mut raw_patch = diff(ORIGINAL, TARGET);
    raw_patch[15] = 0xff;
    assert_eq!(apply_bspatch(&raw_patch, ORIGINAL), None);
}

#[test]
fn bspatch_produces_target() {
    let raw_patch = diff(ORIGINAL, TARGET);
    assert_eq!(apply_bspatch(&raw_patch, ORIGINAL), Some(TARGET.to_vec()));
}

#[test]
fn decompress_restores_bytes() {
    let data = b"some bytes to squeeze".to_vec();
    let packed = bz(&data);
    assert_ne!(packed, data);
    assert_eq!(decompress(&packed), Some(data));
}

#[test]
fn second_run_is_up_to_date() {
    let content = b"installed content".to_vec();
    let payload = bz(&content);
    let obj = file("a.bz2", &["linux2"], &hex(&content), &hex(&payload));
    let written = download_fresh(&payload, &obj).unwrap();
    assert_eq!(plan_file(Some(&written), &obj), Action::UpToDate);

    let (pobj, comp_patch) = patched_fixture();
    let patched = patch_file(&comp_patch, &pobj.patches[0].1, &pobj, ORIGINAL).unwrap();
    assert_eq!(plan_file(Some(&patched), &pobj), Action::UpToDate);
}

#[test]
fn temp_path_differs_from_destination() {
    let dest = "dir/a.bin".to_string();
    let t = temp_path(&dest);
    assert_eq!(t, "dir/a.bin.part");
    assert_ne!(t, dest);
}

#[test]
fn applicable_keeps_platform_entries_in_order() {
    let manifest: Manifest = vec![
        ("one".to_string(), file("1", &["linux2", "darwin"], "h", "c")),
        ("two".to_string(), file("2", &["win32"], "h", "c")),
        ("three".to_string(), file("3", &[], "h", "c")),
        ("four".to_string(), file("4", &["win64", "linux2"], "h", "c")),
    ];
    let kept = applicable(manifest, &"linux2".to_string());
    let names: Vec<&str> = kept.iter().map(|e| e.0.as_str()).collect();
    assert_eq!(names, vec!["one", "four"]);
    assert!(kept[0].1.is_applicable(&"darwin".to_string()));
    assert!(!kept[0].1.is_applicable(&"win32".to_string()));
}

#[test]
fn set_executable_adds_owner_bits() {
    assert_eq!(set_executable(0o644), 0o744);
    assert_eq!(set_executable(0), 0o500);
    assert_eq!(set_executable(0o755), 0o755);
    assert_eq!(set_executable(0o100600), 0o100700);
}

#[test]
fn check_hash_compares() {
    assert!(check_hash(&"ab".to_string(), &"ab".to_string(), Checkpoint::Download).is_ok());
    assert!(matches!(
        check_hash(&"ab".to_string(), &"cd".to_string(), Checkpoint::Patch),
        Err(UpdateError::IntegrityMismatch(Checkpoint::Patch))
    ));
}

#[test]
fn sha1_of_known_input() {
    // A file holding "abc" is current exactly when the manifest names the
    // SHA-1 of "abc".
    let obj = file("x", &["linux2"], "a9993e364706816aba3e25717850c26c9cd0d89d", "c");
    assert_eq!(plan_file(Some(b"abc"), &obj), Action::UpToDate);
}

#[test]
fn outcomes_and_report() {
    assert!(matches!(file_outcome(Action::Patch(3), Ok(())), FileOutcome::Patched));
    assert!(matches!(file_outcome(Action::Download, Ok(())), FileOutcome::FreshlyInstalled));
    assert!(matches!(file_outcome(Action::UpToDate, Ok(())), FileOutcome::UpToDate));
    assert!(matches!(
        file_outcome(Action::Download, Err(UpdateError::IO("disk".to_string()))),
        FileOutcome::Failed(UpdateError::IO(_))
    ));
    let clean = UpdateReport {
        files: vec![("a".to_string(), FileOutcome::Patched)],
        fixup: Ok(()),
    };
    assert!(clean.is_clean());
    let failed = UpdateReport {
        files: vec![
            ("a".to_string(), FileOutcome::Patched),
            ("b".to_string(), FileOutcome::Failed(UpdateError::Patching)),
        ],
        fixup: Ok(()),
    };
    assert!(!failed.is_clean());
    let fixup_failed = UpdateReport {
        files: vec![],
        fixup: Err(UpdateError::IO("chmod".to_string())),
    };
    assert!(!fixup_failed.is_clean());
}
