use rbackup::config::S3Server;
use rbackup::progress::{chunk_plan, TransferProgress, CHUNK_SIZE};
use rbackup::remote_dir::{already_exists, DirAction, DirEvent, DirMaterializer, ErrorCode, ALREADY_EXISTS};
use rbackup::resolve::{is_glob_pattern, keep_files, resolve_path, resolve_pattern, Candidate, EntryKind, ResolveError};
use rbackup::session::{SessionEvent, SshUpload, Stage};
use rbackup::transfer::{region_choice, s3_region, Batch, RegionChoice, TransferError};

fn cand(p: &str, k: EntryKind) -> Candidate {
    Candidate { path: p.to_string(), kind: k }
}

fn target(region: &str, endpoint: Option<&str>) -> S3Server {
    S3Server {
        name: "s".to_string(),
        access_key: "ak".to_string(),
        secret_key: "sk".to_string(),
        bucket: "b".to_string(),
        region: region.to_string(),
        endpoint: endpoint.map(|e| e.to_string()),
        default_path: "/".to_string(),
    }
}

#[test]
fn single_file_resolves_to_itself() {
    let r = resolve_path("/data/a.txt", EntryKind::File, &vec![]).unwrap();
    assert!(!r.is_directory_source);
    assert_eq!(r.files, vec!["/data/a.txt".to_string()]);
}

#[test]
fn directory_keeps_only_regular_files() {
    let children = vec![
        cand("/d/a", EntryKind::File),
        cand("/d/sub", EntryKind::Directory),
        cand("/d/b", EntryKind::File),
        cand("/d/sub2", EntryKind::Directory),
        cand("/d/c", EntryKind::File),
    ];
    let r = resolve_path("/d", EntryKind::Directory, &children).unwrap();
    assert!(r.is_directory_source);
    assert_eq!(r.files, vec!["/d/a".to_string(), "/d/b".to_string(), "/d/c".to_string()]);
}

#[test]
fn missing_and_special_paths_are_errors() {
    assert_eq!(resolve_path("/nope", EntryKind::Unreadable, &vec![]).err(), Some(ResolveError::NotFound));
    assert_eq!(resolve_path("/dev/x", EntryKind::Other, &vec![]).err(), Some(ResolveError::Unsupported));
}

#[test]
fn pattern_skips_non_files() {
    let m = vec![cand("a.log", EntryKind::File), cand("dir.log", EntryKind::Directory), cand("bad.log", EntryKind::Unreadable), cand("b.log", EntryKind::File)];
    let r = resolve_pattern(&m);
    assert!(!r.is_directory_source);
    assert_eq!(r.files, vec!["a.log".to_string(), "b.log".to_string()]);
    assert!(keep_files(&vec![]).is_empty());
}

#[test]
fn glob_metacharacters() {
    assert!(is_glob_pattern("/data/*.csv"));
    assert!(is_glob_pattern("/data/file?.csv"));
    assert!(is_glob_pattern("/data/[ab].csv"));
    assert!(!is_glob_pattern("/data/report.csv"));
    assert!(!is_glob_pattern(""));
}

#[test]
fn chunk_plan_sums_to_total() {
    let p = chunk_plan(10000, CHUNK_SIZE);
    assert_eq!(p, vec![4096, 4096, 1808]);
    let mut cum = 0u64;
    for c in &p {
        assert!(*c > 0);
        cum += c;
    }
    assert_eq!(cum, 10000);
    assert!(chunk_plan(0, CHUNK_SIZE).is_empty());
    assert_eq!(chunk_plan(8192, CHUNK_SIZE), vec![4096, 4096]);
}

#[test]
fn progress_advances() {
    let mut p = TransferProgress::new(5000);
    assert_eq!(p.next_chunk(4096), 4096);
    p.advance(4096);
    assert_eq!(p.remaining(), 904);
    assert_eq!(p.next_chunk(4096), 904);
    assert!(!p.is_complete());
    p.advance(904);
    assert!(p.is_complete());
}

#[test]
fn directory_levels_are_probed_outermost_first() {
    let mut d = DirMaterializer::new("/srv/backup/data");
    match d.action() {
        DirAction::Probe(p) => assert_eq!(p, "/srv"),
        a => panic!("{:?}", a),
    }
    d.on_event(DirEvent::Exists);
    match d.action() {
        DirAction::Probe(p) => assert_eq!(p, "/srv/backup"),
        a => panic!("{:?}", a),
    }
    d.on_event(DirEvent::Missing);
    match d.action() {
        DirAction::Create(p) => assert_eq!(p, "/srv/backup"),
        a => panic!("{:?}", a),
    }
    d.on_event(DirEvent::Created);
    match d.action() {
        DirAction::Probe(p) => assert_eq!(p, "/srv/backup/data"),
        a => panic!("{:?}", a),
    }
    d.on_event(DirEvent::Exists);
    assert!(matches!(d.action(), DirAction::Done));
}

#[test]
fn racing_creation_is_success() {
    let mut d = DirMaterializer::new("backup");
    d.on_event(DirEvent::Missing);
    d.on_event(DirEvent::CreateFailed(ErrorCode::Sftp(ALREADY_EXISTS)));
    assert!(matches!(d.action(), DirAction::Done));
    assert!(already_exists(ErrorCode::Sftp(11)));
    assert!(!already_exists(ErrorCode::Session(-31)));
    assert!(!already_exists(ErrorCode::Session(11)));
    assert!(!already_exists(ErrorCode::Sftp(4)));
}

#[test]
fn other_creation_failure_is_fatal() {
    let mut d = DirMaterializer::new("a/b");
    d.on_event(DirEvent::Missing);
    d.on_event(DirEvent::CreateFailed(ErrorCode::Sftp(3)));
    assert!(matches!(d.action(), DirAction::Failed(ErrorCode::Sftp(3))));
    d.on_event(DirEvent::Created);
    assert!(matches!(d.action(), DirAction::Failed(ErrorCode::Sftp(3))));
}

#[test]
fn bad_region_is_config_invalid() {
    let t = target("not-a-region", None);
    assert_eq!(s3_region(&t).err(), Some(TransferError::ConfigInvalid));
    assert_eq!(region_choice(&t, false).err(), Some(TransferError::ConfigInvalid));
    assert_eq!(s3_region(&target("", None)).err(), Some(TransferError::ConfigInvalid));
}

#[test]
fn known_region_and_endpoint() {
    match s3_region(&target("us-east-1", None)).unwrap() {
        RegionChoice::Named(n) => assert_eq!(n, "us-east-1"),
        c => panic!("{:?}", c),
    }
    match s3_region(&target("whatever", Some("http://minio:9000"))).unwrap() {
        RegionChoice::Custom { name, endpoint } => {
            assert_eq!(name, "whatever");
            assert_eq!(endpoint, "http://minio:9000");
        }
        c => panic!("{:?}", c),
    }
}

#[test]
fn wrong_password_is_auth_failed() {
    let mut u = SshUpload::new(10);
    u.on_event(SessionEvent::Completed);
    u.on_event(SessionEvent::Completed);
    assert_eq!(u.stage_now(), Stage::Authenticate);
    u.on_event(SessionEvent::Authenticated(false));
    assert_eq!(u.stage_now(), Stage::Failed(TransferError::AuthFailed));
    u.on_event(SessionEvent::Completed);
    assert_eq!(u.stage_now(), Stage::Failed(TransferError::AuthFailed));
    assert_eq!(u.result(), Some(Err(TransferError::AuthFailed)));
}

#[test]
fn ssh_upload_runs_to_done() {
    let mut u = SshUpload::new(5000);
    for _ in 0..2 {
        u.on_event(SessionEvent::Completed);
    }
    u.on_event(SessionEvent::Authenticated(true));
    u.on_event(SessionEvent::Completed);
    u.on_event(SessionEvent::Completed);
    u.on_event(SessionEvent::Completed);
    assert_eq!(u.stage_now(), Stage::Send);
    assert_eq!(u.chunk_len(), 4096);
    u.on_event(SessionEvent::Sent(4096));
    assert_eq!(u.chunk_len(), 904);
    u.on_event(SessionEvent::Sent(904));
    assert_eq!(u.bytes_sent(), 5000);
    assert_eq!(u.stage_now(), Stage::Flush);
    assert_eq!(u.result(), None);
    u.on_event(SessionEvent::Completed);
    assert_eq!(u.result(), Some(Ok(())));
}

#[test]
fn ssh_upload_failures() {
    let mut u = SshUpload::new(0);
    u.on_event(SessionEvent::Broken);
    assert_eq!(u.stage_now(), Stage::Failed(TransferError::ConnectFailed));
    let mut v = SshUpload::new(100);
    v.on_event(SessionEvent::Completed);
    v.on_event(SessionEvent::Completed);
    v.on_event(SessionEvent::Authenticated(true));
    v.on_event(SessionEvent::Completed);
    v.on_event(SessionEvent::DirsFailed(ErrorCode::Sftp(4)));
    assert_eq!(v.result(), Some(Err(TransferError::DirectoryCreateFailed(ErrorCode::Sftp(4)))));
    let mut w = SshUpload::new(100);
    w.on_event(SessionEvent::Completed);
    w.on_event(SessionEvent::Completed);
    w.on_event(SessionEvent::Authenticated(true));
    w.on_event(SessionEvent::Completed);
    w.on_event(SessionEvent::Completed);
    w.on_event(SessionEvent::Broken);
    assert_eq!(w.result(), Some(Err(TransferError::RemoteRejected)));
    let mut x = SshUpload::new(0);
    for _ in 0..2 {
        x.on_event(SessionEvent::Completed);
    }
    x.on_event(SessionEvent::Authenticated(true));
    for _ in 0..3 {
        x.on_event(SessionEvent::Completed);
    }
    assert_eq!(x.stage_now(), Stage::Flush);
    let mut y = SshUpload::new(10);
    for _ in 0..2 {
        y.on_event(SessionEvent::Completed);
    }
    y.on_event(SessionEvent::Authenticated(true));
    for _ in 0..3 {
        y.on_event(SessionEvent::Completed);
    }
    y.on_event(SessionEvent::Sent(0));
    assert_eq!(y.result(), Some(Err(TransferError::LocalIoFailed)));
}

#[test]
fn batch_continues_after_failure() {
    let files = vec!["f1".to_string(), "f2".to_string(), "f3".to_string()];
    let mut b = Batch::new(files, true);
    let mut seen = Vec::new();
    while let Some(i) = b.next_file() {
        seen.push(b.file(i).clone());
        if i == 1 {
            b.record(Err(TransferError::LocalIoFailed));
        } else {
            b.record(Ok(()));
        }
    }
    assert_eq!(seen, vec!["f1".to_string(), "f2".to_string(), "f3".to_string()]);
    assert_eq!(b.outcomes_so_far(), &vec![Ok(()), Err(TransferError::LocalIoFailed), Ok(())]);
    assert!(b.any_failed());
}

#[test]
fn batch_stops_when_asked() {
    let files = vec!["f1".to_string(), "f2".to_string(), "f3".to_string()];
    let mut b = Batch::new(files, false);
    b.record(Ok(()));
    b.record(Err(TransferError::RemoteRejected));
    assert_eq!(b.next_file(), None);
    assert_eq!(b.outcomes_so_far().len(), 2);
    let mut c = Batch::new(vec!["x".to_string()], false);
    c.record(Ok(()));
    assert!(!c.any_failed());
    assert_eq!(c.next_file(), None);
}

#[test]
fn second_run_over_existing_tree_creates_nothing() {
    let mut d = DirMaterializer::new("a/b/c");
    let mut probes = 0;
    loop {
        match d.action() {
            DirAction::Probe(_) => {
                probes += 1;
                d.on_event(DirEvent::Exists);
            }
            DirAction::Done => break,
            a => panic!("{:?}", a),
        }
    }
    assert_eq!(probes, 3);
}

fn upload_at_send(total: u64) -> SshUpload {
    let mut u = SshUpload::new(total);
    u.on_event(SessionEvent::Completed);
    u.on_event(SessionEvent::Completed);
    u.on_event(SessionEvent::Authenticated(true));
    u.on_event(SessionEvent::Completed);
    u.on_event(SessionEvent::Completed);
    u.on_event(SessionEvent::Completed);
    u
}

#[test]
fn short_chunk_is_local_io_failure() {
    let mut u = upload_at_send(10000);
    assert_eq!(u.stage_now(), Stage::Send);
    u.on_event(SessionEvent::Sent(100));
    assert_eq!(u.result(), Some(Err(TransferError::LocalIoFailed)));
    assert_eq!(u.bytes_sent(), 0);
}

#[test]
fn failed_remote_write_is_remote_rejected() {
    let mut u = upload_at_send(10000);
    u.on_event(SessionEvent::Sent(4096));
    u.on_event(SessionEvent::WriteFailed);
    assert_eq!(u.result(), Some(Err(TransferError::RemoteRejected)));
    assert_eq!(u.bytes_sent(), 4096);
}

#[test]
fn chunks_are_full_then_remainder() {
    let mut u = upload_at_send(10000);
    let mut lens = Vec::new();
    while u.stage_now() == Stage::Send {
        let n = u.chunk_len();
        lens.push(n);
        u.on_event(SessionEvent::Sent(n));
    }
    assert_eq!(lens, vec![4096, 4096, 1808]);
    assert_eq!(u.stage_now(), Stage::Flush);
}

#[test]
fn uneven_increments_reach_total() {
    let mut p = TransferProgress::new(5000);
    let mut cum = Vec::new();
    for n in [1000u64, 3000, 1000] {
        p.advance(n);
        cum.push(p.bytes_transferred);
    }
    assert_eq!(cum, vec![1000, 4000, 5000]);
    assert!(p.is_complete());
}
