//! Which errors end the process, how files are opened again, how a file is
//! replaced, and the labels of a path.

use vfcache::io_error::{
    fatal_err, is_fatal_io_error, maybe_fatal_err, Errno, Error, ErrorKind, Verdict,
};
use vfcache::labels::metric_labels;
use vfcache::open_options::OpenOptions;
use vfcache::overwrite::{CrashsafeOverwrite, OverwriteAction};
use vfcache::slot_pool::{init, OpenFiles, Victim};
use vfcache::virtual_file::VirtualFile;

fn os(code: nix::errno::Errno) -> Error {
    let kind = match code {
        nix::errno::Errno::EINTR => ErrorKind::Interrupted,
        nix::errno::Errno::ENOENT => ErrorKind::NotFound,
        nix::errno::Errno::EINVAL => ErrorKind::InvalidInput,
        _ => ErrorKind::Other,
    };
    Error::Os { kind, code: Some(code as i32) }
}

#[test]
fn fatal_error_numbers() {
    assert!(is_fatal_io_error(&os(nix::errno::Errno::EIO)));
    assert!(is_fatal_io_error(&os(nix::errno::Errno::EROFS)));
    assert!(is_fatal_io_error(&os(nix::errno::Errno::EACCES)));
    assert!(!is_fatal_io_error(&os(nix::errno::Errno::ENOSPC)));
    assert!(!is_fatal_io_error(&os(nix::errno::Errno::EINTR)));
    assert!(!is_fatal_io_error(&os(nix::errno::Errno::EINVAL)));
    assert!(!is_fatal_io_error(&os(nix::errno::Errno::EBADF)));
    assert!(!is_fatal_io_error(&os(nix::errno::Errno::EAGAIN)));
    assert!(!is_fatal_io_error(&os(nix::errno::Errno::ENOENT)));
    assert!(!is_fatal_io_error(&Error::Os { kind: ErrorKind::Other, code: None }));
    assert!(!is_fatal_io_error(&Error::Os { kind: ErrorKind::Other, code: Some(0) }));
    assert!(!is_fatal_io_error(&Error::Os { kind: ErrorKind::Other, code: Some(-5) }));
    assert!(!is_fatal_io_error(&Error::WriteZero));
    assert!(!is_fatal_io_error(&Error::UnexpectedEof));
    assert!(!is_fatal_io_error(&Error::NegativeOffset));
    assert!(!is_fatal_io_error(&Error::OffsetOverflow));
}

#[test]
fn fatal_conditions() {
    assert!(Errno::Eio.is_fatal());
    assert!(Errno::Erofs.is_fatal());
    assert!(Errno::Eacces.is_fatal());
    assert!(!Errno::Enospc.is_fatal());
    assert!(!Errno::Eintr.is_fatal());
    assert!(!Errno::Einval.is_fatal());
    assert!(!Errno::Other.is_fatal());
}

/// A device error on a write ends the process; a full disk goes back to
/// the caller.
#[test]
fn writes_abort_on_fatal_errors_only() {
    let device = os(nix::errno::Errno::EIO);
    match maybe_fatal_err::<usize>(Err(device)) {
        Verdict::Abort(e) => assert_eq!(e, device),
        Verdict::Proceed(_) => panic!("a device error is fatal"),
    }
    let full = os(nix::errno::Errno::ENOSPC);
    match maybe_fatal_err::<usize>(Err(full)) {
        Verdict::Proceed(result) => assert_eq!(result, Err(full)),
        Verdict::Abort(_) => panic!("a full disk is not fatal"),
    }
    match maybe_fatal_err(Ok(7usize)) {
        Verdict::Proceed(result) => assert_eq!(result, Ok(7)),
        Verdict::Abort(_) => panic!("success is not fatal"),
    }
    match maybe_fatal_err::<usize>(Err(Error::WriteZero)) {
        Verdict::Proceed(result) => assert_eq!(result, Err(Error::WriteZero)),
        Verdict::Abort(_) => panic!("a short write is not fatal"),
    }
}

#[test]
fn reads_that_must_succeed_abort_on_any_error() {
    let full = os(nix::errno::Errno::ENOSPC);
    match fatal_err::<usize>(Err(full)) {
        Verdict::Abort(e) => assert_eq!(e, full),
        Verdict::Proceed(_) => panic!("every error is fatal here"),
    }
    match fatal_err::<usize>(Err(Error::UnexpectedEof)) {
        Verdict::Abort(e) => assert_eq!(e, Error::UnexpectedEof),
        Verdict::Proceed(_) => panic!("every error is fatal here"),
    }
    match fatal_err(Ok(7usize)) {
        Verdict::Proceed(value) => assert_eq!(value, 7),
        Verdict::Abort(_) => panic!("success is not fatal"),
    }
}

#[test]
fn error_kinds_and_numbers() {
    assert_eq!(Error::NegativeOffset.kind(), ErrorKind::InvalidInput);
    assert_eq!(Error::OffsetOverflow.kind(), ErrorKind::InvalidInput);
    assert_eq!(Error::UnexpectedEof.kind(), ErrorKind::UnexpectedEof);
    assert_eq!(Error::WriteZero.kind(), ErrorKind::WriteZero);
    assert_eq!(Error::WriteZero.raw_os_error(), None);
    let e = os(nix::errno::Errno::EINTR);
    assert_eq!(e.kind(), ErrorKind::Interrupted);
    assert_eq!(e.raw_os_error(), Some(nix::errno::Errno::EINTR as i32));
    assert!(e.kind().is(ErrorKind::Interrupted));
    assert!(!e.kind().is(ErrorKind::NotFound));
    let invalid = Error::invalid_argument();
    assert_eq!(invalid.kind(), ErrorKind::InvalidInput);
    assert_eq!(invalid.raw_os_error(), Some(nix::errno::Errno::EINVAL as i32));
    assert!(!is_fatal_io_error(&invalid));
}

#[test]
fn open_options_are_set_one_by_one() {
    let none = OpenOptions::new();
    assert_eq!(
        none,
        OpenOptions { read: false, write: false, create: false, create_new: false, truncate: false }
    );
    assert!(none.read(true).read);
    assert!(none.write(true).write);
    assert!(none.create(true).create);
    assert!(none.create_new(true).create_new);
    assert!(none.truncate(true).truncate);
    assert_eq!(none.read(true).read(false), none);
    let all = none.read(true).write(true).create(true).create_new(true).truncate(true);
    assert_eq!(
        all,
        OpenOptions { read: true, write: true, create: true, create_new: true, truncate: true }
    );
}

#[test]
fn reopening_keeps_only_the_access_flags() {
    let all = OpenOptions::new().read(true).write(true).create(true).create_new(true).truncate(true);
    assert_eq!(all.reopen(), OpenOptions::new().read(true).write(true));
    assert_eq!(all.reopen().reopen(), all.reopen());
    let write_only = OpenOptions::new().write(true).create_new(true);
    assert_eq!(write_only.reopen(), OpenOptions::new().write(true));
    assert_eq!(OpenOptions::new().reopen(), OpenOptions::new());
}

#[test]
fn open_and_create_choose_their_options() {
    let mut pool: OpenFiles<u8> = init(2);
    let (pending, victim) = VirtualFile::open(&mut pool, "a/b");
    assert_eq!(pending.path, "a/b");
    assert_eq!(pending.open_options, OpenOptions::new().read(true));
    let slot = match victim {
        Victim::Claimed { handle, evicted } => {
            assert_eq!(evicted, None);
            handle
        }
        Victim::Contended { .. } => panic!("a slot is unlocked"),
    };
    pending.fail(&mut pool, slot);
    assert!(pool.is_unlocked(slot.index));
    assert!(!pool.holds(slot));

    let (pending, victim) = VirtualFile::create(&mut pool, "a/c");
    assert_eq!(pending.open_options, OpenOptions::new().write(true).create(true).truncate(true));
    let slot = match victim {
        Victim::Claimed { handle, .. } => handle,
        Victim::Contended { .. } => panic!("a slot is unlocked"),
    };
    let file = pending.finish(&mut pool, slot, 9);
    assert_eq!(file.path, "a/c");
    assert_eq!(file.pos(), 0);
    assert_eq!(file.handle(), slot);
    assert_eq!(file.open_options(), OpenOptions::new().write(true));
    assert!(!file.is_reopening());
    assert!(pool.holds(slot));
    assert!(pool.is_unlocked(slot.index));
    assert_eq!(*pool.file(slot.index), 9);
}

#[test]
fn labels_of_a_timeline_file() {
    let (tenant, timeline) = metric_labels("/data/tenants/t1/timelines/tl9/layer");
    assert_eq!((tenant.as_str(), timeline.as_str()), ("t1", "tl9"));
    let (tenant, timeline) = metric_labels("tenants/t1/timelines/tl9/layer");
    assert_eq!((tenant.as_str(), timeline.as_str()), ("*", "*"));
    let (tenant, timeline) = metric_labels("/tenants/t1/timelines/tl9/layer");
    assert_eq!((tenant.as_str(), timeline.as_str()), ("t1", "tl9"));
    let (tenant, timeline) = metric_labels("x/tenants//y//z");
    assert_eq!((tenant.as_str(), timeline.as_str()), ("", ""));
    let (tenant, timeline) = metric_labels("/wörk/tenants/ténant/timelines/línea/f");
    assert_eq!((tenant.as_str(), timeline.as_str()), ("ténant", "línea"));
}

#[test]
fn labels_of_any_other_file() {
    for path in [
        "",
        "/",
        "file",
        "/data/pageserver.toml",
        "/data/tenants/t1/timelines/tl9",
        "/data/tenants/t1/timelines/tl9/sub/layer",
        "/data/tenant/t1/timelines/tl9/layer",
        "/data/Tenants/t1/timelines/tl9/layer",
        "a/b/c/d/e/f",
    ] {
        let (tenant, timeline) = metric_labels(path);
        assert_eq!((tenant.as_str(), timeline.as_str()), ("*", "*"), "{}", path);
    }
}

#[test]
fn a_file_carries_its_labels() {
    let mut pool: OpenFiles<u8> = init(1);
    let (pending, victim) = VirtualFile::open(&mut pool, "/r/tenants/a/timelines/b/c");
    let slot = match victim {
        Victim::Claimed { handle, .. } => handle,
        Victim::Contended { .. } => panic!("a slot is unlocked"),
    };
    let file = pending.finish(&mut pool, slot, 0);
    assert_eq!(file.tenant_id(), "a");
    assert_eq!(file.timeline_id(), "b");
}

fn run(plan: &mut CrashsafeOverwrite, fail_at: Option<(OverwriteAction, Error)>) -> Vec<OverwriteAction> {
    let mut steps = Vec::new();
    loop {
        let action = plan.action();
        if action == OverwriteAction::Finished {
            assert!(plan.result().is_some());
            return steps;
        }
        assert_eq!(plan.result(), None);
        steps.push(action);
        match fail_at {
            Some((at, e)) if at == action => plan.advance(Err(e)),
            _ => plan.advance(Ok(())),
        }
    }
}

#[test]
fn a_replacement_takes_its_steps_in_order() {
    let mut plan = VirtualFile::crashsafe_overwrite("/dir/myfile", "/dir/myfile.tmp").unwrap();
    assert_eq!(plan.final_path, "/dir/myfile");
    assert_eq!(plan.tmp_path, "/dir/myfile.tmp");
    assert_eq!(plan.parent, "/dir");
    let steps = run(&mut plan, None);
    assert_eq!(
        steps,
        vec![
            OverwriteAction::RemoveTmp,
            OverwriteAction::CreateTmp,
            OverwriteAction::WriteContent,
            OverwriteAction::SyncTmp,
            OverwriteAction::CloseTmp,
            OverwriteAction::Rename,
            OverwriteAction::OpenParent,
            OverwriteAction::SyncParent,
            OverwriteAction::CloseParent,
        ]
    );
    assert_eq!(plan.result(), Some(Ok(())));
    plan.advance(Err(Error::WriteZero));
    assert_eq!(plan.action(), OverwriteAction::Finished);
    assert_eq!(plan.result(), Some(Ok(())));
}

#[test]
fn a_missing_temporary_file_is_no_failure() {
    let mut plan = VirtualFile::crashsafe_overwrite("/dir/myfile", "/dir/myfile.tmp").unwrap();
    let steps = run(&mut plan, Some((OverwriteAction::RemoveTmp, os(nix::errno::Errno::ENOENT))));
    assert_eq!(steps.len(), 9);
    assert_eq!(plan.result(), Some(Ok(())));
}

#[test]
fn a_failure_ends_the_replacement() {
    let denied = os(nix::errno::Errno::EPERM);
    let exists = os(nix::errno::Errno::EEXIST);
    let cases = [
        (OverwriteAction::RemoveTmp, denied, vec![OverwriteAction::RemoveTmp]),
        (
            OverwriteAction::CreateTmp,
            exists,
            vec![OverwriteAction::RemoveTmp, OverwriteAction::CreateTmp],
        ),
        (
            OverwriteAction::WriteContent,
            Error::WriteZero,
            vec![
                OverwriteAction::RemoveTmp,
                OverwriteAction::CreateTmp,
                OverwriteAction::WriteContent,
                OverwriteAction::CloseTmp,
            ],
        ),
        (
            OverwriteAction::SyncTmp,
            denied,
            vec![
                OverwriteAction::RemoveTmp,
                OverwriteAction::CreateTmp,
                OverwriteAction::WriteContent,
                OverwriteAction::SyncTmp,
                OverwriteAction::CloseTmp,
            ],
        ),
        (
            OverwriteAction::Rename,
            denied,
            vec![
                OverwriteAction::RemoveTmp,
                OverwriteAction::CreateTmp,
                OverwriteAction::WriteContent,
                OverwriteAction::SyncTmp,
                OverwriteAction::CloseTmp,
                OverwriteAction::Rename,
            ],
        ),
        (
            OverwriteAction::SyncParent,
            denied,
            vec![
                OverwriteAction::RemoveTmp,
                OverwriteAction::CreateTmp,
                OverwriteAction::WriteContent,
                OverwriteAction::SyncTmp,
                OverwriteAction::CloseTmp,
                OverwriteAction::Rename,
                OverwriteAction::OpenParent,
                OverwriteAction::SyncParent,
                OverwriteAction::CloseParent,
            ],
        ),
    ];
    for (at, error, expected) in cases {
        let mut plan = VirtualFile::crashsafe_overwrite("/dir/myfile", "/dir/myfile.tmp").unwrap();
        let steps = run(&mut plan, Some((at, error)));
        assert_eq!(steps, expected);
        assert_eq!(plan.result(), Some(Err(error)));
    }
}

#[test]
fn a_path_without_a_directory_is_refused() {
    for path in ["", "/"] {
        match VirtualFile::crashsafe_overwrite(path, "tmp") {
            Err(e) => {
                assert_eq!(e.kind(), ErrorKind::InvalidInput);
                assert_eq!(e.raw_os_error(), Some(nix::errno::Errno::EINVAL as i32));
            }
            Ok(_) => panic!("{:?} has no directory", path),
        }
    }
    match CrashsafeOverwrite::new("x", "y", None) {
        Err(e) => assert_eq!(e.kind(), ErrorKind::InvalidInput),
        Ok(_) => panic!("no directory was given"),
    }
}

#[test]
fn the_directory_of_the_final_path() {
    let plan = VirtualFile::crashsafe_overwrite("myfile", "myfile.tmp").unwrap();
    assert_eq!(plan.parent, "");
    let plan = VirtualFile::crashsafe_overwrite("/myfile", "/myfile.tmp").unwrap();
    assert_eq!(plan.parent, "/");
    let plan = VirtualFile::crashsafe_overwrite("a/b/c/", "t").unwrap();
    assert_eq!(plan.parent, "a/b");
    let plan = CrashsafeOverwrite::new("a", "b", Some("elsewhere".to_string())).unwrap();
    assert_eq!(plan.parent, "elsewhere");
    assert_eq!(plan.action(), OverwriteAction::RemoveTmp);
}

#[test]
fn the_temporary_file_must_be_new() {
    let mut pool: OpenFiles<u8> = init(2);
    let plan = VirtualFile::crashsafe_overwrite("/dir/myfile", "/dir/myfile.tmp").unwrap();
    let (pending, victim) = plan.open_tmp(&mut pool);
    assert_eq!(pending.path, "/dir/myfile.tmp");
    assert_eq!(pending.open_options, OpenOptions::new().write(true).create_new(true));
    match victim {
        Victim::Claimed { handle, .. } => pending.fail(&mut pool, handle),
        Victim::Contended { .. } => panic!("a slot is unlocked"),
    }
    let (pending, victim) = plan.open_parent(&mut pool);
    assert_eq!(pending.path, "/dir");
    assert_eq!(pending.open_options, OpenOptions::new().read(true));
    match victim {
        Victim::Claimed { handle, .. } => pending.fail(&mut pool, handle),
        Victim::Contended { .. } => panic!("a slot is unlocked"),
    }
}
