use secure_container::errors::SecureContainerErr;
use secure_container::lifecycle::Action;
use secure_container::lifecycle::CloseFlow;
use secure_container::lifecycle::CmdFailure;
use secure_container::lifecycle::CreateFlow;
use secure_container::lifecycle::Event;
use secure_container::lifecycle::ExportFlow;
use secure_container::lifecycle::ImportFlow;
use secure_container::lifecycle::OpenFlow;
use secure_container::requests::Close;
use secure_container::requests::Create;
use secure_container::requests::Export;
use secure_container::requests::Import;
use secure_container::requests::Open;
use secure_container::service::MySecureContainer;

fn create_req(auto_open: bool) -> Create {
    Create {
        size: 16,
        mount_point: "/mnt/x".to_string(),
        path: "/data".to_string(),
        namespace: "box1".to_string(),
        id: "id1".to_string(),
        auto_open,
    }
}

fn env_ok() -> Event {
    Event::Env { mount_point_is_dir: true, path_is_file: true, path_is_container: true }
}

/// Drives a freshly started open flow through a clean environment.
fn drive_open_to_done(mut flow: OpenFlow) -> OpenFlow {
    // validation probes pass
    let (f, a) = flow.step(env_ok());
    flow = f;
    assert!(matches!(a, Some(Action::ListBlockDevicesDetailed)));
    // not already unlocked
    let (f, a) = flow.step(Event::Output(Ok("NAME TYPE\nsda disk\n".to_string())));
    flow = f;
    assert!(matches!(a, Some(Action::DeriveSecret { .. })));
    // the device-bound secret arrives
    let (f, a) = flow.step(Event::Secret(Ok("derived-secret".to_string())));
    flow = f;
    assert!(matches!(a, Some(Action::ListBlockDevices)));
    // no mapping pre-existed
    let (f, a) = flow.step(Event::Output(Ok("sda\n".to_string())));
    flow = f;
    match &a {
        Some(Action::Unlock { path, namespace, secret }) => {
            assert_eq!(path.as_str(), "/data/box1");
            assert_eq!(namespace.as_str(), "box1");
            assert_eq!(secret.as_str(), "derived-secret");
        }
        other => panic!("expected an unlock, got {:?}", other.is_some()),
    }
    // the unlock succeeds
    let (f, a) = flow.step(Event::Done(Ok(())));
    flow = f;
    assert!(matches!(a, Some(Action::ReadKernelLog)));
    // the log is clean, and the mapping was fresh: a filesystem is made
    let (f, a) = flow.step(Event::Output(Ok("usb 1-1: new device\n".to_string())));
    flow = f;
    assert!(matches!(a, Some(Action::MakeFilesystem { .. })));
    let (f, a) = flow.step(Event::Done(Ok(())));
    flow = f;
    match &a {
        Some(Action::Mount { mount_point, namespace }) => {
            assert_eq!(mount_point.as_str(), "/mnt/x");
            assert_eq!(namespace.as_str(), "box1");
        }
        _ => panic!("expected a mount"),
    }
    let (f, a) = flow.step(Event::Done(Ok(())));
    assert!(a.is_none());
    f
}

#[test]
fn create_scenario_on_a_fresh_system() {
    let (flow, action) = CreateFlow::start(create_req(false));
    assert!(matches!(action, Action::ProbeEnv { .. }));
    // the mount point exists
    let (flow, action) = flow.step(env_ok());
    match &action {
        Some(Action::ProbeFile { path }) => assert_eq!(path.as_str(), "/data/box1"),
        _ => panic!("expected the backing-file probe"),
    }
    // no file at /data/box1 yet
    let (flow, action) = flow.step(Event::Flag(false));
    assert!(matches!(action, Some(Action::ListBlockDevices)));
    // the name is free
    let (flow, action) = flow.step(Event::Output(Ok("sda\nsdb\n".to_string())));
    assert!(matches!(action, Some(Action::ProbeDir { .. })));
    // the backing directory exists
    let (flow, action) = flow.step(Event::Flag(true));
    match &action {
        Some(Action::CreateBackingFile { size, path, namespace }) => {
            assert_eq!(*size, 16);
            assert_eq!(path.as_str(), "/data");
            assert_eq!(namespace.as_str(), "box1");
        }
        _ => panic!("expected the backing-file allocation"),
    }
    // the file is allocated
    let (flow, action) = flow.step(Event::Stored(Ok(())));
    assert!(matches!(action, Some(Action::DeriveSecret { .. })));
    // the formatting secret arrives
    let (flow, action) = flow.step(Event::Secret(Ok("format-secret".to_string())));
    match &action {
        Some(Action::FormatContainer { device_path, secret }) => {
            assert_eq!(device_path.as_str(), "/data/box1");
            assert_eq!(secret.as_str(), "format-secret");
        }
        _ => panic!("expected the format"),
    }
    // formatting succeeds; the integrity support check reads the log
    let (flow, action) = flow.step(Event::Done(Ok(())));
    assert!(matches!(action, Some(Action::ReadKernelLog)));
    let (flow, action) = flow.step(Event::Output(Ok("usb 1-1: new device\n".to_string())));
    assert!(matches!(action, Some(Action::ProbeEnv { .. })));
    // the embedded open runs to completion
    let inner = match flow {
        CreateFlow::Opening { inner, .. } => inner,
        other => panic!("expected the embedded open, got {:?}", matches!(other, CreateFlow::Done { .. })),
    };
    let done = drive_open_to_done(inner);
    assert!(matches!(done, OpenFlow::Done));
    // replay the create with the embedded open, step by step
    let (flow, _) = CreateFlow::start(create_req(false));
    let (flow, _) = flow.step(env_ok());
    let (flow, _) = flow.step(Event::Flag(false));
    let (flow, _) = flow.step(Event::Output(Ok("sda\n".to_string())));
    let (flow, _) = flow.step(Event::Flag(true));
    let (flow, _) = flow.step(Event::Stored(Ok(())));
    let (flow, _) = flow.step(Event::Secret(Ok("format-secret".to_string())));
    let (flow, _) = flow.step(Event::Done(Ok(())));
    let (flow, _) = flow.step(Event::Output(Ok("".to_string())));
    let (flow, _) = flow.step(env_ok());
    let (flow, _) = flow.step(Event::Output(Ok("NAME TYPE\n".to_string())));
    let (flow, _) = flow.step(Event::Secret(Ok("derived".to_string())));
    let (flow, _) = flow.step(Event::Output(Ok("sda\n".to_string())));
    let (flow, _) = flow.step(Event::Done(Ok(())));
    let (flow, _) = flow.step(Event::Output(Ok("".to_string())));
    let (flow, _) = flow.step(Event::Done(Ok(())));
    let (flow, action) = flow.step(Event::Done(Ok(())));
    assert!(action.is_none());
    assert!(matches!(flow, CreateFlow::Done { warned: false }));
}

#[test]
fn second_create_with_the_same_namespace_fails() {
    let (flow, _) = CreateFlow::start(create_req(false));
    let (flow, _) = flow.step(env_ok());
    let (flow, _) = flow.step(Event::Flag(false));
    // the block-device listing now shows box1 as a space-separated token
    let (flow, action) = flow.step(Event::Output(Ok("box1 253:0 0 crypt\n".to_string())));
    assert!(action.is_none());
    match flow {
        CreateFlow::Failed { error } => {
            assert_eq!(error, SecureContainerErr::ContainerNameExists)
        }
        _ => panic!("expected the name collision"),
    }
}

#[test]
fn create_size_fifteen_is_rejected_up_front() {
    let mut req = create_req(false);
    req.size = 15;
    let (flow, _) = CreateFlow::start(req);
    let (flow, action) = flow.step(env_ok());
    assert!(action.is_none());
    match flow {
        CreateFlow::Failed { error } => assert_eq!(error, SecureContainerErr::SizeToSmall),
        _ => panic!("expected the size rejection"),
    }
}

#[test]
fn create_with_auto_open_registers_the_container() {
    let (flow, _) = CreateFlow::start(create_req(true));
    let (flow, _) = flow.step(env_ok());
    let (flow, _) = flow.step(Event::Flag(false));
    let (flow, _) = flow.step(Event::Output(Ok("sda\n".to_string())));
    let (flow, _) = flow.step(Event::Flag(true));
    let (flow, _) = flow.step(Event::Stored(Ok(())));
    let (flow, _) = flow.step(Event::Secret(Ok("format-secret".to_string())));
    let (flow, _) = flow.step(Event::Done(Ok(())));
    let (flow, _) = flow.step(Event::Output(Ok("".to_string())));
    let (flow, _) = flow.step(env_ok());
    let (flow, _) = flow.step(Event::Output(Ok("".to_string())));
    let (flow, _) = flow.step(Event::Secret(Ok("derived".to_string())));
    let (flow, _) = flow.step(Event::Output(Ok("".to_string())));
    let (flow, _) = flow.step(Event::Done(Ok(())));
    let (flow, _) = flow.step(Event::Output(Ok("".to_string())));
    let (flow, _) = flow.step(Event::Done(Ok(())));
    let (flow, action) = flow.step(Event::Done(Ok(())));
    match &action {
        Some(Action::AppendRegistry { mount_point, path, namespace, id }) => {
            assert_eq!(mount_point.as_str(), "/mnt/x");
            assert_eq!(path.as_str(), "/data");
            assert_eq!(namespace.as_str(), "box1");
            assert_eq!(id.as_str(), "id1");
        }
        _ => panic!("expected the registry append"),
    }
    let (flow, action) = flow.step(Event::Stored(Ok(())));
    assert!(action.is_none());
    assert!(matches!(flow, CreateFlow::Done { warned: false }));
}

#[test]
fn open_rejects_an_already_unlocked_container() {
    let req = Open {
        mount_point: "/mnt/x".to_string(),
        path: "/data/box1".to_string(),
        namespace: "box1".to_string(),
        id: "id1".to_string(),
    };
    let (flow, _) = OpenFlow::start(req);
    let (flow, _) = flow.step(env_ok());
    let listing = "NAME TYPE\nbox1  crypt /mnt/x\n";
    let (flow, action) = flow.step(Event::Output(Ok(listing.to_string())));
    assert!(action.is_none());
    match flow {
        OpenFlow::Failed { error } => assert_eq!(error, SecureContainerErr::ContainerOpen),
        _ => panic!("expected the already-open rejection"),
    }
}

#[test]
fn open_locks_again_and_fails_on_an_integrity_fault() {
    let req = Open {
        mount_point: "/mnt/x".to_string(),
        path: "/data/box1".to_string(),
        namespace: "box1".to_string(),
        id: "id1".to_string(),
    };
    let (flow, _) = OpenFlow::start(req);
    let (flow, _) = flow.step(env_ok());
    let (flow, _) = flow.step(Event::Output(Ok("NAME TYPE\n".to_string())));
    let (flow, _) = flow.step(Event::Secret(Ok("derived".to_string())));
    let (flow, _) = flow.step(Event::Output(Ok("".to_string())));
    let (flow, _) = flow.step(Event::Done(Ok(())));
    // a fault stamped far in the future is at or after any snapshot
    let log = "9999-12-31T23:59,000 INTEGRITY AEAD ERROR on dm-0\n";
    let (flow, action) = flow.step(Event::Output(Ok(log.to_string())));
    match &action {
        Some(Action::Lock { namespace }) => assert_eq!(namespace.as_str(), "box1"),
        _ => panic!("expected the undoing lock"),
    }
    let (flow, action) = flow.step(Event::Done(Ok(())));
    assert!(action.is_none());
    match flow {
        OpenFlow::Failed { error } => assert_eq!(error, SecureContainerErr::IntegrityError),
        _ => panic!("expected the integrity failure"),
    }
}

#[test]
fn close_before_open_surfaces_an_unmount_error() {
    let req = Close { mount_point: "/mnt/x".to_string(), namespace: "never_opened".to_string() };
    let (flow, action) = CloseFlow::start(req);
    assert!(matches!(action, Action::ProbeEnv { .. }));
    let (flow, action) = flow.step(env_ok());
    match &action {
        Some(Action::Unmount { mount_point }) => assert_eq!(mount_point.as_str(), "/mnt/x"),
        _ => panic!("expected the unmount"),
    }
    // nothing was mounted there: the unmount reports a failure
    let failure = CmdFailure::Exit("umount: /mnt/x: not mounted".to_string());
    let (flow, action) = flow.step(Event::Done(Err(failure)));
    assert!(action.is_none());
    match flow {
        CloseFlow::Failed { error } => {
            assert_eq!(
                error,
                SecureContainerErr::UmountError("umount: /mnt/x: not mounted".to_string())
            );
        }
        _ => panic!("expected the unmount error, not a panic"),
    }
}

#[test]
fn close_unmounts_before_locking() {
    let req = Close { mount_point: "/mnt/x".to_string(), namespace: "box1".to_string() };
    let (flow, _) = CloseFlow::start(req);
    let (flow, action) = flow.step(env_ok());
    assert!(matches!(action, Some(Action::Unmount { .. })));
    let (flow, action) = flow.step(Event::Done(Ok(())));
    match &action {
        Some(Action::Lock { namespace }) => assert_eq!(namespace.as_str(), "box1"),
        _ => panic!("expected the lock after the unmount"),
    }
    let (flow, action) = flow.step(Event::Done(Ok(())));
    assert!(action.is_none());
    assert!(matches!(flow, CloseFlow::Done));
}

#[test]
fn export_then_import_present_the_same_transfer_secret() {
    let export = Export {
        path: "/data/box1".to_string(),
        namespace: "box1".to_string(),
        id: "id1".to_string(),
        secret: "123".to_string(),
    };
    let (flow, _) = ExportFlow::start(export);
    let (flow, _) = flow.step(env_ok());
    let (flow, _) = flow.step(Event::Output(Ok("NAME TYPE\n".to_string())));
    let (flow, action) = flow.step(Event::Output(Ok("total 0\n".to_string())));
    assert!(matches!(action, Some(Action::DeriveSecret { .. })));
    let (flow, action) = flow.step(Event::Secret(Ok("device-secret".to_string())));
    let export_change = match action {
        Some(Action::ChangeSecret { path, old_secret, new_secret }) => {
            assert_eq!(path.as_str(), "/data/box1");
            assert_eq!(old_secret.as_str(), "device-secret");
            new_secret
        }
        _ => panic!("expected the secret change"),
    };
    let (flow, action) = flow.step(Event::Done(Ok(())));
    assert!(action.is_none());
    assert!(matches!(flow, ExportFlow::Done));

    let import = Import {
        path: "/data/box1".to_string(),
        namespace: "box1".to_string(),
        id: "id1".to_string(),
        secret: "123".to_string(),
    };
    let (flow, _) = ImportFlow::start(import);
    let (flow, action) = flow.step(env_ok());
    assert!(matches!(action, Some(Action::DeriveSecret { .. })));
    let (flow, action) = flow.step(Event::Secret(Ok("device-secret".to_string())));
    match action {
        Some(Action::ChangeSecret { path, old_secret, new_secret }) => {
            assert_eq!(path.as_str(), "/data/box1");
            // the import presents exactly the secret the export installed
            assert_eq!(old_secret, export_change);
            assert_eq!(new_secret.as_str(), "device-secret");
        }
        _ => panic!("expected the secret change"),
    }
    let (flow, action) = flow.step(Event::Done(Ok(())));
    assert!(action.is_none());
    assert!(matches!(flow, ImportFlow::Done));
}

#[test]
fn export_rejects_bad_secrets_and_busy_containers() {
    let mut export = Export {
        path: "/data/box1".to_string(),
        namespace: "box1".to_string(),
        id: "id1".to_string(),
        secret: "".to_string(),
    };
    let (flow, _) = ExportFlow::start(export.clone());
    let (flow, _) = flow.step(env_ok());
    match flow {
        ExportFlow::Failed { error } => assert_eq!(error, SecureContainerErr::SecertError),
        _ => panic!("expected the empty-secret rejection"),
    }
    export.secret = "test€".to_string();
    let (flow, _) = ExportFlow::start(export.clone());
    let (flow, _) = flow.step(env_ok());
    match flow {
        ExportFlow::Failed { error } => assert_eq!(error, SecureContainerErr::SecertError),
        _ => panic!("expected the non-ASCII rejection"),
    }
    export.secret = "123".to_string();
    let (flow, _) = ExportFlow::start(export.clone());
    let (flow, _) = flow.step(env_ok());
    let (flow, _) = flow.step(Event::Output(Ok("box1  crypt\n".to_string())));
    match flow {
        ExportFlow::Failed { error } => assert_eq!(error, SecureContainerErr::ContainerOpen),
        _ => panic!("expected the still-open rejection"),
    }
    let (flow, _) = ExportFlow::start(export);
    let (flow, _) = flow.step(env_ok());
    let (flow, _) = flow.step(Event::Output(Ok("NAME TYPE\n".to_string())));
    let (flow, _) = flow.step(Event::Output(Ok("lrwx root box1 -> dm-0\n".to_string())));
    match flow {
        ExportFlow::Failed { error } => assert_eq!(error, SecureContainerErr::ContainerMounted),
        _ => panic!("expected the still-mounted rejection"),
    }
}

#[test]
fn responses_carry_the_display_string() {
    let service = MySecureContainer::new();
    let (status, msg) = service.respond(Ok(()));
    assert!(status);
    assert_eq!(msg.as_str(), "OK");
    let (status, msg) = service.respond(Err(SecureContainerErr::SizeToSmall));
    assert!(!status);
    assert_eq!(msg.as_str(), "Size of container to small");
    let (status, msg) = service.respond(Err(SecureContainerErr::CryptsetupError(
        "bad passphrase".to_string(),
    )));
    assert!(!status);
    assert_eq!(msg.as_str(), "Cryptsetup error: bad passphrase");
}
