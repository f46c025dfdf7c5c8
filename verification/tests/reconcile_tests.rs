use secure_container::errors::SecureContainerErr;
use secure_container::lifecycle::Action;
use secure_container::lifecycle::CmdFailure;
use secure_container::lifecycle::Event;
use secure_container::reconcile::AutoCloseFlow;
use secure_container::reconcile::ReconcileOpen;
use secure_container::reconcile::auto_open;
use secure_container::reconcile::auto_close;
use secure_container::registry::reading_auto_open;

fn sample_records() -> Vec<Vec<String>> {
    reading_auto_open("/mnt/a,/data/box1,box1,id1\n/mnt/b,/data/box2,box2,id2\n")
}

fn env_ok() -> Event {
    Event::Env { mount_point_is_dir: true, path_is_file: true, path_is_container: true }
}

#[test]
fn reconcile_open_fails_fast_on_the_first_bad_record() {
    let (flow, action) = auto_open(sample_records());
    match &action {
        Some(Action::ProbeEnv { mount_point: Some(mp), path: Some(p) }) => {
            assert_eq!(mp.as_str(), "/mnt/a");
            assert_eq!(p.as_str(), "/data/box1");
        }
        _ => panic!("expected the first record's probe"),
    }
    // the first record's mount point is gone: its open fails validation,
    // and the whole reconciliation aborts with that error
    let (flow, action) = flow.step(Event::Env {
        mount_point_is_dir: false,
        path_is_file: true,
        path_is_container: true,
    });
    assert!(action.is_none());
    match flow {
        ReconcileOpen::Failed { error } => {
            assert_eq!(error, SecureContainerErr::MountPointNotExists)
        }
        _ => panic!("expected the fail-fast abort"),
    }
}

#[test]
fn reconcile_open_walks_every_record() {
    let (mut flow, mut action) = auto_open(sample_records());
    // open both records cleanly
    for _ in 0..2 {
        let (f, a) = flow.step(env_ok());
        assert!(matches!(a, Some(Action::ListBlockDevicesDetailed)));
        let (f, _a) = f.step(Event::Output(Ok("NAME TYPE\n".to_string())));
        let (f, _a) = f.step(Event::Secret(Ok("derived".to_string())));
        let (f, _a) = f.step(Event::Output(Ok("".to_string())));
        let (f, _a) = f.step(Event::Done(Ok(())));
        let (f, _a) = f.step(Event::Output(Ok("".to_string())));
        let (f, _a) = f.step(Event::Done(Ok(())));
        let (f, a) = f.step(Event::Done(Ok(())));
        flow = f;
        action = a;
    }
    assert!(action.is_none());
    assert!(matches!(flow, ReconcileOpen::Done));
}

#[test]
fn empty_registry_reconciles_immediately() {
    let (open_flow, action) = auto_open(Vec::new());
    assert!(matches!(open_flow, ReconcileOpen::Done));
    assert!(action.is_none());
    let (close_flow, action) = auto_close(Vec::new());
    assert!(matches!(close_flow, AutoCloseFlow::Done));
    assert!(action.is_none());
}

#[test]
fn auto_close_retries_failed_records_until_all_are_closed() {
    let (flow, action) = auto_close(sample_records());
    match &action {
        Some(Action::ProbeEnv { mount_point: Some(mp), path: None }) => {
            assert_eq!(mp.as_str(), "/mnt/a")
        }
        _ => panic!("expected the first record's probe"),
    }
    // the first record's unmount fails: it stays unclosed and the engine
    // moves on to the second record
    let (flow, action) = flow.step(env_ok());
    assert!(matches!(action, Some(Action::Unmount { .. })));
    let (flow, action) = flow.step(Event::Done(Err(CmdFailure::Exit("busy".to_string()))));
    match &action {
        Some(Action::ProbeEnv { mount_point: Some(mp), path: None }) => {
            assert_eq!(mp.as_str(), "/mnt/b")
        }
        _ => panic!("expected the second record's probe"),
    }
    // the second record closes cleanly
    let (flow, _) = flow.step(env_ok());
    let (flow, _) = flow.step(Event::Done(Ok(())));
    let (flow, action) = flow.step(Event::Done(Ok(())));
    // the engine wraps around and re-attempts the first record
    match &action {
        Some(Action::ProbeEnv { mount_point: Some(mp), path: None }) => {
            assert_eq!(mp.as_str(), "/mnt/a")
        }
        _ => panic!("expected the first record again"),
    }
    let (flow, _) = flow.step(env_ok());
    let (flow, _) = flow.step(Event::Done(Ok(())));
    let (flow, action) = flow.step(Event::Done(Ok(())));
    assert!(action.is_none());
    assert!(matches!(flow, AutoCloseFlow::Done));
}
