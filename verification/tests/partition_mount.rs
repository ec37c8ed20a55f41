use ksud::mount_partition;
use ksud::partition::{MountAction, MountError, MountPhase};
use ksud::paths::{child_path, overlay_lowerdir, partition_target, stock_mount_root};

struct FakeOs {
    symlink: bool,
    capture_ok: bool,
    overlay_ok: bool,
    restore_ok: bool,
    unmount_ok: bool,
    mounted: Vec<String>,
    calls: Vec<MountAction>,
}

fn healthy() -> FakeOs {
    FakeOs {
        symlink: false,
        capture_ok: true,
        overlay_ok: true,
        restore_ok: true,
        unmount_ok: true,
        mounted: Vec::new(),
        calls: Vec::new(),
    }
}

fn perform(os: &mut FakeOs, action: MountAction) -> bool {
    let answer = match &action {
        MountAction::ProbeSymlink { .. } => os.symlink,
        MountAction::CaptureStock { .. } => os.capture_ok,
        MountAction::MountOverlay { target, .. } => {
            if os.overlay_ok {
                os.mounted.push(target.clone());
            }
            os.overlay_ok
        }
        MountAction::RestoreStock => os.restore_ok,
        MountAction::Unmount { target } => {
            if os.unmount_ok {
                os.mounted.retain(|m| m != target);
            }
            os.unmount_ok
        }
        MountAction::Finish { .. } => unreachable!(),
    };
    os.calls.push(action);
    answer
}

fn drive(partition: &str, lowerdir: &[&str], os: &mut FakeOs) -> Result<(), MountError> {
    let lowerdir: Vec<String> = lowerdir.iter().map(|s| s.to_string()).collect();
    let mut phase = MountPhase::Start;
    let mut answer = true;
    for _ in 0..16 {
        let (next, action) = mount_partition(partition, &lowerdir, phase, answer);
        if let MountAction::Finish { result } = action {
            assert_eq!(next, MountPhase::Finished { result });
            return result;
        }
        answer = perform(os, action);
        phase = next;
    }
    panic!("the mount did not come to an end");
}

fn probe(path: &str) -> MountAction {
    MountAction::ProbeSymlink { path: path.to_string() }
}

fn capture(path: &str) -> MountAction {
    MountAction::CaptureStock { path: path.to_string() }
}

fn overlay(lowerdir: &str, target: &str) -> MountAction {
    MountAction::MountOverlay { lowerdir: lowerdir.to_string(), target: target.to_string() }
}

fn unmount(target: &str) -> MountAction {
    MountAction::Unmount { target: target.to_string() }
}

#[test]
fn empty_lowerdir_asks_nothing_and_succeeds() {
    for partition in ["system", "vendor", "product", "system_ext", "odm", "oem"] {
        let mut os = healthy();
        assert_eq!(drive(partition, &[], &mut os), Ok(()));
        assert!(os.calls.is_empty());
        assert!(os.mounted.is_empty());
    }
}

#[test]
fn empty_lowerdir_succeeds_even_where_everything_would_fail() {
    let mut os = healthy();
    os.capture_ok = false;
    os.overlay_ok = false;
    assert_eq!(drive("system", &[], &mut os), Ok(()));
    assert!(os.calls.is_empty());
}

#[test]
fn symlinked_target_is_probed_and_left_alone() {
    let mut os = healthy();
    os.symlink = true;
    assert_eq!(drive("vendor", &["/data/adb/modules/modA/vendor"], &mut os), Ok(()));
    assert_eq!(os.calls, vec![probe("/vendor")]);
    assert!(os.mounted.is_empty());
}

#[test]
fn symlinked_target_is_left_alone_whatever_the_lowerdirs() {
    for dirs in [vec!["a"], vec!["a", "b", "c"], vec!["", ":"]] {
        let mut os = healthy();
        os.symlink = true;
        os.capture_ok = false;
        os.overlay_ok = false;
        assert_eq!(drive("vendor", &dirs, &mut os), Ok(()));
        assert_eq!(os.calls, vec![probe("/vendor")]);
    }
}

#[test]
fn successful_mount_lists_the_partition_last() {
    let mut os = healthy();
    let dirs = ["/data/adb/modules/modA/system", "/data/adb/modules/modB/system"];
    assert_eq!(drive("system", &dirs, &mut os), Ok(()));
    assert_eq!(
        os.calls,
        vec![
            probe("/system"),
            capture("/system/"),
            overlay(
                "/data/adb/modules/modA/system:/data/adb/modules/modB/system:/system",
                "/system"
            ),
            MountAction::RestoreStock,
        ]
    );
    assert_eq!(os.mounted, vec!["/system".to_string()]);
}

#[test]
fn single_lowerdir_is_followed_by_the_partition() {
    let mut os = healthy();
    assert_eq!(drive("odm", &["/m/x/odm"], &mut os), Ok(()));
    assert_eq!(os.calls[2], overlay("/m/x/odm:/odm", "/odm"));
}

#[test]
fn capture_failure_fails_the_mount_before_any_overlay() {
    let mut os = healthy();
    os.capture_ok = false;
    assert_eq!(drive("vendor", &["/m/a/vendor"], &mut os), Err(MountError::StockCapture));
    assert_eq!(os.calls, vec![probe("/vendor"), capture("/vendor/")]);
    assert!(os.mounted.is_empty());
}

#[test]
fn overlay_failure_is_the_result_and_stock_is_still_restored() {
    let mut os = healthy();
    os.overlay_ok = false;
    assert_eq!(drive("product", &["/m/a/product"], &mut os), Err(MountError::Overlay));
    assert_eq!(
        os.calls,
        vec![
            probe("/product"),
            capture("/product/"),
            overlay("/m/a/product:/product", "/product"),
            MountAction::RestoreStock,
        ]
    );
}

#[test]
fn overlay_failure_with_restore_failure_unmounts_nothing() {
    let mut os = healthy();
    os.overlay_ok = false;
    os.restore_ok = false;
    assert_eq!(drive("product", &["/m/a/product"], &mut os), Err(MountError::Overlay));
    assert_eq!(os.calls.len(), 4);
    assert!(!os.calls.contains(&unmount("/product")));
}

#[test]
fn restore_failure_unwinds_the_overlay() {
    let mut os = healthy();
    os.restore_ok = false;
    assert_eq!(drive("vendor", &["/m/a/vendor"], &mut os), Ok(()));
    assert_eq!(
        os.calls,
        vec![
            probe("/vendor"),
            capture("/vendor/"),
            overlay("/m/a/vendor:/vendor", "/vendor"),
            MountAction::RestoreStock,
            unmount("/vendor"),
        ]
    );
    assert!(os.mounted.is_empty());
}

#[test]
fn failed_unwind_does_not_change_the_result() {
    let mut os = healthy();
    os.restore_ok = false;
    os.unmount_ok = false;
    assert_eq!(drive("vendor", &["/m/a/vendor"], &mut os), Ok(()));
    assert_eq!(os.calls.last(), Some(&unmount("/vendor")));
    assert_eq!(os.mounted, vec!["/vendor".to_string()]);
}

#[test]
fn finished_mount_stays_finished() {
    let dirs = vec!["/m/a/oem".to_string()];
    for result in [Ok(()), Err(MountError::Overlay), Err(MountError::StockCapture)] {
        for answer in [true, false] {
            let (next, action) =
                mount_partition("oem", &dirs, MountPhase::Finished { result }, answer);
            assert_eq!(next, MountPhase::Finished { result });
            assert_eq!(action, MountAction::Finish { result });
        }
    }
}

#[test]
fn first_step_ignores_the_answer() {
    let dirs = vec!["/m/a/oem".to_string()];
    let yes = mount_partition("oem", &dirs, MountPhase::Start, true);
    let no = mount_partition("oem", &dirs, MountPhase::Start, false);
    assert_eq!(yes, no);
    assert_eq!(yes, (MountPhase::ProbingTarget, probe("/oem")));
}

#[test]
fn restore_is_asked_with_the_overlay_outcome_kept() {
    let dirs = vec!["/m/a/oem".to_string()];
    for ok in [true, false] {
        let (next, action) = mount_partition("oem", &dirs, MountPhase::MountingOverlay, ok);
        assert_eq!(next, MountPhase::RestoringStock { overlay_ok: ok });
        assert_eq!(action, MountAction::RestoreStock);
    }
}

#[test]
fn partition_paths() {
    assert_eq!(partition_target("system"), "/system");
    assert_eq!(partition_target("system_ext"), "/system_ext");
    assert_eq!(partition_target(""), "/");
    assert_eq!(stock_mount_root("vendor"), "/vendor/");
    assert_eq!(stock_mount_root(""), "//");
}

#[test]
fn child_path_puts_one_slash_between() {
    assert_eq!(child_path("/data/adb/modules/modA", "system"), "/data/adb/modules/modA/system");
    assert_eq!(child_path("/data/adb/modules/modA/", "system"), "/data/adb/modules/modA/system");
    assert_eq!(child_path("", "system"), "system");
    assert_eq!(child_path("/", "odm"), "/odm");
    assert_eq!(child_path("/m/\u{e9}t\u{e9}", "oem"), "/m/\u{e9}t\u{e9}/oem");
}

#[test]
fn overlay_lowerdir_joins_with_colons() {
    let none: Vec<String> = Vec::new();
    assert_eq!(overlay_lowerdir(&none, "/system"), "/system");
    let one = vec!["a".to_string()];
    assert_eq!(overlay_lowerdir(&one, "/system"), "a:/system");
    let three = vec!["a".to_string(), "".to_string(), "c".to_string()];
    assert_eq!(overlay_lowerdir(&three, "/b"), "a::c:/b");
}
