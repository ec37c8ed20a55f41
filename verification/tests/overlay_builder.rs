use ksud::modules::{collect_lowerdirs, ModuleEntry, Partition};
use ksud::mount_partition;
use ksud::mount_systemlessly;
use ksud::partition::{MountAction, MountPhase};
use ksud::systemless::{SystemlessAction, SystemlessError};

const ALL: [Partition; 6] = [
    Partition::System,
    Partition::Vendor,
    Partition::Product,
    Partition::SystemExt,
    Partition::Odm,
    Partition::Oem,
];

fn module(path: &str, subtrees: &[Partition]) -> ModuleEntry {
    ModuleEntry {
        path: path.to_string(),
        is_dir: true,
        disabled: false,
        system: subtrees.contains(&Partition::System),
        vendor: subtrees.contains(&Partition::Vendor),
        product: subtrees.contains(&Partition::Product),
        system_ext: subtrees.contains(&Partition::SystemExt),
        odm: subtrees.contains(&Partition::Odm),
        oem: subtrees.contains(&Partition::Oem),
    }
}

fn disabled(path: &str, subtrees: &[Partition]) -> ModuleEntry {
    ModuleEntry { disabled: true, ..module(path, subtrees) }
}

fn plan(listing: &Vec<ModuleEntry>) -> Vec<(Partition, Vec<String>)> {
    let mut mounted = None;
    let mut plan = Vec::new();
    for _ in 0..16 {
        match mount_systemlessly(Some(listing), mounted) {
            SystemlessAction::Mount { partition, lowerdirs } => {
                mounted = Some(partition);
                plan.push((partition, lowerdirs));
            }
            SystemlessAction::Finish { result } => {
                assert_eq!(result, Ok(()));
                return plan;
            }
        }
    }
    panic!("the mounts did not come to an end");
}

#[test]
fn enabled_module_contributes_and_disabled_module_does_not() {
    let listing = vec![
        module("/data/adb/modules/modA", &[Partition::System]),
        disabled("/data/adb/modules/modB", &[Partition::System]),
    ];
    let lowerdirs = collect_lowerdirs(&listing, Partition::System);
    assert_eq!(lowerdirs, vec!["/data/adb/modules/modA/system".to_string()]);

    let (_, probe) = mount_partition("system", &lowerdirs, MountPhase::Start, true);
    assert_eq!(probe, MountAction::ProbeSymlink { path: "/system".to_string() });
    let (_, mount) = mount_partition("system", &lowerdirs, MountPhase::CapturingStock, true);
    assert_eq!(
        mount,
        MountAction::MountOverlay {
            lowerdir: "/data/adb/modules/modA/system:/system".to_string(),
            target: "/system".to_string(),
        }
    );
}

#[test]
fn disabled_module_contributes_to_no_partition() {
    let listing = vec![disabled("/m/off", &ALL)];
    for partition in ALL {
        assert!(collect_lowerdirs(&listing, partition).is_empty());
        assert!(!listing[0].contributes(partition));
    }
}

#[test]
fn disabled_module_changes_no_list_wherever_it_stands() {
    let with = vec![
        module("/m/a", &[Partition::System, Partition::Odm]),
        disabled("/m/off", &ALL),
        module("/m/b", &[Partition::System, Partition::Vendor]),
    ];
    let without = vec![
        module("/m/a", &[Partition::System, Partition::Odm]),
        module("/m/b", &[Partition::System, Partition::Vendor]),
    ];
    for partition in ALL {
        assert_eq!(collect_lowerdirs(&with, partition), collect_lowerdirs(&without, partition));
    }
}

#[test]
fn entry_that_is_no_directory_is_skipped() {
    let mut file = module("/m/file", &ALL);
    file.is_dir = false;
    let listing = vec![file];
    for partition in ALL {
        assert!(collect_lowerdirs(&listing, partition).is_empty());
    }
}

#[test]
fn lowerdirs_follow_the_listing_order() {
    let listing = vec![
        module("/m/zeta", &[Partition::Vendor]),
        module("/m/alpha", &[Partition::Vendor, Partition::Oem]),
        module("/m/mid/", &[Partition::Vendor]),
    ];
    assert_eq!(
        collect_lowerdirs(&listing, Partition::Vendor),
        vec!["/m/zeta/vendor".to_string(), "/m/alpha/vendor".to_string(), "/m/mid/vendor".to_string()]
    );
    assert_eq!(collect_lowerdirs(&listing, Partition::Oem), vec!["/m/alpha/oem".to_string()]);
    assert!(collect_lowerdirs(&listing, Partition::System).is_empty());
}

#[test]
fn empty_listing_contributes_nothing() {
    let listing: Vec<ModuleEntry> = Vec::new();
    for partition in ALL {
        assert!(collect_lowerdirs(&listing, partition).is_empty());
    }
}

#[test]
fn partition_names_and_subtrees() {
    let names: Vec<&str> = ALL.iter().map(|p| p.name()).collect();
    assert_eq!(names, vec!["system", "vendor", "product", "system_ext", "odm", "oem"]);
    let entry = module("/m/a", &[Partition::SystemExt]);
    assert_eq!(entry.subtree(Partition::SystemExt), "/m/a/system_ext");
    assert!(entry.has_subtree(Partition::SystemExt));
    assert!(!entry.has_subtree(Partition::System));
}

#[test]
fn partitions_follow_one_another() {
    assert_eq!(Partition::System.next(), Some(Partition::Vendor));
    assert_eq!(Partition::Vendor.next(), Some(Partition::Product));
    assert_eq!(Partition::Product.next(), Some(Partition::SystemExt));
    assert_eq!(Partition::SystemExt.next(), Some(Partition::Odm));
    assert_eq!(Partition::Odm.next(), Some(Partition::Oem));
    assert_eq!(Partition::Oem.next(), None);
}

#[test]
fn unreadable_module_root_fails_at_once() {
    for mounted in [None, Some(Partition::System), Some(Partition::Oem)] {
        assert_eq!(
            mount_systemlessly(None, mounted),
            SystemlessAction::Finish { result: Err(SystemlessError::ModuleRootUnreadable) }
        );
    }
}

#[test]
fn system_is_mounted_first_and_every_partition_once() {
    let listing = vec![
        module("/m/a", &[Partition::System, Partition::Vendor]),
        disabled("/m/b", &ALL),
        module("/m/c", &[Partition::Vendor, Partition::Oem]),
    ];
    let plan = plan(&listing);
    let order: Vec<Partition> = plan.iter().map(|(p, _)| *p).collect();
    assert_eq!(order, ALL.to_vec());
    assert_eq!(plan[0].1, vec!["/m/a/system".to_string()]);
    assert_eq!(plan[1].1, vec!["/m/a/vendor".to_string(), "/m/c/vendor".to_string()]);
    assert!(plan[2].1.is_empty());
    assert!(plan[3].1.is_empty());
    assert!(plan[4].1.is_empty());
    assert_eq!(plan[5].1, vec!["/m/c/oem".to_string()]);
}

#[test]
fn empty_module_root_still_visits_every_partition() {
    let listing: Vec<ModuleEntry> = Vec::new();
    let plan = plan(&listing);
    assert_eq!(plan.len(), 6);
    assert!(plan.iter().all(|(_, dirs)| dirs.is_empty()));
}

#[test]
fn after_the_last_partition_the_whole_succeeds() {
    let listing = vec![module("/m/a", &ALL)];
    assert_eq!(
        mount_systemlessly(Some(&listing), Some(Partition::Oem)),
        SystemlessAction::Finish { result: Ok(()) }
    );
}
