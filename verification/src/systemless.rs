//! Mounting the overlays of all partitions, one after the other.

use vstd::prelude::*;
use crate::modules::{collect_lowerdirs, spec_lowerdirs, ModuleEntry, Partition};

verus! {

/// Why nothing could be mounted.
#[derive(Clone, Copy, Debug, PartialEq, Eq)]
pub enum SystemlessError {
    /// The module root could not be listed.
    ModuleRootUnreadable,
}

/// What to do next while the partitions are mounted.
#[derive(Debug, PartialEq, Eq)]
pub enum SystemlessAction {
    /// Mount the overlay of `partition` with these contributed lower
    /// directories, highest precedence first.
    Mount { partition: Partition, lowerdirs: Vec<String> },
    /// Nothing more to do.
    Finish { result: Result<(), SystemlessError> },
}

/// A [`SystemlessAction`] with its strings as sequences of characters.
pub enum SystemlessActionView {
    Mount { partition: Partition, lowerdirs: Seq<Seq<char>> },
    Finish { result: Result<(), SystemlessError> },
}

impl View for SystemlessAction {
    type V = SystemlessActionView;

    open spec fn view(&self) -> SystemlessActionView {
        match *self {
            SystemlessAction::Mount { partition, lowerdirs } => SystemlessActionView::Mount {
                partition,
                lowerdirs: crate::paths::views(lowerdirs@),
            },
            SystemlessAction::Finish { result } => SystemlessActionView::Finish { result },
        }
    }
}

/// The partition to mount after `mounted`; `system` where none was mounted
/// yet.
pub open spec fn partition_after(mounted: Option<Partition>) -> Option<Partition> {
    match mounted {
        None => Some(Partition::System),
        Some(partition) => partition.spec_next(),
    }
}

/// The partitions in the order in which they are mounted.
pub open spec fn mount_order() -> Seq<Partition> {
    seq![
        Partition::System,
        Partition::Vendor,
        Partition::Product,
        Partition::SystemExt,
        Partition::Odm,
        Partition::Oem,
    ]
}

/// What follows once the mount of `mounted` was attempted (`None`: at the
/// start), for a module root whose listing is `listing` (`None`: it could
/// not be listed).
pub open spec fn systemless_step(
    listing: Option<Seq<ModuleEntry>>,
    mounted: Option<Partition>,
) -> SystemlessActionView {
    match listing {
        None => SystemlessActionView::Finish {
            result: Err(SystemlessError::ModuleRootUnreadable),
        },
        Some(modules) => match partition_after(mounted) {
            Some(partition) => SystemlessActionView::Mount {
                partition,
                lowerdirs: spec_lowerdirs(modules, partition),
            },
            None => SystemlessActionView::Finish { result: Ok(()) },
        },
    }
}

/// Says which partition to mount next, and with which lower directories.
///
/// `listing` is the module root's listing, `None` where the root could not
/// be opened. `mounted` is the partition whose mount was attempted last,
/// `None` at the start. How that mount went is not asked for: a partition
/// that fails holds up none of the others and does not change the result.
pub fn mount_systemlessly(listing: Option<&Vec<ModuleEntry>>, mounted: Option<Partition>) -> (next:
    SystemlessAction)
    ensures
        next@ == systemless_step(
            match listing {
                Some(modules) => Some(modules@),
                None => None,
            },
            mounted,
        ),
{
    let Some(modules) = listing else {
        return SystemlessAction::Finish { result: Err(SystemlessError::ModuleRootUnreadable) };
    };
    let upcoming = match mounted {
        None => Some(Partition::System),
        Some(partition) => partition.next(),
    };
    match upcoming {
        Some(partition) => SystemlessAction::Mount {
            partition,
            lowerdirs: collect_lowerdirs(modules, partition),
        },
        None => SystemlessAction::Finish { result: Ok(()) },
    }
}

/// The partitions mounted from `mounted` on, in order.
pub open spec fn partitions_after(mounted: Option<Partition>) -> Seq<Partition>
    decreases
        match partition_after(mounted) {
            Some(partition) => 6 - mount_order().index_of(partition),
            None => 0,
        },
{
    match partition_after(mounted) {
        Some(partition) => seq![partition] + partitions_after(Some(partition)),
        None => Seq::empty(),
    }
}

/// For a module root that can be listed, every partition is mounted once:
/// `system` first, then the other five, and then the whole ends in success.
pub proof fn lemma_every_partition_once()
    ensures
        partitions_after(None) == mount_order(),
        forall|modules: Seq<ModuleEntry>|
            systemless_step(Some(modules), Some(Partition::Oem)) == (SystemlessActionView::Finish {
                result: Ok(()),
            }),
{
    reveal_with_fuel(partitions_after, 8);
    assert(partitions_after(None) =~= mount_order());
}

/// A module root that cannot be listed ends the whole at once, with the
/// error and with nothing mounted.
pub proof fn lemma_unreadable_root_mounts_nothing(mounted: Option<Partition>)
    ensures
        systemless_step(None, mounted) == (SystemlessActionView::Finish {
            result: Err(SystemlessError::ModuleRootUnreadable),
        }),
{
}

} // verus!
