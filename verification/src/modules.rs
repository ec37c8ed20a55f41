//! Modules and the lower directories that they contribute to a partition.

use vstd::prelude::*;
use crate::paths::{child_path, spec_child_path, views};

verus! {

/// A partition that modules can overlay.
#[derive(Clone, Copy, Debug, PartialEq, Eq, Structural)]
pub enum Partition {
    System,
    Vendor,
    Product,
    SystemExt,
    Odm,
    Oem,
}

impl Partition {
    /// The partition's name: that of its mount point below the root, and of
    /// a module's subtree for it.
    pub open spec fn spec_name(self) -> Seq<char> {
        match self {
            Partition::System => "system"@,
            Partition::Vendor => "vendor"@,
            Partition::Product => "product"@,
            Partition::SystemExt => "system_ext"@,
            Partition::Odm => "odm"@,
            Partition::Oem => "oem"@,
        }
    }

    /// The partition's name.
    pub fn name(self) -> (name: &'static str)
        ensures
            name@ == self.spec_name(),
    {
        match self {
            Partition::System => "system",
            Partition::Vendor => "vendor",
            Partition::Product => "product",
            Partition::SystemExt => "system_ext",
            Partition::Odm => "odm",
            Partition::Oem => "oem",
        }
    }

    /// The partition that is mounted after this one, if any.
    pub open spec fn spec_next(self) -> Option<Partition> {
        match self {
            Partition::System => Some(Partition::Vendor),
            Partition::Vendor => Some(Partition::Product),
            Partition::Product => Some(Partition::SystemExt),
            Partition::SystemExt => Some(Partition::Odm),
            Partition::Odm => Some(Partition::Oem),
            Partition::Oem => None,
        }
    }

    /// The partition that is mounted after this one.
    pub fn next(self) -> (next: Option<Partition>)
        ensures
            next == self.spec_next(),
    {
        match self {
            Partition::System => Some(Partition::Vendor),
            Partition::Vendor => Some(Partition::Product),
            Partition::Product => Some(Partition::SystemExt),
            Partition::SystemExt => Some(Partition::Odm),
            Partition::Odm => Some(Partition::Oem),
            Partition::Oem => None,
        }
    }
}

/// One entry of the module root, as found on disk.
#[derive(Debug, PartialEq, Eq)]
pub struct ModuleEntry {
    /// The entry's path.
    pub path: String,
    /// Whether the entry is a directory.
    pub is_dir: bool,
    /// Whether the entry holds a disable marker.
    pub disabled: bool,
    /// Whether the entry holds a subtree named `system`.
    pub system: bool,
    /// Whether the entry holds a subtree named `vendor`.
    pub vendor: bool,
    /// Whether the entry holds a subtree named `product`.
    pub product: bool,
    /// Whether the entry holds a subtree named `system_ext`.
    pub system_ext: bool,
    /// Whether the entry holds a subtree named `odm`.
    pub odm: bool,
    /// Whether the entry holds a subtree named `oem`.
    pub oem: bool,
}

impl ModuleEntry {
    /// Whether the entry holds a subtree for `partition`.
    pub open spec fn spec_has_subtree(self, partition: Partition) -> bool {
        match partition {
            Partition::System => self.system,
            Partition::Vendor => self.vendor,
            Partition::Product => self.product,
            Partition::SystemExt => self.system_ext,
            Partition::Odm => self.odm,
            Partition::Oem => self.oem,
        }
    }

    /// Whether the entry holds a subtree for `partition`.
    pub fn has_subtree(&self, partition: Partition) -> (has: bool)
        ensures
            has == self.spec_has_subtree(partition),
    {
        match partition {
            Partition::System => self.system,
            Partition::Vendor => self.vendor,
            Partition::Product => self.product,
            Partition::SystemExt => self.system_ext,
            Partition::Odm => self.odm,
            Partition::Oem => self.oem,
        }
    }

    /// Whether the entry gives `partition` a lower directory: it is a
    /// directory, carries no disable marker and holds the subtree.
    pub open spec fn spec_contributes(self, partition: Partition) -> bool {
        self.is_dir && !self.disabled && self.spec_has_subtree(partition)
    }

    /// Whether the entry gives `partition` a lower directory.
    pub fn contributes(&self, partition: Partition) -> (yes: bool)
        ensures
            yes == self.spec_contributes(partition),
    {
        self.is_dir && !self.disabled && self.has_subtree(partition)
    }

    /// The path of the entry's subtree for `partition`.
    pub open spec fn spec_subtree(self, partition: Partition) -> Seq<char> {
        spec_child_path(self.path@, partition.spec_name())
    }

    /// The path of the entry's subtree for `partition`.
    pub fn subtree(&self, partition: Partition) -> (path: String)
        ensures
            path@ == self.spec_subtree(partition),
    {
        child_path(self.path.as_str(), partition.name())
    }
}

/// The lower directories that `modules` contribute to `partition`: the
/// subtree of each contributing entry, in the order of the listing.
pub open spec fn spec_lowerdirs(modules: Seq<ModuleEntry>, partition: Partition) -> Seq<Seq<char>>
    decreases modules.len(),
{
    if modules.len() == 0 {
        Seq::empty()
    } else {
        let before = spec_lowerdirs(modules.drop_last(), partition);
        if modules.last().spec_contributes(partition) {
            before.push(modules.last().spec_subtree(partition))
        } else {
            before
        }
    }
}

/// Collects the lower directories that the listed modules contribute to
/// `partition`, in the order of the listing.
pub fn collect_lowerdirs(modules: &Vec<ModuleEntry>, partition: Partition) -> (lowerdirs: Vec<String>)
    ensures
        views(lowerdirs@) == spec_lowerdirs(modules@, partition),
{
    let mut lowerdirs: Vec<String> = Vec::new();
    let mut i: usize = 0;
    assert(modules@.take(0) =~= Seq::empty());
    assert(views(lowerdirs@) =~= Seq::empty());
    while i < modules.len()
        invariant
            i <= modules.len(),
            views(lowerdirs@) == spec_lowerdirs(modules@.take(i as int), partition),
        decreases modules.len() - i,
    {
        let ghost before = views(lowerdirs@);
        if modules[i].contributes(partition) {
            let dir = modules[i].subtree(partition);
            lowerdirs.push(dir);
            assert(views(lowerdirs@) =~= before.push(modules@[i as int].spec_subtree(partition)));
        }
        proof {
            let seen = modules@.take(i + 1);
            assert(seen.drop_last() =~= modules@.take(i as int));
            assert(seen.last() == modules@[i as int]);
        }
        i += 1;
    }
    assert(modules@.take(i as int) =~= modules@);
    lowerdirs
}

/// The directories of one listing followed by another are those of the
/// first followed by those of the second: precedence among modules is the
/// order of the listing.
pub proof fn lemma_lowerdirs_follow_listing(
    first: Seq<ModuleEntry>,
    second: Seq<ModuleEntry>,
    partition: Partition,
)
    ensures
        spec_lowerdirs(first + second, partition) == spec_lowerdirs(first, partition)
            + spec_lowerdirs(second, partition),
    decreases second.len(),
{
    if second.len() == 0 {
        assert(first + second =~= first);
        assert(spec_lowerdirs(first, partition) + spec_lowerdirs(second, partition)
            =~= spec_lowerdirs(first, partition));
    } else {
        lemma_lowerdirs_follow_listing(first, second.drop_last(), partition);
        assert((first + second).drop_last() =~= first + second.drop_last());
        assert((first + second).last() == second.last());
        assert(spec_lowerdirs(first + second, partition) =~= spec_lowerdirs(first, partition)
            + spec_lowerdirs(second, partition));
    }
}

/// An entry that carries a disable marker, or is no directory, gives no
/// partition a lower directory: wherever it stands in the listing, every
/// partition's list is what it would be without the entry.
pub proof fn lemma_disabled_module_contributes_nothing(
    before: Seq<ModuleEntry>,
    module: ModuleEntry,
    after: Seq<ModuleEntry>,
    partition: Partition,
)
    requires
        module.disabled || !module.is_dir,
    ensures
        spec_lowerdirs(before + seq![module] + after, partition) == spec_lowerdirs(
            before + after,
            partition,
        ),
{
    let alone = seq![module];
    assert(alone.drop_last() =~= Seq::<ModuleEntry>::empty());
    assert(spec_lowerdirs(alone.drop_last(), partition) =~= Seq::<Seq<char>>::empty());
    assert(spec_lowerdirs(alone, partition) =~= Seq::<Seq<char>>::empty());
    lemma_lowerdirs_follow_listing(before, alone, partition);
    lemma_lowerdirs_follow_listing(before + alone, after, partition);
    lemma_lowerdirs_follow_listing(before, after, partition);
    assert(spec_lowerdirs(before, partition) + Seq::<Seq<char>>::empty() =~= spec_lowerdirs(
        before,
        partition,
    ));
}

} // verus!
