//! Path strings: partition mount points, module subtrees and the joined
//! lower-directory list of an overlay mount.

use vstd::prelude::*;
use vstd::string::*;

verus! {

/// The views of a list of strings, in order.
pub open spec fn views(items: Seq<String>) -> Seq<Seq<char>> {
    Seq::new(items.len(), |i: int| items[i]@)
}

/// The mount point of a partition: a slash, then its name.
pub open spec fn spec_partition_target(partition: Seq<char>) -> Seq<char> {
    seq!['/'] + partition
}

/// The directory under which a partition's stock mounts are looked up: the
/// mount point with a trailing slash.
pub open spec fn spec_stock_mount_root(partition: Seq<char>) -> Seq<char> {
    seq!['/'] + partition + seq!['/']
}

/// `name` placed below `parent`: a slash goes between them unless `parent` is
/// empty or already ends in one.
pub open spec fn spec_child_path(parent: Seq<char>, name: Seq<char>) -> Seq<char> {
    if parent.len() == 0 || parent.last() == '/' {
        parent + name
    } else {
        parent + seq!['/'] + name
    }
}

/// The parts joined by colons, first part first.
pub open spec fn spec_join(parts: Seq<Seq<char>>) -> Seq<char>
    decreases parts.len(),
{
    if parts.len() == 0 {
        Seq::empty()
    } else if parts.len() == 1 {
        parts[0]
    } else {
        spec_join(parts.drop_last()) + seq![':'] + parts.last()
    }
}

/// The lower-directory option of an overlay mount: the contributed
/// directories in order, then the base directory, joined by colons.
pub open spec fn spec_overlay_lowerdir(lowerdirs: Seq<Seq<char>>, base: Seq<char>) -> Seq<char> {
    spec_join(lowerdirs.push(base))
}

/// The mount point of `partition`.
pub fn partition_target(partition: &str) -> (path: String)
    ensures
        path@ == spec_partition_target(partition@),
{
    proof {
        reveal_strlit("/");
    }
    let mut path = String::from_str("/");
    path.append(partition);
    assert(path@ =~= spec_partition_target(partition@));
    path
}

/// The directory below which the stock mounts of `partition` are captured.
pub fn stock_mount_root(partition: &str) -> (path: String)
    ensures
        path@ == spec_stock_mount_root(partition@),
{
    proof {
        reveal_strlit("/");
    }
    let mut path = String::from_str("/");
    path.append(partition);
    path.append("/");
    assert(path@ =~= spec_stock_mount_root(partition@));
    path
}

/// The path of `name` below `parent`.
pub fn child_path(parent: &str, name: &str) -> (path: String)
    ensures
        path@ == spec_child_path(parent@, name@),
{
    proof {
        reveal_strlit("/");
    }
    let n: usize = parent.unicode_len();
    let mut path = String::from_str(parent);
    if n > 0 && parent.get_char(n - 1) != '/' {
        path.append("/");
    }
    path.append(name);
    assert(path@ =~= spec_child_path(parent@, name@));
    path
}

/// Joins the contributed lower directories and the base directory into the
/// option string of an overlay mount, contributed directories first.
pub fn overlay_lowerdir(lowerdirs: &Vec<String>, base: &str) -> (joined: String)
    ensures
        joined@ == spec_overlay_lowerdir(views(lowerdirs@), base@),
{
    proof {
        reveal_strlit(":");
    }
    let mut joined = String::new();
    let mut i: usize = 0;
    while i < lowerdirs.len()
        invariant
            i <= lowerdirs.len(),
            ":"@ == seq![':'],
            i == 0 ==> joined@ == Seq::<char>::empty(),
            i > 0 ==> joined@ == spec_join(views(lowerdirs@).take(i as int)) + seq![':'],
        decreases lowerdirs.len() - i,
    {
        joined.append(lowerdirs[i].as_str());
        joined.append(":");
        proof {
            let all = views(lowerdirs@);
            let now = all.take(i + 1);
            assert(now.drop_last() =~= all.take(i as int));
            assert(now.last() == lowerdirs@[i as int]@);
            if i == 0 {
                assert(joined@ =~= spec_join(now) + seq![':']);
            } else {
                assert(joined@ =~= spec_join(now) + seq![':']);
            }
        }
        i += 1;
    }
    joined.append(base);
    proof {
        let all = views(lowerdirs@);
        let full = all.push(base@);
        assert(all.take(i as int) =~= all);
        assert(full.drop_last() =~= all);
        assert(full.last() == base@);
        if i == 0 {
            assert(joined@ =~= spec_join(full));
        } else {
            assert(joined@ =~= spec_join(full));
        }
    }
    joined
}

/// The base directory closes the joined list: whatever the modules
/// contribute, the option string ends in the base directory, and behind a
/// colon where anything was contributed.
pub proof fn lemma_base_is_last(lowerdirs: Seq<Seq<char>>, base: Seq<char>)
    ensures
        lowerdirs.len() == 0 ==> spec_overlay_lowerdir(lowerdirs, base) == base,
        lowerdirs.len() > 0 ==> spec_overlay_lowerdir(lowerdirs, base) == spec_join(lowerdirs)
            + seq![':'] + base,
        ({
            let joined = spec_overlay_lowerdir(lowerdirs, base);
            &&& joined.len() >= base.len()
            &&& joined.subrange(joined.len() - base.len(), joined.len() as int) == base
        }),
{
    let full = lowerdirs.push(base);
    assert(full.drop_last() =~= lowerdirs);
    assert(full.last() == base);
    let joined = spec_overlay_lowerdir(lowerdirs, base);
    assert(joined.subrange(joined.len() - base.len(), joined.len() as int) =~= base);
}

} // verus!
