//! The ordered setup of the namespace sandbox around a build root.
use vstd::prelude::*;
use crate::mount::{bind, bind_view};
use crate::plan::{write_file, Action, ActionView};
use crate::text::{decimal, join_path, joined, owned, push_decimal};

verus! {

/// The progress of the sandbox setup: the stage that a step completes.
#[derive(PartialEq, Eq, Structural, Clone, Copy, Debug)]
pub enum SandboxStage {
    /// New user, mount, pid, uts and ipc namespaces were entered.
    Unshared,
    /// The directories of the new and the old root exist.
    DirsCreated,
    /// The build root, `/proc`, `/sys` and `/dev` are bind-mounted into the new root.
    Bound,
    /// The new root became `/`, with the previous root under `old_root`.
    Pivoted,
    /// The root directory and the working directory are `/`.
    Chrooted,
    /// `setgroups` is denied and the caller's ids map to root.
    IdentityMapped,
    /// The sandbox is fully isolated.
    Ready,
}

impl SandboxStage {
    /// What the step of this stage does, for progress and error reports.
    pub fn name(&self) -> (r: String)
        ensures
            r@ == stage_name(*self),
    {
        match self {
            SandboxStage::Unshared => owned("enter the private namespaces"),
            SandboxStage::DirsCreated => owned("create the directories of the new and the old root"),
            SandboxStage::Bound => owned("bind-mount the build root, /proc, /sys and /dev"),
            SandboxStage::Pivoted => owned("pivot the root to the build root"),
            SandboxStage::Chrooted => owned("change the root directory"),
            SandboxStage::IdentityMapped => owned("map the caller's user and group to root"),
            SandboxStage::Ready => owned("configured and entered the isolated namespace"),
        }
    }
}

/// The progress text of a sandbox stage.
pub open spec fn stage_name(s: SandboxStage) -> Seq<char> {
    match s {
        SandboxStage::Unshared => "enter the private namespaces"@,
        SandboxStage::DirsCreated => "create the directories of the new and the old root"@,
        SandboxStage::Bound => "bind-mount the build root, /proc, /sys and /dev"@,
        SandboxStage::Pivoted => "pivot the root to the build root"@,
        SandboxStage::Chrooted => "change the root directory"@,
        SandboxStage::IdentityMapped => "map the caller's user and group to root"@,
        SandboxStage::Ready => "configured and entered the isolated namespace"@,
    }
}

/// The single-entry id map that makes `id` root inside the namespace:
/// inside id 0, outside id `id`, a range of one.
pub open spec fn id_map(id: nat) -> Seq<char> {
    seq!['0', ' '] + decimal(id) + seq![' ', '1']
}

/// The contents of an id map file with one entry mapping `id` to 0.
pub fn id_map_line(id: u32) -> (r: String)
    ensures
        r@ == id_map(id as nat),
{
    let mut r = owned("0 ");
    proof { reveal_strlit("0 "); reveal_strlit(" 1"); }
    push_decimal(&mut r, id as u64);
    r.append(" 1");
    assert(r@ =~= id_map(id as nat));
    r
}

/// The view of a list of staged actions.
pub open spec fn plan_view(v: Seq<(SandboxStage, Action)>) -> Seq<(SandboxStage, ActionView)> {
    v.map_values(|p: (SandboxStage, Action)| (p.0, p.1@))
}

/// The steps that turn the build root `root` into an isolated sandbox for a
/// caller with user id `uid` and group id `gid`, in order, each with the
/// stage that it belongs to.
pub open spec fn sandbox_steps(root: Seq<char>, uid: nat, gid: nat) -> Seq<(SandboxStage, ActionView)> {
    let new_root = joined(root, "new_root"@);
    let old_root = joined(root, "old_root"@);
    seq![
        (SandboxStage::Unshared, ActionView::Unshare),
        (SandboxStage::DirsCreated, ActionView::CreateDirAll(new_root)),
        (SandboxStage::DirsCreated, ActionView::CreateDirAll(old_root)),
        (SandboxStage::Bound, ActionView::Mount(bind_view(root, new_root))),
        (SandboxStage::Bound, ActionView::Mount(bind_view("/proc"@, joined(new_root, "proc"@)))),
        (SandboxStage::Bound, ActionView::Mount(bind_view("/sys"@, joined(new_root, "sys"@)))),
        (SandboxStage::Bound, ActionView::Mount(bind_view("/dev"@, joined(new_root, "dev"@)))),
        (SandboxStage::Pivoted, ActionView::ChangeDir(new_root)),
        (SandboxStage::Pivoted, ActionView::PivotRoot { new_root: "."@, put_old: "old_root"@ }),
        (SandboxStage::Chrooted, ActionView::Chroot("/"@)),
        (SandboxStage::Chrooted, ActionView::ChangeDir("/"@)),
        (SandboxStage::IdentityMapped, ActionView::WriteFile {
            path: "/proc/self/setgroups"@,
            contents: "deny"@,
        }),
        (SandboxStage::IdentityMapped, ActionView::WriteFile {
            path: "/proc/self/uid_map"@,
            contents: id_map(uid),
        }),
        (SandboxStage::IdentityMapped, ActionView::WriteFile {
            path: "/proc/self/gid_map"@,
            contents: id_map(gid),
        }),
    ]
}

/// The ordered steps that enter the sandbox rooted at `root` for a caller
/// with user id `uid` and group id `gid`: unshare the namespaces, create the
/// new and old root directories, bind-mount the root and the host's `/proc`,
/// `/sys` and `/dev` into the new root, pivot into it, chroot, then deny
/// `setgroups` and write the uid and gid maps. Run them in order and abort on
/// the first failure.
pub fn setup_namespace(root: &str, uid: u32, gid: u32) -> (r: Vec<(SandboxStage, Action)>)
    ensures
        r@.len() == 14,
        plan_view(r@) == sandbox_steps(root@, uid as nat, gid as nat),
{
    let new_root = join_path(root, "new_root");
    let old_root = join_path(root, "old_root");
    let mut r: Vec<(SandboxStage, Action)> = Vec::new();
    r.push((SandboxStage::Unshared, Action::Unshare));
    r.push((SandboxStage::DirsCreated, Action::CreateDirAll(owned(new_root.as_str()))));
    r.push((SandboxStage::DirsCreated, Action::CreateDirAll(old_root)));
    r.push((SandboxStage::Bound, Action::Mount(bind(root, new_root.as_str()))));
    let proc_path = join_path(new_root.as_str(), "proc");
    r.push((SandboxStage::Bound, Action::Mount(bind("/proc", proc_path.as_str()))));
    let sys_path = join_path(new_root.as_str(), "sys");
    r.push((SandboxStage::Bound, Action::Mount(bind("/sys", sys_path.as_str()))));
    let dev_path = join_path(new_root.as_str(), "dev");
    r.push((SandboxStage::Bound, Action::Mount(bind("/dev", dev_path.as_str()))));
    r.push((SandboxStage::Pivoted, Action::ChangeDir(owned(new_root.as_str()))));
    r.push(
        (SandboxStage::Pivoted, Action::PivotRoot { new_root: owned("."), put_old: owned("old_root") }),
    );
    r.push((SandboxStage::Chrooted, Action::Chroot(owned("/"))));
    r.push((SandboxStage::Chrooted, Action::ChangeDir(owned("/"))));
    r.push((SandboxStage::IdentityMapped, write_file("/proc/self/setgroups", "deny")));
    let uid_map = id_map_line(uid);
    r.push((SandboxStage::IdentityMapped, write_file("/proc/self/uid_map", uid_map.as_str())));
    let gid_map = id_map_line(gid);
    r.push((SandboxStage::IdentityMapped, write_file("/proc/self/gid_map", gid_map.as_str())));
    assert(plan_view(r@) =~= sandbox_steps(root@, uid as nat, gid as nat));
    r
}

/// Whether the action `a` writes the file at `path`.
pub open spec fn writes(a: ActionView, path: Seq<char>) -> bool {
    a matches ActionView::WriteFile { path: p, .. } && p == path
}

/// The identity of the sandbox is remapped once and in the mandatory order:
/// `setgroups` is denied before the gid map is written, each of the uid and
/// gid maps is written by exactly one step, after every mount and the change
/// of root, and each holds the single entry that maps the caller's id to 0.
pub proof fn lemma_identity_map(root: Seq<char>, uid: nat, gid: nat)
    ensures
        ({
            let steps = sandbox_steps(root, uid, gid);
            &&& writes(steps[11].1, "/proc/self/setgroups"@)
            &&& steps[11].1 == ActionView::WriteFile {
                path: "/proc/self/setgroups"@,
                contents: "deny"@,
            }
            &&& steps[12].1 == ActionView::WriteFile { path: "/proc/self/uid_map"@, contents: id_map(uid) }
            &&& steps[13].1 == ActionView::WriteFile { path: "/proc/self/gid_map"@, contents: id_map(gid) }
            &&& steps.len() == 14
            &&& forall|i: int| 0 <= i < steps.len() && writes(steps[i].1, "/proc/self/uid_map"@) ==> i == 12
            &&& forall|i: int| 0 <= i < steps.len() && writes(steps[i].1, "/proc/self/gid_map"@) ==> i == 13
            &&& forall|i: int|
                0 <= i < 11 ==> !(#[trigger] steps[i].1 is WriteFile) && steps[i].0 != SandboxStage::IdentityMapped
        }),
{
    let steps = sandbox_steps(root, uid, gid);
    reveal_strlit("/proc/self/setgroups");
    reveal_strlit("/proc/self/uid_map");
    reveal_strlit("/proc/self/gid_map");
    assert forall|i: int| 0 <= i < steps.len() && writes(steps[i].1, "/proc/self/uid_map"@) implies i == 12 by {
        if i == 11 {
            assert("/proc/self/setgroups"@[11] != "/proc/self/uid_map"@[11]);
        }
        if i == 13 {
            assert("/proc/self/gid_map"@[11] != "/proc/self/uid_map"@[11]);
        }
    }
    assert forall|i: int| 0 <= i < steps.len() && writes(steps[i].1, "/proc/self/gid_map"@) implies i == 13 by {
        if i == 11 {
            assert("/proc/self/setgroups"@[11] != "/proc/self/gid_map"@[11]);
        }
        if i == 12 {
            assert("/proc/self/uid_map"@[11] != "/proc/self/gid_map"@[11]);
        }
    }
}

} // verus!
