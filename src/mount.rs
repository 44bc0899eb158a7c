//! Mount requests and the guard that owns one active bind mount.
use vstd::prelude::*;
use crate::config::opt_view;
use crate::text::owned;

verus! {

/// The mount flags this library asks for.
#[derive(PartialEq, Eq, Structural, Clone, Copy, Debug)]
pub struct MountFlags {
    /// Make a subtree visible at another place.
    pub bind: bool,
    /// Keep mount events from propagating to or from other mount namespaces.
    pub private: bool,
    /// Apply to every sub-mount of the subtree as well.
    pub recursive: bool,
}

impl MountFlags {
    /// No flag set.
    pub fn empty() -> (r: MountFlags)
        ensures
            !r.bind && !r.private && !r.recursive,
    {
        MountFlags { bind: false, private: false, recursive: false }
    }

    /// A recursive bind mount with private propagation.
    pub fn private_recursive_bind() -> (r: MountFlags)
        ensures
            r.bind && r.private && r.recursive,
    {
        MountFlags { bind: true, private: true, recursive: true }
    }
}

/// One mount to perform: source, target, filesystem type, flags and data.
pub struct MountRecord {
    pub source: Option<String>,
    pub target: String,
    pub fstype: Option<String>,
    pub flags: MountFlags,
    pub data: Option<String>,
}

/// The mathematical content of a [`MountRecord`].
pub struct MountView {
    pub source: Option<Seq<char>>,
    pub target: Seq<char>,
    pub fstype: Option<Seq<char>>,
    pub flags: MountFlags,
    pub data: Option<Seq<char>>,
}

impl View for MountRecord {
    type V = MountView;

    open spec fn view(&self) -> MountView {
        MountView {
            source: opt_view(self.source),
            target: self.target@,
            fstype: opt_view(self.fstype),
            flags: self.flags,
            data: opt_view(self.data),
        }
    }
}

/// The recursive, private bind mount of `source` onto `target`.
pub open spec fn bind_view(source: Seq<char>, target: Seq<char>) -> MountView {
    MountView {
        source: Some(source),
        target,
        fstype: Some("none"@),
        flags: MountFlags { bind: true, private: true, recursive: true },
        data: None,
    }
}

/// A mount request: absent flags mean no flag.
pub fn mount(
    source: Option<String>,
    target: String,
    fstype: Option<String>,
    flags: Option<MountFlags>,
    data: Option<String>,
) -> (r: MountRecord)
    ensures
        r.source == source,
        r.target == target,
        r.fstype == fstype,
        r.data == data,
        r.flags == (match flags {
            Some(f) => f,
            None => MountFlags { bind: false, private: false, recursive: false },
        }),
{
    let flags = match flags {
        Some(f) => f,
        None => MountFlags::empty(),
    };
    MountRecord { source, target, fstype, flags, data }
}

/// The request that bind-mounts `source` onto `target`, recursively and with
/// private propagation, so that neither the mount nor its sub-mounts are
/// visible to or changeable from the host's mount table.
pub fn bind(source: &str, target: &str) -> (r: MountRecord)
    ensures
        r@ == bind_view(source@, target@),
{
    mount(
        Some(owned(source)),
        owned(target),
        Some(owned("none")),
        Some(MountFlags::private_recursive_bind()),
        None,
    )
}

/// What releasing the guard `g` hands out to unmount: its target the first
/// time, nothing once it was released.
pub open spec fn release_hands_out(g: MountGuard) -> Option<Seq<char>> {
    if g.is_released() {
        None
    } else {
        Some(g.spec_target())
    }
}

/// A guard releases its mount at most once: the release of a freshly
/// acquired guard hands out its target, and every release after that hands
/// out nothing, so a failed unmount is never retried.
pub proof fn lemma_release_at_most_once(acquired: MountGuard, released: MountGuard)
    requires
        !acquired.is_released(),
        released.is_released(),
        released.spec_target() == acquired.spec_target(),
    ensures
        release_hands_out(acquired) == Some(acquired.spec_target()),
        release_hands_out(released) is None,
{
}

/// Owns one acquired mount and hands out its release exactly once.
pub struct MountGuard {
    target: String,
    released: bool,
}

impl MountGuard {
    /// The mount point that the guard releases.
    pub closed spec fn spec_target(&self) -> Seq<char> {
        self.target@
    }

    /// Whether the release was already handed out.
    pub closed spec fn is_released(&self) -> bool {
        self.released
    }

    /// The guard of a mount that was just acquired from `record`.
    pub fn acquired(record: &MountRecord) -> (r: MountGuard)
        ensures
            r.spec_target() == record.target@,
            !r.is_released(),
    {
        MountGuard { target: owned(record.target.as_str()), released: false }
    }

    /// The mount point to unmount now: the target the first time, nothing
    /// after that. The release is never handed out again, whether the
    /// unmount then succeeds or fails, so a failed unmount is not retried.
    pub fn release(&mut self) -> (r: Option<String>)
        ensures
            final(self).is_released(),
            final(self).spec_target() == old(self).spec_target(),
            opt_view(r) == release_hands_out(*old(self)),
    {
        if self.released {
            None
        } else {
            self.released = true;
            Some(owned(self.target.as_str()))
        }
    }

    /// Whether the release was already handed out.
    pub fn released(&self) -> (r: bool)
        ensures
            r == self.is_released(),
    {
        self.released
    }
}

} // verus!
