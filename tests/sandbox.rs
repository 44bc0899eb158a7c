use nixos_conjurer::mount::{bind, mount, MountFlags, MountGuard};
use nixos_conjurer::plan::{stage_failure, Action, Sequencer};
use nixos_conjurer::sandbox::{id_map_line, setup_namespace, SandboxStage};

fn written(a: &Action) -> (String, String) {
    match a {
        Action::WriteFile { path, contents } => (path.clone(), contents.clone()),
        _ => panic!("not a write"),
    }
}

#[test]
fn identity_map_lines() {
    assert_eq!(id_map_line(1000), "0 1000 1");
    assert_eq!(id_map_line(0), "0 0 1");
    assert_eq!(id_map_line(4294967295), "0 4294967295 1");
}

#[test]
fn sandbox_steps_in_order() {
    let steps = setup_namespace("/tmp/nixoslxcgen.abc", 1000, 100);
    assert_eq!(steps.len(), 14);
    let stages: Vec<SandboxStage> = steps.iter().map(|s| s.0).collect();
    assert_eq!(
        stages,
        vec![
            SandboxStage::Unshared,
            SandboxStage::DirsCreated,
            SandboxStage::DirsCreated,
            SandboxStage::Bound,
            SandboxStage::Bound,
            SandboxStage::Bound,
            SandboxStage::Bound,
            SandboxStage::Pivoted,
            SandboxStage::Pivoted,
            SandboxStage::Chrooted,
            SandboxStage::Chrooted,
            SandboxStage::IdentityMapped,
            SandboxStage::IdentityMapped,
            SandboxStage::IdentityMapped,
        ]
    );
    assert!(matches!(&steps[0].1, Action::Unshare));
    assert!(matches!(&steps[1].1, Action::CreateDirAll(p) if p == "/tmp/nixoslxcgen.abc/new_root"));
    assert!(matches!(&steps[2].1, Action::CreateDirAll(p) if p == "/tmp/nixoslxcgen.abc/old_root"));
    match &steps[3].1 {
        Action::Mount(m) => {
            assert_eq!(m.source.as_deref(), Some("/tmp/nixoslxcgen.abc"));
            assert_eq!(m.target, "/tmp/nixoslxcgen.abc/new_root");
        }
        _ => panic!("expected a mount"),
    }
    match &steps[4].1 {
        Action::Mount(m) => {
            assert_eq!(m.source.as_deref(), Some("/proc"));
            assert_eq!(m.target, "/tmp/nixoslxcgen.abc/new_root/proc");
        }
        _ => panic!("expected a mount"),
    }
    assert!(matches!(&steps[7].1, Action::ChangeDir(p) if p == "/tmp/nixoslxcgen.abc/new_root"));
    assert!(matches!(&steps[8].1, Action::PivotRoot { new_root, put_old } if new_root == "." && put_old == "old_root"));
    assert!(matches!(&steps[9].1, Action::Chroot(p) if p == "/"));
    assert!(matches!(&steps[10].1, Action::ChangeDir(p) if p == "/"));
    assert_eq!(written(&steps[11].1), ("/proc/self/setgroups".to_string(), "deny".to_string()));
    assert_eq!(written(&steps[12].1), ("/proc/self/uid_map".to_string(), "0 1000 1".to_string()));
    assert_eq!(written(&steps[13].1), ("/proc/self/gid_map".to_string(), "0 100 1".to_string()));
}

#[test]
fn sandbox_stage_names() {
    assert_eq!(SandboxStage::Unshared.name(), "enter the private namespaces");
    assert_eq!(SandboxStage::IdentityMapped.name(), "map the caller's user and group to root");
}

#[test]
fn bind_is_recursive_and_private() {
    let m = bind("/dev", "/root/new_root/dev");
    assert_eq!(m.source.as_deref(), Some("/dev"));
    assert_eq!(m.target, "/root/new_root/dev");
    assert_eq!(m.fstype.as_deref(), Some("none"));
    assert_eq!(m.flags, MountFlags { bind: true, private: true, recursive: true });
    assert!(m.data.is_none());
}

#[test]
fn mount_without_flags() {
    let m = mount(None, "/mnt".to_string(), Some("tmpfs".to_string()), None, Some("size=1m".to_string()));
    assert!(m.source.is_none());
    assert_eq!(m.flags, MountFlags::empty());
    assert_eq!(m.data.as_deref(), Some("size=1m"));
}

#[test]
fn guard_releases_once() {
    let m = bind("/proc", "/r/proc");
    let mut g = MountGuard::acquired(&m);
    assert!(!g.released());
    assert_eq!(g.release(), Some("/r/proc".to_string()));
    assert!(g.released());
    assert_eq!(g.release(), None);
    assert_eq!(g.release(), None);
}

#[test]
fn sequencer_halts_on_first_failure() {
    let mut s = Sequencer::new(4);
    assert_eq!(s.next(), Some(0));
    s.record(true);
    assert_eq!(s.next(), Some(1));
    s.record(false);
    assert_eq!(s.next(), None);
    assert_eq!(s.failed_step(), Some(1));
    assert!(!s.succeeded());
}

#[test]
fn sequencer_runs_every_step() {
    let mut s = Sequencer::new(3);
    let mut ran = Vec::new();
    while let Some(i) = s.next() {
        ran.push(i);
        s.record(true);
    }
    assert_eq!(ran, vec![0, 1, 2]);
    assert!(s.succeeded());
    assert_eq!(s.failed_step(), None);
    let empty = Sequencer::new(0);
    assert_eq!(empty.next(), None);
    assert!(empty.succeeded());
}

#[test]
fn failure_report_names_the_stage() {
    assert_eq!(
        stage_failure("enter the private namespaces", "EPERM: Operation not permitted"),
        "enter the private namespaces: EPERM: Operation not permitted"
    );
}
