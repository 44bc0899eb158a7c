use nixos_conjurer::alpine::{
    enable_edge_repositories, find_minirootfs, hex_matches, install_packages, update_repositories,
    verify_checksum, verify_checksum_digest, verify_tarball_size, BaseSystemDownloader, Error,
    ReleaseInfo,
};
use nixos_conjurer::nixos::{add_channel, install, update_channels};
use nixos_conjurer::plan::Action;

const ABC_SHA512: &str = "ddaf35a193617abacc417349ae20413112e6fa4e89a97ea20a9eeee64b55d39a2192992a274fc1a836ba3c23a3feebbd454d4423643ce80e2a9ac94fa54ca49f";

fn release(flavor: &str, file: &str) -> ReleaseInfo {
    ReleaseInfo {
        flavor: flavor.to_string(),
        file: file.to_string(),
        size: 3,
        sha512: ABC_SHA512.to_string(),
    }
}

#[test]
fn first_minirootfs_is_chosen() {
    let r = find_minirootfs(vec![
        release("alpine-standard", "std.iso"),
        release("alpine-minirootfs", "first.tar.gz"),
        release("alpine-minirootfs", "second.tar.gz"),
    ]);
    assert_eq!(r.ok().unwrap().file, "first.tar.gz");
}

#[test]
fn missing_minirootfs_is_an_error() {
    let r = find_minirootfs(vec![release("alpine-virt", "virt.iso")]);
    assert_eq!(
        r.err().unwrap().message(),
        "unable to find the `alpine-minirootfs` release in the version file"
    );
    assert!(find_minirootfs(Vec::new()).is_err());
}

#[test]
fn size_must_match_exactly() {
    assert!(verify_tarball_size(2831, 2831).is_ok());
    let e = verify_tarball_size(10, 2831).err().unwrap();
    assert_eq!(e.message(), "size mismatch: expected 2831, but got 10");
    assert_eq!(
        verify_tarball_size(0, u64::MAX).err().unwrap().message(),
        "size mismatch: expected 18446744073709551615, but got 0"
    );
}

#[test]
fn checksum_of_known_input() {
    assert!(verify_checksum(&b"abc".to_vec(), ABC_SHA512).is_ok());
    assert!(verify_checksum(&b"abd".to_vec(), ABC_SHA512).is_err());
    assert!(verify_checksum(&b"abc".to_vec(), &ABC_SHA512.to_uppercase()).is_err());
    assert!(verify_checksum(&b"abc".to_vec(), "").is_err());
}

#[test]
fn checksum_mismatch_message() {
    let e = verify_checksum_digest(&vec![0xab, 0x01], "ab02").err().unwrap();
    assert_eq!(e.message(), "SHA-512 checksum doesn't match the expected `ab02`");
    assert!(verify_checksum_digest(&vec![0xab, 0x01], "ab01").is_ok());
}

#[test]
fn hex_comparison() {
    assert!(hex_matches(&vec![0x00, 0xff, 0x1a], "00ff1a"));
    assert!(!hex_matches(&vec![0x00, 0xff, 0x1a], "00FF1A"));
    assert!(!hex_matches(&vec![0x00], "000"));
    assert!(hex_matches(&Vec::new(), ""));
}

#[test]
fn downloaded_tarball_is_verified() {
    let d = BaseSystemDownloader::new();
    let rel = release("alpine-minirootfs", "x.tar.gz");
    assert!(d.verify(&rel, &b"abc".to_vec()).is_ok());
    assert_eq!(
        d.verify(&rel, &b"abcd".to_vec()).err().unwrap().message(),
        "size mismatch: expected 3, but got 4"
    );
    assert!(d.verify(&rel, &b"abd".to_vec()).is_err());
}

#[test]
fn mirror_urls() {
    let d = BaseSystemDownloader::new();
    assert_eq!(
        d.version_file_url(),
        "https://dl-cdn.alpinelinux.org/alpine/latest-stable/releases/x86_64/latest-releases.yaml"
    );
    assert_eq!(
        d.tarball_url("alpine-minirootfs-3.18.4-x86_64.tar.gz"),
        "https://dl-cdn.alpinelinux.org/alpine/latest-stable/releases/x86_64/alpine-minirootfs-3.18.4-x86_64.tar.gz"
    );
}

#[test]
fn package_manager_commands() {
    let u = update_repositories();
    assert_eq!(u.program, "apk");
    assert_eq!(u.args, vec!["update"]);
    let i = install_packages(&vec!["nix".to_string(), "bash".to_string()]);
    assert_eq!(i.program, "apk");
    assert_eq!(i.args, vec!["add", "nix", "bash"]);
    assert_eq!(install_packages(&Vec::new()).args, vec!["add"]);
    match enable_edge_repositories() {
        Action::WriteFile { path, contents } => {
            assert_eq!(path, "/etc/apk/repositories");
            assert_eq!(contents.lines().count(), 3);
            assert!(contents.ends_with("/alpine/edge/testing/\n"));
        }
        _ => panic!("expected a write"),
    }
    assert_eq!(Error::new("boom").message(), "boom");
}

#[test]
fn nix_commands() {
    let a = add_channel("https://nixos.org/channels/nixpkgs-unstable");
    assert_eq!(a.program, "nix-channel");
    assert_eq!(a.args, vec!["--add", "https://nixos.org/channels/nixpkgs-unstable"]);
    let i = install(&vec!["nixpkgs.nixos-generators".to_string()]);
    assert_eq!(i.program, "nix-env");
    assert_eq!(i.args, vec!["-iA", "nixpkgs.nixos-generators"]);
    let u = update_channels();
    assert_eq!(u.len(), 2);
    assert!(matches!(&u[0], Action::RemoveDir(p) if p == "/nix/var/nix/profiles/default"));
    assert!(matches!(&u[1], Action::Run(c) if c.program == "nix-channel" && c.args == vec!["--update"]));
    assert_eq!(nixos_conjurer::nixos::Error::new("x").message(), "x");
}
