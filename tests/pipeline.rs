use nixos_conjurer::builder::{
    artifact_location, parse_image_path, path_file_name, BuildStage, Builder, ImageDestination,
};
use nixos_conjurer::alpine::BaseSystemDownloader;
use nixos_conjurer::config::Configuration;
use nixos_conjurer::plan::Action;

fn config(
    output_path: Option<&str>,
    path: Option<&str>,
    inline: Option<&str>,
) -> Configuration {
    Configuration::load(
        output_path.map(|s| s.to_string()),
        "lxc".to_string(),
        path.map(|s| s.to_string()),
        inline.map(|s| s.to_string()),
    )
    .ok()
    .unwrap()
}

fn run_args(a: &Action) -> (String, Vec<String>) {
    match a {
        Action::Run(c) => (c.program.clone(), c.args.clone()),
        _ => panic!("not a command"),
    }
}

#[test]
fn image_path_fixture() {
    let out = b"/nix/store/abc-image.tar.gz\n".to_vec();
    assert_eq!(parse_image_path(&out), b"nix/store/abc-image.tar.gz".to_vec());
}

#[test]
fn image_path_without_newline_or_separator() {
    assert_eq!(parse_image_path(&b"/fake/path".to_vec()), b"fake/path".to_vec());
    assert_eq!(parse_image_path(&b"relative/x\n".to_vec()), b"relative/x".to_vec());
    assert_eq!(parse_image_path(&Vec::new()), Vec::<u8>::new());
    assert_eq!(parse_image_path(&b"\n".to_vec()), Vec::<u8>::new());
}

#[test]
fn image_path_takes_first_line_only() {
    let out = b"/nix/store/a.tar.xz\n/nix/store/b\n\n".to_vec();
    assert_eq!(parse_image_path(&out), b"nix/store/a.tar.xz".to_vec());
}

#[test]
fn file_names_of_paths() {
    assert_eq!(path_file_name(&b"/tmp/x/nix/store/abc-image.tar.gz".to_vec()), Some(b"abc-image.tar.gz".to_vec()));
    assert_eq!(path_file_name(&b"dir/name/".to_vec()), Some(b"name".to_vec()));
    assert_eq!(path_file_name(&b"plain".to_vec()), Some(b"plain".to_vec()));
    assert_eq!(path_file_name(&b"/".to_vec()), None);
    assert_eq!(path_file_name(&b"".to_vec()), None);
    assert_eq!(path_file_name(&b"a/..".to_vec()), None);
    assert_eq!(path_file_name(&b"a/.".to_vec()), None);
}

#[test]
fn artifact_is_joined_onto_the_root() {
    assert_eq!(
        artifact_location(&b"/tmp/nixoslxcgen.1".to_vec(), &b"fake/path".to_vec()),
        b"/tmp/nixoslxcgen.1/fake/path".to_vec()
    );
    assert_eq!(artifact_location(&b"/tmp/".to_vec(), &b"x".to_vec()), b"/tmp/x".to_vec());
}

#[test]
fn build_process_steps_in_order() {
    let b = Builder::new(BaseSystemDownloader::new(), config(None, None, None));
    let steps = b.run_build_process();
    assert_eq!(steps.len(), 10);
    let stages: Vec<BuildStage> = steps.iter().map(|s| s.0).collect();
    assert_eq!(
        stages,
        vec![
            BuildStage::FixResolvConf,
            BuildStage::AddRepositories,
            BuildStage::InstallNix,
            BuildStage::InstallNix,
            BuildStage::InstallNix,
            BuildStage::UpdateChannels,
            BuildStage::UpdateChannels,
            BuildStage::UpdateChannels,
            BuildStage::InstallGenerator,
            BuildStage::Generate,
        ]
    );
    match &steps[0].1 {
        Action::WriteFile { path, contents } => {
            assert_eq!(path, "/etc/resolv.conf");
            assert_eq!(contents, "nameserver 8.8.8.8");
        }
        _ => panic!("expected a write"),
    }
    assert_eq!(run_args(&steps[2].1), ("apk".to_string(), vec!["update".to_string()]));
    assert_eq!(run_args(&steps[3].1), ("apk".to_string(), vec!["add".to_string(), "nix".to_string()]));
    assert!(matches!(&steps[6].1, Action::RemoveDir(p) if p == "/nix/var/nix/profiles/default"));
    assert_eq!(
        run_args(&steps[8].1),
        ("nix-env".to_string(), vec!["-iA".to_string(), "nixpkgs.nixos-generators".to_string()])
    );
    assert_eq!(
        run_args(&steps[9].1),
        ("nixos-generate".to_string(), vec!["-f".to_string(), "lxc".to_string()])
    );
}

#[test]
fn generator_gets_staged_configuration() {
    let b = Builder::new(BaseSystemDownloader::new(), config(None, None, Some("{ }")));
    let c = b.nixos_generate();
    assert_eq!(c.program, "nixos-generate");
    assert_eq!(c.args, vec!["-f", "lxc", "-c", "/configuration.nix"]);
}

#[test]
fn stage_names() {
    assert_eq!(BuildStage::FixResolvConf.name(), "Fix DNS resolution in the namespace");
    assert_eq!(BuildStage::Generate.name(), "Generating an LXC container image");
}

#[test]
fn configuration_is_copied_or_written() {
    let copy = Builder::new(BaseSystemDownloader::new(), config(None, Some("/etc/my.nix"), None));
    match copy.copy_nix_configuration("/tmp/root") {
        Some(Action::CopyFile { from, to }) => {
            assert_eq!(from, "/etc/my.nix");
            assert_eq!(to, "/tmp/root/configuration.nix");
        }
        _ => panic!("expected a copy"),
    }
    let write = Builder::new(BaseSystemDownloader::new(), config(None, None, Some("{ x = 1; }")));
    match write.copy_nix_configuration("/tmp/root/") {
        Some(Action::WriteFile { path, contents }) => {
            assert_eq!(path, "/tmp/root/configuration.nix");
            assert_eq!(contents, "{ x = 1; }");
        }
        _ => panic!("expected a write"),
    }
    let none = Builder::new(BaseSystemDownloader::new(), config(None, None, None));
    assert!(none.copy_nix_configuration("/tmp/root").is_none());
}

#[test]
fn output_location_configured_or_derived() {
    let image = b"/tmp/root/nix/store/abc-image.tar.gz".to_vec();
    let configured = Builder::new(BaseSystemDownloader::new(), config(Some("out.tar.gz"), None, None));
    assert!(matches!(configured.output_location(&image), Some(ImageDestination::Configured(p)) if p == "out.tar.gz"));
    let derived = Builder::new(BaseSystemDownloader::new(), config(None, None, None));
    assert!(matches!(derived.output_location(&image), Some(ImageDestination::FileName(n)) if n == b"abc-image.tar.gz".to_vec()));
    assert!(derived.output_location(&b"/".to_vec()).is_none());
}
