//! The build pipeline that runs inside the sandbox, the staging of the Nix
//! configuration, and where the generated image is taken from and put.
use vstd::prelude::*;
use crate::alpine::{
    edge_repositories, enable_edge_repositories, install_packages, repositories_path,
    update_repositories, BaseSystemDownloader,
};
use crate::config::Configuration;
use crate::nixos::{add_channel, default_profile, install, update_channels};
use crate::plan::{command, write_file, Action, ActionView, CommandView};
use crate::text::{join_path, joined, owned};
pub use crate::sandbox::setup_namespace;

verus! {

/// The byte of a line feed.
pub const NEWLINE: u8 = 10;

/// The byte of the path separator `/`.
pub const SEPARATOR: u8 = 47;

/// The bytes of `s` before its first line feed (all of `s` when it has none).
pub open spec fn first_line(s: Seq<u8>) -> Seq<u8>
    decreases s.len(),
{
    if s.len() == 0 || s[0] == NEWLINE {
        Seq::empty()
    } else {
        seq![s[0]] + first_line(s.drop_first())
    }
}

/// `line` without its leading path separator, if it has one.
pub open spec fn strip_separator(line: Seq<u8>) -> Seq<u8> {
    if line.len() > 0 && line[0] == SEPARATOR {
        line.drop_first()
    } else {
        line
    }
}

/// The artifact path that the image generator reports on its standard output:
/// the first line, without the leading separator and the line feed.
pub open spec fn image_path_of(stdout: Seq<u8>) -> Seq<u8> {
    strip_separator(first_line(stdout))
}

proof fn lemma_first_line_prefix(s: Seq<u8>, k: int)
    requires
        0 <= k <= s.len(),
        k == s.len() || s[k] == NEWLINE,
        forall|j: int| 0 <= j < k ==> s[j] != NEWLINE,
    ensures
        first_line(s) == s.take(k),
    decreases k,
{
    if k == 0 {
        assert(s.take(0) =~= Seq::<u8>::empty());
    } else {
        let t = s.drop_first();
        assert forall|j: int| 0 <= j < k - 1 implies t[j] != NEWLINE by {
            assert(t[j] == s[j + 1]);
        }
        if k - 1 < t.len() {
            assert(t[k - 1] == s[k]);
        }
        lemma_first_line_prefix(t, k - 1);
        assert(s.take(k) =~= seq![s[0]] + t.take(k - 1));
    }
}

/// Extracts the artifact path from the image generator's standard output:
/// its first line, with the leading path separator stripped.
pub fn parse_image_path(stdout: &Vec<u8>) -> (r: Vec<u8>)
    ensures
        r@ == image_path_of(stdout@),
{
    let mut end: usize = 0;
    while end < stdout.len() && stdout[end] != NEWLINE
        invariant
            end <= stdout@.len(),
            forall|j: int| 0 <= j < end ==> stdout@[j] != NEWLINE,
        decreases stdout@.len() - end,
    {
        end = end + 1;
    }
    proof {
        lemma_first_line_prefix(stdout@, end as int);
    }
    let start: usize = if end > 0 && stdout[0] == SEPARATOR {
        1
    } else {
        0
    };
    let mut r: Vec<u8> = Vec::new();
    let mut i: usize = start;
    while i < end
        invariant
            start <= i <= end <= stdout@.len(),
            r@ == stdout@.subrange(start as int, i as int),
        decreases end - i,
    {
        r.push(stdout[i]);
        i = i + 1;
    }
    assert(r@ =~= image_path_of(stdout@));
    r
}

/// The stages of the build pipeline, in the order they run.
#[derive(PartialEq, Eq, Structural, Clone, Copy, Debug)]
pub enum BuildStage {
    /// Make name resolution work inside the sandbox.
    FixResolvConf,
    /// Enable the edge repositories of the package manager.
    AddRepositories,
    /// Install and configure the Nix package manager.
    InstallNix,
    /// Subscribe to the package channel and refresh the channels.
    UpdateChannels,
    /// Install the image generator.
    InstallGenerator,
    /// Run the image generator.
    Generate,
}

/// The progress text of a build stage.
pub open spec fn build_stage_name(s: BuildStage) -> Seq<char> {
    match s {
        BuildStage::FixResolvConf => "Fix DNS resolution in the namespace"@,
        BuildStage::AddRepositories => "Adding Alpine edge repositories"@,
        BuildStage::InstallNix => "Installing the Nix package manager"@,
        BuildStage::UpdateChannels => "Configure and update Nix channels"@,
        BuildStage::InstallGenerator => "Installing the `nixpkgs.nixos-generators` package through Nix"@,
        BuildStage::Generate => "Generating an LXC container image"@,
    }
}

impl BuildStage {
    /// What the stage does, for progress and error reports.
    pub fn name(&self) -> (r: String)
        ensures
            r@ == build_stage_name(*self),
    {
        match self {
            BuildStage::FixResolvConf => owned("Fix DNS resolution in the namespace"),
            BuildStage::AddRepositories => owned("Adding Alpine edge repositories"),
            BuildStage::InstallNix => owned("Installing the Nix package manager"),
            BuildStage::UpdateChannels => owned("Configure and update Nix channels"),
            BuildStage::InstallGenerator => owned(
                "Installing the `nixpkgs.nixos-generators` package through Nix",
            ),
            BuildStage::Generate => owned("Generating an LXC container image"),
        }
    }
}

/// The path, inside the sandbox, of the staged Nix configuration.
pub open spec fn staged_configuration() -> Seq<char> {
    "/configuration.nix"@
}

/// The command that generates the image in `format`, with the staged Nix
/// configuration when there is one.
pub open spec fn generate_command(format: Seq<char>, has_configuration: bool) -> CommandView {
    CommandView {
        program: "nixos-generate"@,
        args: if has_configuration {
            seq!["-f"@, format, "-c"@, staged_configuration()]
        } else {
            seq!["-f"@, format]
        },
    }
}

/// The steps of the build pipeline, each with its stage, in order.
pub open spec fn build_steps(format: Seq<char>, has_configuration: bool) -> Seq<
    (BuildStage, ActionView),
> {
    seq![
        (BuildStage::FixResolvConf, ActionView::WriteFile {
            path: "/etc/resolv.conf"@,
            contents: "nameserver 8.8.8.8"@,
        }),
        (BuildStage::AddRepositories, ActionView::WriteFile {
            path: repositories_path(),
            contents: edge_repositories(),
        }),
        (BuildStage::InstallNix, ActionView::Run(
            CommandView { program: "apk"@, args: seq!["update"@] },
        )),
        (BuildStage::InstallNix, ActionView::Run(
            CommandView { program: "apk"@, args: seq!["add"@, "nix"@] },
        )),
        (BuildStage::InstallNix, ActionView::WriteFile {
            path: "/etc/nix/nix.conf"@,
            contents: "build-users-group ="@,
        }),
        (BuildStage::UpdateChannels, ActionView::Run(
            CommandView {
                program: "nix-channel"@,
                args: seq!["--add"@, "https://nixos.org/channels/nixpkgs-unstable"@],
            },
        )),
        (BuildStage::UpdateChannels, ActionView::RemoveDir(default_profile())),
        (BuildStage::UpdateChannels, ActionView::Run(
            CommandView { program: "nix-channel"@, args: seq!["--update"@] },
        )),
        (BuildStage::InstallGenerator, ActionView::Run(
            CommandView { program: "nix-env"@, args: seq!["-iA"@, "nixpkgs.nixos-generators"@] },
        )),
        (BuildStage::Generate, ActionView::Run(generate_command(format, has_configuration))),
    ]
}

/// The view of a list of staged build actions.
pub open spec fn build_plan_view(v: Seq<(BuildStage, Action)>) -> Seq<(BuildStage, ActionView)> {
    v.map_values(|p: (BuildStage, Action)| (p.0, p.1@))
}

/// Where the generated image is copied to.
pub enum ImageDestination {
    /// The configured output path.
    Configured(String),
    /// The file name of the image, in the working directory.
    FileName(Vec<u8>),
}

/// The mathematical content of an [`ImageDestination`].
pub enum DestinationView {
    Configured(Seq<char>),
    FileName(Seq<u8>),
}

impl View for ImageDestination {
    type V = DestinationView;

    open spec fn view(&self) -> DestinationView {
        match self {
            ImageDestination::Configured(p) => DestinationView::Configured(p@),
            ImageDestination::FileName(n) => DestinationView::FileName(n@),
        }
    }
}

/// `p` without its trailing path separators.
pub open spec fn trim_separators(p: Seq<u8>) -> Seq<u8>
    decreases p.len(),
{
    if p.len() > 0 && p.last() == SEPARATOR {
        trim_separators(p.drop_last())
    } else {
        p
    }
}

/// The bytes of `p` after its last path separator.
pub open spec fn last_segment(p: Seq<u8>) -> Seq<u8>
    decreases p.len(),
{
    if p.len() == 0 || p.last() == SEPARATOR {
        Seq::empty()
    } else {
        last_segment(p.drop_last()).push(p.last())
    }
}

/// The file name of the path `p`: its last component, if that is a name
/// rather than nothing, `.` or `..`.
pub open spec fn file_name(p: Seq<u8>) -> Option<Seq<u8>> {
    let s = last_segment(trim_separators(p));
    if s.len() == 0 || s == seq![46u8] || s == seq![46u8, 46u8] {
        None
    } else {
        Some(s)
    }
}

proof fn lemma_trim_separators(p: Seq<u8>, e: int)
    requires
        0 <= e <= p.len(),
        forall|j: int| e <= j < p.len() ==> p[j] == SEPARATOR,
        e == 0 || p[e - 1] != SEPARATOR,
    ensures
        trim_separators(p) == p.take(e),
    decreases p.len(),
{
    if p.len() > e {
        lemma_trim_separators(p.drop_last(), e);
        assert(p.drop_last().take(e) =~= p.take(e));
    } else {
        assert(p.take(e) =~= p);
    }
}

proof fn lemma_last_segment(p: Seq<u8>, s: int)
    requires
        0 <= s <= p.len(),
        forall|j: int| s <= j < p.len() ==> p[j] != SEPARATOR,
        s == 0 || p[s - 1] == SEPARATOR,
    ensures
        last_segment(p) == p.subrange(s, p.len() as int),
    decreases p.len(),
{
    if p.len() > s {
        lemma_last_segment(p.drop_last(), s);
        assert(p.subrange(s, p.len() as int) =~= p.drop_last().subrange(s, p.len() - 1).push(
            p.last(),
        ));
    } else {
        assert(p.subrange(s, p.len() as int) =~= Seq::<u8>::empty());
    }
}

/// The file name of the path `p`, if it has one.
pub fn path_file_name(p: &Vec<u8>) -> (r: Option<Vec<u8>>)
    ensures
        match r {
            Some(v) => file_name(p@) == Some(v@),
            None => file_name(p@) is None,
        },
{
    let mut e: usize = p.len();
    while e > 0 && p[e - 1] == SEPARATOR
        invariant
            e <= p@.len(),
            forall|j: int| e <= j < p@.len() ==> p@[j] == SEPARATOR,
        decreases e,
    {
        e = e - 1;
    }
    proof {
        lemma_trim_separators(p@, e as int);
    }
    let ghost t = p@.take(e as int);
    let mut s: usize = e;
    while s > 0 && p[s - 1] != SEPARATOR
        invariant
            s <= e <= p@.len(),
            t == p@.take(e as int),
            forall|j: int| s <= j < e ==> p@[j] != SEPARATOR,
        decreases s,
    {
        s = s - 1;
    }
    proof {
        lemma_last_segment(t, s as int);
    }
    let mut seg: Vec<u8> = Vec::new();
    let mut i: usize = s;
    while i < e
        invariant
            s <= i <= e <= p@.len(),
            seg@ == p@.subrange(s as int, i as int),
        decreases e - i,
    {
        seg.push(p[i]);
        i = i + 1;
    }
    assert(seg@ =~= last_segment(trim_separators(p@)));
    let n = seg.len();
    if n == 0 || (n == 1 && seg[0] == 46) || (n == 2 && seg[0] == 46 && seg[1] == 46) {
        assert(n == 1 && seg[0] == 46 ==> seg@ =~= seq![46u8]);
        assert(n == 2 && seg[0] == 46 && seg[1] == 46 ==> seg@ =~= seq![46u8, 46u8]);
        None
    } else {
        assert(seg@ != seq![46u8]);
        assert(seg@ != seq![46u8, 46u8]);
        Some(seg)
    }
}

/// `base`, a path separator unless `base` already ends with one, and `name`.
pub open spec fn joined_bytes(base: Seq<u8>, name: Seq<u8>) -> Seq<u8> {
    if base.len() > 0 && base.last() == SEPARATOR {
        base + name
    } else {
        base.push(SEPARATOR) + name
    }
}

/// The absolute location, outside the sandbox, of the image that the
/// generator reported at `image` relative to the build root `root`.
pub fn artifact_location(root: &Vec<u8>, image: &Vec<u8>) -> (r: Vec<u8>)
    ensures
        r@ == joined_bytes(root@, image@),
{
    let mut r: Vec<u8> = Vec::new();
    let mut i: usize = 0;
    while i < root.len()
        invariant
            i <= root@.len(),
            r@ == root@.take(i as int),
        decreases root@.len() - i,
    {
        r.push(root[i]);
        i = i + 1;
    }
    assert(r@ =~= root@);
    if !(root.len() > 0 && root[root.len() - 1] == SEPARATOR) {
        r.push(SEPARATOR);
    }
    let ghost prefix = r@;
    let mut j: usize = 0;
    while j < image.len()
        invariant
            j <= image@.len(),
            r@ == prefix + image@.take(j as int),
        decreases image@.len() - j,
    {
        r.push(image[j]);
        j = j + 1;
        assert(r@ =~= prefix + image@.take(j as int));
    }
    assert(r@ =~= joined_bytes(root@, image@));
    r
}

/// Prepares the build root and describes the build that runs in the sandbox.
pub struct Builder {
    bsd: BaseSystemDownloader,
    conf: Configuration,
}

impl Builder {
    /// The configuration of the build.
    pub closed spec fn spec_conf(&self) -> Configuration {
        self.conf
    }

    /// The downloader of the base system.
    pub closed spec fn spec_bsd(&self) -> BaseSystemDownloader {
        self.bsd
    }

    /// A builder that fetches the base system with `base_system_downloader`
    /// and builds what `configuration` asks for.
    pub fn new(base_system_downloader: BaseSystemDownloader, configuration: Configuration) -> (r:
        Builder)
        ensures
            r.spec_conf() == configuration,
            r.spec_bsd() == base_system_downloader,
    {
        Builder { bsd: base_system_downloader, conf: configuration }
    }

    /// The downloader of the base system.
    pub fn downloader(&self) -> (r: &BaseSystemDownloader)
        ensures
            *r == self.spec_bsd(),
    {
        &self.bsd
    }

    /// The configuration of the build.
    pub fn configuration(&self) -> (r: &Configuration)
        ensures
            *r == self.spec_conf(),
    {
        &self.conf
    }

    /// The step that stages the configured Nix configuration into the build
    /// root `build_root`: a copy of the configured file, or a write of the
    /// inline text; nothing when neither is configured.
    pub fn copy_nix_configuration(&self, build_root: &str) -> (r: Option<Action>)
        ensures
            match self.spec_conf().spec_nix_configuration_path() {
                Some(p) => r is Some && r->Some_0@ == (ActionView::CopyFile {
                    from: p,
                    to: joined(build_root@, "configuration.nix"@),
                }),
                None => match self.spec_conf().spec_nix_configuration() {
                    Some(c) => r is Some && r->Some_0@ == (ActionView::WriteFile {
                        path: joined(build_root@, "configuration.nix"@),
                        contents: c,
                    }),
                    None => r is None,
                },
            },
    {
        let target = join_path(build_root, "configuration.nix");
        match self.conf.nix_configuration_path() {
            Some(p) => Some(Action::CopyFile { from: p, to: target }),
            None => match self.conf.nix_configuration() {
                Some(c) => Some(Action::WriteFile { path: target, contents: c }),
                None => None,
            },
        }
    }

    /// The ordered steps of the build pipeline that runs inside the sandbox:
    /// fix name resolution, enable the edge repositories, install and
    /// configure Nix, add and refresh the package channel, install the image
    /// generator, and run it. Run them in order and abort on the first
    /// failure; the standard output of the last step names the image.
    pub fn run_build_process(&self) -> (r: Vec<(BuildStage, Action)>)
        ensures
            r@.len() == 10,
            build_plan_view(r@) == build_steps(
                self.spec_conf().spec_output_format(),
                self.spec_conf().spec_has_nix_configuration(),
            ),
    {
        let mut r: Vec<(BuildStage, Action)> = Vec::new();
        r.push((BuildStage::FixResolvConf, write_file("/etc/resolv.conf", "nameserver 8.8.8.8")));
        r.push((BuildStage::AddRepositories, enable_edge_repositories()));
        r.push((BuildStage::InstallNix, Action::Run(update_repositories())));
        let mut packages: Vec<String> = Vec::new();
        packages.push(owned("nix"));
        let add_nix = install_packages(&packages);
        assert(add_nix@.args =~= seq!["add"@, "nix"@]);
        r.push((BuildStage::InstallNix, Action::Run(add_nix)));
        r.push((BuildStage::InstallNix, write_file("/etc/nix/nix.conf", "build-users-group =")));
        r.push(
            (BuildStage::UpdateChannels, Action::Run(
                add_channel("https://nixos.org/channels/nixpkgs-unstable"),
            )),
        );
        let mut refresh = update_channels();
        let update = refresh.pop().unwrap();
        let remove = refresh.pop().unwrap();
        r.push((BuildStage::UpdateChannels, remove));
        r.push((BuildStage::UpdateChannels, update));
        let mut generators: Vec<String> = Vec::new();
        generators.push(owned("nixpkgs.nixos-generators"));
        let add_generators = install(&generators);
        assert(add_generators@.args =~= seq!["-iA"@, "nixpkgs.nixos-generators"@]);
        r.push((BuildStage::InstallGenerator, Action::Run(add_generators)));
        r.push((BuildStage::Generate, Action::Run(self.nixos_generate())));
        assert(build_plan_view(r@) =~= build_steps(
            self.spec_conf().spec_output_format(),
            self.spec_conf().spec_has_nix_configuration(),
        ));
        r
    }

    /// The command that generates the image in the configured format, with
    /// the staged Nix configuration when one is configured.
    pub fn nixos_generate(&self) -> (r: crate::plan::Command)
        ensures
            r@ == generate_command(
                self.spec_conf().spec_output_format(),
                self.spec_conf().spec_has_nix_configuration(),
            ),
    {
        let mut args: Vec<String> = Vec::new();
        args.push(owned("-f"));
        args.push(self.conf.output_format());
        if self.conf.has_nix_configuration() {
            args.push(owned("-c"));
            args.push(owned("/configuration.nix"));
        }
        let r = command("nixos-generate", args);
        assert(r@.args =~= generate_command(
            self.spec_conf().spec_output_format(),
            self.spec_conf().spec_has_nix_configuration(),
        ).args);
        r
    }

    /// Where to copy the image found at `image`: the configured output path,
    /// else the image's file name; nothing when neither exists.
    pub fn output_location(&self, image: &Vec<u8>) -> (r: Option<ImageDestination>)
        ensures
            match self.spec_conf().spec_output_path() {
                Some(p) => r is Some && r->Some_0@ == DestinationView::Configured(p),
                None => match file_name(image@) {
                    Some(n) => r is Some && r->Some_0@ == DestinationView::FileName(n),
                    None => r is None,
                },
            },
    {
        match self.conf.output_path() {
            Some(p) => Some(ImageDestination::Configured(p)),
            None => match path_file_name(image) {
                Some(n) => Some(ImageDestination::FileName(n)),
                None => None,
            },
        }
    }
}

} // verus!
