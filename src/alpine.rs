//! The Alpine base system: which release to fetch, how to check what was
//! fetched, and the package manager commands.
use vstd::prelude::*;
use sha2::Digest;
use crate::plan::{command, views, write_file, Action, ActionView, Command};
use crate::text::{decimal, owned, push_decimal};

verus! {

/// The failure of fetching or checking the base system, or of a package
/// manager command.
pub struct Error {
    pub error: String,
}

impl Error {
    /// An error with the given message.
    pub fn new(error: &str) -> (r: Error)
        ensures
            r.error@ == error@,
    {
        Error { error: owned(error) }
    }

    /// The message of the error.
    pub fn message(&self) -> (r: String)
        ensures
            r@ == self.error@,
    {
        owned(self.error.as_str())
    }
}

/// One release listed in the version file of the Alpine mirror.
pub struct ReleaseInfo {
    pub flavor: String,
    pub file: String,
    pub size: u64,
    pub sha512: String,
}

/// The flavor of the minimal root filesystem tarball.
pub open spec fn minirootfs() -> Seq<char> {
    "alpine-minirootfs"@
}

/// The mirror directory that holds the latest stable releases.
pub open spec fn releases_url() -> Seq<char> {
    "https://dl-cdn.alpinelinux.org/alpine/latest-stable/releases/"@
}

/// Chooses the releases to fetch and checks the fetched tarball.
pub struct BaseSystemDownloader {
    arch: String,
}

impl BaseSystemDownloader {
    /// The architecture whose releases are fetched.
    pub closed spec fn spec_arch(&self) -> Seq<char> {
        self.arch@
    }

    /// A downloader of the `x86_64` base system.
    pub fn new() -> (r: BaseSystemDownloader)
        ensures
            r.spec_arch() == "x86_64"@,
    {
        BaseSystemDownloader { arch: owned("x86_64") }
    }

    /// The address of the version file that lists the latest releases.
    pub fn version_file_url(&self) -> (r: String)
        ensures
            r@ == releases_url() + self.spec_arch() + "/latest-releases.yaml"@,
    {
        let mut r = owned("https://dl-cdn.alpinelinux.org/alpine/latest-stable/releases/");
        r.append(self.arch.as_str());
        r.append("/latest-releases.yaml");
        r
    }

    /// The address of the release file `file`.
    pub fn tarball_url(&self, file: &str) -> (r: String)
        ensures
            r@ == releases_url() + self.spec_arch() + "/"@ + file@,
    {
        let mut r = owned("https://dl-cdn.alpinelinux.org/alpine/latest-stable/releases/");
        r.append(self.arch.as_str());
        r.append("/");
        r.append(file);
        r
    }

    /// Checks a fetched tarball against its release: first its length, then
    /// its SHA-512 digest.
    pub fn verify(&self, release: &ReleaseInfo, tarball: &Vec<u8>) -> (r: Result<(), Error>)
        ensures
            r is Ok <==> (tarball@.len() == release.size && hex_lower(sha512_of(tarball@))
                == release.sha512@),
    {
        verify_tarball_size(tarball.len() as u64, release.size)?;
        verify_checksum(tarball, release.sha512.as_str())
    }
}

/// The index of the first release of the minimal root filesystem flavor.
pub open spec fn is_first_minirootfs(releases: Seq<ReleaseInfo>, i: int) -> bool {
    &&& 0 <= i < releases.len()
    &&& releases[i].flavor@ == minirootfs()
    &&& forall|j: int| 0 <= j < i ==> #[trigger] releases[j].flavor@ != minirootfs()
}

fn str_eq(a: &str, b: &str) -> (r: bool)
    ensures
        r == (a@ == b@),
{
    let n = a.unicode_len();
    if n != b.unicode_len() {
        return false;
    }
    let mut i: usize = 0;
    while i < n
        invariant
            n == a@.len() == b@.len(),
            i <= n,
            forall|j: int| 0 <= j < i ==> a@[j] == b@[j],
        decreases n - i,
    {
        if a.get_char(i) != b.get_char(i) {
            return false;
        }
        i = i + 1;
    }
    assert(a@ =~= b@);
    true
}

/// Picks the minimal root filesystem release out of the releases that the
/// version file lists: the first of that flavor.
pub fn find_minirootfs(releases: Vec<ReleaseInfo>) -> (r: Result<ReleaseInfo, Error>)
    ensures
        r is Ok <==> exists|i: int| is_first_minirootfs(releases@, i),
        r is Ok ==> exists|i: int| is_first_minirootfs(releases@, i) && r->Ok_0 == releases@[i],
        r is Err ==> r->Err_0.error@
            == "unable to find the `alpine-minirootfs` release in the version file"@,
{
    let mut list = releases;
    let n = list.len();
    let mut i: usize = 0;
    while i < n
        invariant
            n == releases@.len(),
            i <= n,
            list@ == releases@,
            forall|j: int| 0 <= j < i ==> #[trigger] releases@[j].flavor@ != minirootfs(),
        decreases n - i,
    {
        if str_eq(list[i].flavor.as_str(), "alpine-minirootfs") {
            let ghost k = i as int;
            assert(is_first_minirootfs(releases@, k));
            let rel = list.swap_remove(i);
            assert(rel == releases@[k]);
            return Ok(rel);
        }
        i = i + 1;
    }
    assert forall|k: int| !is_first_minirootfs(releases@, k) by {
        if 0 <= k < releases@.len() {
            assert(releases@[k].flavor@ != minirootfs());
        }
    }
    Err(Error::new("unable to find the `alpine-minirootfs` release in the version file"))
}

/// Checks the length of a download against the expected one.
pub fn verify_tarball_size(download_size: u64, expected_size: u64) -> (r: Result<(), Error>)
    ensures
        r is Ok <==> download_size == expected_size,
        r is Err ==> r->Err_0.error@ == "size mismatch: expected "@ + decimal(expected_size as nat)
            + ", but got "@ + decimal(download_size as nat),
{
    if download_size == expected_size {
        return Ok(());
    }
    let mut msg = owned("size mismatch: expected ");
    push_decimal(&mut msg, expected_size);
    msg.append(", but got ");
    push_decimal(&mut msg, download_size);
    Err(Error { error: msg })
}

/// The SHA-512 digest of `data`.
pub uninterp spec fn sha512_of(data: Seq<u8>) -> Seq<u8>;

/// Relies on sha2::Sha512 (through `Digest::digest`): the digest is a
/// function of the input bytes alone, and is 64 bytes long.
#[verifier::external_body]
fn sha512(data: &Vec<u8>) -> (r: Vec<u8>)
    ensures
        r@ == sha512_of(data@),
        r@.len() == 64,
{
    sha2::Sha512::digest(data.as_slice()).to_vec()
}

/// The lower-case hexadecimal digit for `d`.
pub open spec fn hex_digit(d: nat) -> char {
    if d < 10 {
        ((d + 48) as u8) as char
    } else {
        ((d + 87) as u8) as char
    }
}

/// The lower-case hexadecimal notation of `bytes`, two digits per byte.
pub open spec fn hex_lower(bytes: Seq<u8>) -> Seq<char>
    decreases bytes.len(),
{
    if bytes.len() == 0 {
        Seq::empty()
    } else {
        hex_lower(bytes.drop_last()) + seq![
            hex_digit(bytes.last() as nat / 16),
            hex_digit(bytes.last() as nat % 16),
        ]
    }
}

proof fn lemma_hex_lower_len(bytes: Seq<u8>)
    ensures
        hex_lower(bytes).len() == 2 * bytes.len(),
    decreases bytes.len(),
{
    if bytes.len() > 0 {
        lemma_hex_lower_len(bytes.drop_last());
    }
}

proof fn lemma_hex_lower_index(bytes: Seq<u8>, i: int)
    requires
        0 <= i < bytes.len(),
    ensures
        hex_lower(bytes)[2 * i] == hex_digit(bytes[i] as nat / 16),
        hex_lower(bytes)[2 * i + 1] == hex_digit(bytes[i] as nat % 16),
    decreases bytes.len(),
{
    lemma_hex_lower_len(bytes.drop_last());
    if i < bytes.len() - 1 {
        lemma_hex_lower_index(bytes.drop_last(), i);
    }
}

fn hex_digit_byte(d: u8) -> (r: u8)
    requires
        d < 16,
    ensures
        r as char == hex_digit(d as nat),
{
    if d < 10 {
        d + 48
    } else {
        d + 87
    }
}

/// Whether `text` is the lower-case hexadecimal notation of `digest`.
pub fn hex_matches(digest: &Vec<u8>, text: &str) -> (r: bool)
    ensures
        r == (hex_lower(digest@) == text@),
{
    proof {
        lemma_hex_lower_len(digest@);
    }
    let n = text.unicode_len();
    if n / 2 != digest.len() || n % 2 != 0 {
        return false;
    }
    let mut i: usize = 0;
    while i < digest.len()
        invariant
            n == text@.len() == 2 * digest@.len(),
            i <= digest@.len(),
            forall|j: int| 0 <= j < 2 * i ==> hex_lower(digest@)[j] == text@[j],
        decreases digest@.len() - i,
    {
        proof {
            lemma_hex_lower_index(digest@, i as int);
        }
        let b = digest[i];
        let hi = hex_digit_byte(b / 16);
        let lo = hex_digit_byte(b % 16);
        if text.get_char(2 * i) != hi as char || text.get_char(2 * i + 1) != lo as char {
            return false;
        }
        i = i + 1;
    }
    assert(hex_lower(digest@) =~= text@);
    true
}

/// Checks a digest against the expected lower-case hexadecimal checksum.
pub fn verify_checksum_digest(digest: &Vec<u8>, expected: &str) -> (r: Result<(), Error>)
    ensures
        r is Ok <==> hex_lower(digest@) == expected@,
        r is Err ==> r->Err_0.error@ == "SHA-512 checksum doesn't match the expected `"@ + expected@
            + "`"@,
{
    if hex_matches(digest, expected) {
        Ok(())
    } else {
        let mut msg = owned("SHA-512 checksum doesn't match the expected `");
        msg.append(expected);
        msg.append("`");
        Err(Error { error: msg })
    }
}

/// Checks the SHA-512 digest of `data` against the expected lower-case
/// hexadecimal checksum.
pub fn verify_checksum(data: &Vec<u8>, expected: &str) -> (r: Result<(), Error>)
    ensures
        r is Ok <==> hex_lower(sha512_of(data@)) == expected@,
        r is Err ==> r->Err_0.error@ == "SHA-512 checksum doesn't match the expected `"@ + expected@
            + "`"@,
{
    let digest = sha512(data);
    verify_checksum_digest(&digest, expected)
}

/// The repositories file of the package manager.
pub open spec fn repositories_path() -> Seq<char> {
    "/etc/apk/repositories"@
}

/// The main, community and testing repositories of the edge branch, one per line.
pub open spec fn edge_repositories() -> Seq<char> {
    "https://dl-cdn.alpinelinux.org/alpine/edge/main/\nhttps://dl-cdn.alpinelinux.org/alpine/edge/community/\nhttps://dl-cdn.alpinelinux.org/alpine/edge/testing/\n"@
}

/// The write that makes the package manager use the edge repositories.
pub fn enable_edge_repositories() -> (r: Action)
    ensures
        r@ == (ActionView::WriteFile { path: repositories_path(), contents: edge_repositories() }),
{
    write_file(
        "/etc/apk/repositories",
        "https://dl-cdn.alpinelinux.org/alpine/edge/main/\nhttps://dl-cdn.alpinelinux.org/alpine/edge/community/\nhttps://dl-cdn.alpinelinux.org/alpine/edge/testing/\n",
    )
}

/// The package manager command with the given arguments.
pub fn run_apk(args: Vec<String>) -> (r: Command)
    ensures
        r.program@ == "apk"@,
        r.args@ == args@,
{
    command("apk", args)
}

/// The command that refreshes the package index.
pub fn update_repositories() -> (r: Command)
    ensures
        r@.program == "apk"@,
        r@.args == seq!["update"@],
{
    let mut args: Vec<String> = Vec::new();
    args.push(owned("update"));
    let r = run_apk(args);
    assert(r@.args =~= seq!["update"@]);
    r
}

/// The command that installs `packages`.
pub fn install_packages(packages: &Vec<String>) -> (r: Command)
    ensures
        r@.program == "apk"@,
        r@.args == seq!["add"@] + views(packages@),
{
    let mut args: Vec<String> = Vec::new();
    args.push(owned("add"));
    let mut i: usize = 0;
    while i < packages.len()
        invariant
            i <= packages@.len(),
            args@.len() == i + 1,
            args@[0]@ == "add"@,
            forall|j: int| 0 <= j < i ==> #[trigger] args@[j + 1]@ == packages@[j]@,
        decreases packages@.len() - i,
    {
        args.push(owned(packages[i].as_str()));
        i = i + 1;
    }
    assert forall|k: int| 1 <= k < args@.len() implies args@[k]@ == packages@[k - 1]@ by {
        assert(args@[(k - 1) + 1]@ == packages@[k - 1]@);
    }
    let r = run_apk(args);
    assert(r@.args =~= seq!["add"@] + views(packages@));
    r
}

} // verus!
