//! The command line surface: argument parsing and the exit codes that
//! classify a failure.
use vstd::prelude::*;
use crate::text::{decimal, owned, push_decimal};

verus! {

/// The class of a failure, each with its own exit status.
#[derive(PartialEq, Eq, Structural, Clone, Copy, Debug)]
pub enum ErrorCode {
    /// The command line was not one configuration path.
    CommandLineParserError,
    /// The configuration could not be read, parsed or validated.
    ConfigurationLoaderError,
    /// The program could not be set up (the HTTP client).
    InitializationError,
    /// The build failed.
    RuntimeError,
}

/// The exit status of a failure class.
pub open spec fn code_value(c: ErrorCode) -> i32 {
    match c {
        ErrorCode::CommandLineParserError => 1,
        ErrorCode::ConfigurationLoaderError => 2,
        ErrorCode::InitializationError => 3,
        ErrorCode::RuntimeError => 4,
    }
}

impl ErrorCode {
    /// The exit status of the program for this failure class.
    pub fn value(&self) -> (r: i32)
        ensures
            r == code_value(*self),
    {
        match self {
            ErrorCode::CommandLineParserError => 1,
            ErrorCode::ConfigurationLoaderError => 2,
            ErrorCode::InitializationError => 3,
            ErrorCode::RuntimeError => 4,
        }
    }
}

/// A failure of the program: its class and a message.
pub struct Error {
    message: String,
    code: ErrorCode,
}

impl Error {
    /// The message of the error.
    pub closed spec fn spec_message(&self) -> Seq<char> {
        self.message@
    }

    /// The class of the error.
    pub closed spec fn spec_code(&self) -> ErrorCode {
        self.code
    }

    /// An error of class `code` with `message`.
    pub fn new(code: ErrorCode, message: &str) -> (r: Error)
        ensures
            r.spec_code() == code,
            r.spec_message() == message@,
    {
        Error { message: owned(message), code }
    }

    /// The class of the error.
    pub fn code(&self) -> (r: ErrorCode)
        ensures
            r == self.spec_code(),
    {
        self.code
    }

    /// The report of the error: its message and, in parentheses, its exit status.
    pub fn to_text(&self) -> (r: String)
        ensures
            r@ == self.spec_message() + " ("@ + decimal(code_value(self.spec_code()) as nat) + ")"@,
    {
        let mut r = owned(self.message.as_str());
        r.append(" (");
        push_decimal(&mut r, self.code.value() as u64);
        r.append(")");
        r
    }
}

/// The phases of a build, in the order the program runs them.
#[derive(PartialEq, Eq, Structural, Clone, Copy, Debug)]
pub enum BuildPhase {
    /// Create the ephemeral build root.
    CreateRoot,
    /// Copy or write the Nix configuration into the build root.
    StageConfiguration,
    /// Fetch and check the base system tarball.
    DownloadBaseSystem,
    /// Unpack the base system into the build root.
    ExtractBaseSystem,
    /// Enter the sandbox in a forked child and run the build pipeline there.
    IsolatedBuild,
    /// Copy the image out of the build root.
    PullImage,
}

/// The phases of a build, in order.
pub open spec fn phase_order() -> Seq<BuildPhase> {
    seq![
        BuildPhase::CreateRoot,
        BuildPhase::StageConfiguration,
        BuildPhase::DownloadBaseSystem,
        BuildPhase::ExtractBaseSystem,
        BuildPhase::IsolatedBuild,
        BuildPhase::PullImage,
    ]
}

/// The phases of a build, in the order they run; the first failure aborts
/// the ones after it.
pub fn build_phases() -> (r: Vec<BuildPhase>)
    ensures
        r@ == phase_order(),
{
    let r = vec![
        BuildPhase::CreateRoot,
        BuildPhase::StageConfiguration,
        BuildPhase::DownloadBaseSystem,
        BuildPhase::ExtractBaseSystem,
        BuildPhase::IsolatedBuild,
        BuildPhase::PullImage,
    ];
    assert(r@ =~= phase_order());
    r
}

/// The progress text of a build phase.
pub open spec fn phase_name(p: BuildPhase) -> Seq<char> {
    match p {
        BuildPhase::CreateRoot => "Creating a temporary root directory"@,
        BuildPhase::StageConfiguration => "Creating a Nix build configuration file"@,
        BuildPhase::DownloadBaseSystem => "Downloading base system tarball"@,
        BuildPhase::ExtractBaseSystem => "Extracting base system tarball"@,
        BuildPhase::IsolatedBuild => "Building the image in the isolated namespace"@,
        BuildPhase::PullImage => "Pulling the resulting image from the temporary root"@,
    }
}

impl BuildPhase {
    /// What the phase does, for progress and error reports.
    pub fn name(&self) -> (r: String)
        ensures
            r@ == phase_name(*self),
    {
        match self {
            BuildPhase::CreateRoot => owned("Creating a temporary root directory"),
            BuildPhase::StageConfiguration => owned("Creating a Nix build configuration file"),
            BuildPhase::DownloadBaseSystem => owned("Downloading base system tarball"),
            BuildPhase::ExtractBaseSystem => owned("Extracting base system tarball"),
            BuildPhase::IsolatedBuild => owned("Building the image in the isolated namespace"),
            BuildPhase::PullImage => owned("Pulling the resulting image from the temporary root"),
        }
    }
}

/// Reads the command line: the program name and exactly one argument, the
/// path of the configuration file.
pub fn parse_arguments(args: &Vec<String>) -> (r: Result<String, Error>)
    ensures
        r is Ok <==> args@.len() == 2,
        r is Ok ==> r->Ok_0@ == args@[1]@,
        r is Err ==> r->Err_0.spec_code() == ErrorCode::CommandLineParserError,
{
    if args.len() != 2 {
        return Err(
            Error::new(ErrorCode::CommandLineParserError, "Failed to parse command line arguments."),
        );
    }
    Ok(owned(args[1].as_str()))
}

} // verus!
