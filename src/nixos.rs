//! The Nix commands: channels and package installation.
use vstd::prelude::*;
use crate::plan::{command, views, Action, ActionView, Command, CommandView};
use crate::text::owned;

verus! {

/// The failure of a Nix command.
pub struct Error {
    pub message: String,
}

impl Error {
    /// An error with the given message.
    pub fn new(message: &str) -> (r: Error)
        ensures
            r.message@ == message@,
    {
        Error { message: owned(message) }
    }

    /// The message of the error.
    pub fn message(&self) -> (r: String)
        ensures
            r@ == self.message@,
    {
        owned(self.message.as_str())
    }
}

/// The command that subscribes to `channel`.
pub fn add_channel(channel: &str) -> (r: Command)
    ensures
        r@ == (CommandView { program: "nix-channel"@, args: seq!["--add"@, channel@] }),
{
    let mut args: Vec<String> = Vec::new();
    args.push(owned("--add"));
    args.push(owned(channel));
    let r = command("nix-channel", args);
    assert(r@.args =~= seq!["--add"@, channel@]);
    r
}

/// The profile directory that must be removed before the first channel update.
pub open spec fn default_profile() -> Seq<char> {
    "/nix/var/nix/profiles/default"@
}

/// The steps that refresh the channels: remove the default profile
/// directory, then update the channels.
pub fn update_channels() -> (r: Vec<Action>)
    ensures
        r@.len() == 2,
        r@[0]@ == ActionView::RemoveDir(default_profile()),
        r@[1]@ == ActionView::Run(CommandView { program: "nix-channel"@, args: seq!["--update"@] }),
{
    let mut args: Vec<String> = Vec::new();
    args.push(owned("--update"));
    let c = command("nix-channel", args);
    assert(c@.args =~= seq!["--update"@]);
    let mut r: Vec<Action> = Vec::new();
    r.push(Action::RemoveDir(owned("/nix/var/nix/profiles/default")));
    r.push(Action::Run(c));
    r
}

/// The command that installs the attribute paths `packages`.
pub fn install(packages: &Vec<String>) -> (r: Command)
    ensures
        r@.program == "nix-env"@,
        r@.args == seq!["-iA"@] + views(packages@),
{
    let mut args: Vec<String> = Vec::new();
    args.push(owned("-iA"));
    let mut i: usize = 0;
    while i < packages.len()
        invariant
            i <= packages@.len(),
            args@.len() == i + 1,
            args@[0]@ == "-iA"@,
            forall|j: int| 0 <= j < i ==> #[trigger] args@[j + 1]@ == packages@[j]@,
        decreases packages@.len() - i,
    {
        args.push(owned(packages[i].as_str()));
        i = i + 1;
    }
    assert forall|k: int| 1 <= k < args@.len() implies args@[k]@ == packages@[k - 1]@ by {
        assert(args@[(k - 1) + 1]@ == packages@[k - 1]@);
    }
    let r = command("nix-env", args);
    assert(r@.args =~= seq!["-iA"@] + views(packages@));
    r
}

} // verus!
