//! The effects a build asks of the system, and the sequencer that runs an
//! ordered list of them, halting on the first failure.
use vstd::prelude::*;
use crate::mount::{MountRecord, MountView};
use crate::text::owned;

verus! {

/// An external command and its arguments.
pub struct Command {
    pub program: String,
    pub args: Vec<String>,
}

/// The views of a list of strings.
pub open spec fn views(v: Seq<String>) -> Seq<Seq<char>> {
    v.map_values(|s: String| s@)
}

/// The mathematical content of a [`Command`].
pub struct CommandView {
    pub program: Seq<char>,
    pub args: Seq<Seq<char>>,
}

impl View for Command {
    type V = CommandView;

    open spec fn view(&self) -> CommandView {
        CommandView { program: self.program@, args: views(self.args@) }
    }
}

/// Copies a list of strings.
pub fn copy_strings(v: &Vec<String>) -> (r: Vec<String>)
    ensures
        views(r@) == views(v@),
{
    let mut r: Vec<String> = Vec::new();
    let mut i: usize = 0;
    while i < v.len()
        invariant
            i <= v@.len(),
            r@.len() == i,
            forall|j: int| 0 <= j < i ==> #[trigger] r@[j]@ == v@[j]@,
        decreases v@.len() - i,
    {
        r.push(owned(v[i].as_str()));
        i = i + 1;
    }
    assert(views(r@) =~= views(v@));
    r
}

/// `Command` of `program` with `args`.
pub fn command(program: &str, args: Vec<String>) -> (r: Command)
    ensures
        r.program@ == program@,
        r.args@ == args@,
{
    Command { program: owned(program), args }
}

/// One effect on the system.
pub enum Action {
    /// Enter new user, mount, pid, uts and ipc namespaces at once.
    Unshare,
    /// Create a directory and its missing parents.
    CreateDirAll(String),
    /// Perform a mount and keep its guard until the process ends.
    Mount(MountRecord),
    /// Change the working directory.
    ChangeDir(String),
    /// Make the working directory `/`, with the previous root under `put_old`.
    PivotRoot { new_root: String, put_old: String },
    /// Change the root directory.
    Chroot(String),
    /// Create or truncate a file and write these contents.
    WriteFile { path: String, contents: String },
    /// Copy the file `from` to `to`.
    CopyFile { from: String, to: String },
    /// Remove an empty directory.
    RemoveDir(String),
    /// Run an external command in the sandbox environment; it must exit successfully.
    Run(Command),
}

/// The mathematical content of an [`Action`].
pub enum ActionView {
    Unshare,
    CreateDirAll(Seq<char>),
    Mount(MountView),
    ChangeDir(Seq<char>),
    PivotRoot { new_root: Seq<char>, put_old: Seq<char> },
    Chroot(Seq<char>),
    WriteFile { path: Seq<char>, contents: Seq<char> },
    CopyFile { from: Seq<char>, to: Seq<char> },
    RemoveDir(Seq<char>),
    Run(CommandView),
}

impl View for Action {
    type V = ActionView;

    open spec fn view(&self) -> ActionView {
        match self {
            Action::Unshare => ActionView::Unshare,
            Action::CreateDirAll(p) => ActionView::CreateDirAll(p@),
            Action::Mount(m) => ActionView::Mount(m@),
            Action::ChangeDir(p) => ActionView::ChangeDir(p@),
            Action::PivotRoot { new_root, put_old } => ActionView::PivotRoot {
                new_root: new_root@,
                put_old: put_old@,
            },
            Action::Chroot(p) => ActionView::Chroot(p@),
            Action::WriteFile { path, contents } => ActionView::WriteFile {
                path: path@,
                contents: contents@,
            },
            Action::CopyFile { from, to } => ActionView::CopyFile { from: from@, to: to@ },
            Action::RemoveDir(p) => ActionView::RemoveDir(p@),
            Action::Run(c) => ActionView::Run(c@),
        }
    }
}

/// The action that writes `contents` to `path`.
pub fn write_file(path: &str, contents: &str) -> (r: Action)
    ensures
        r@ == (ActionView::WriteFile { path: path@, contents: contents@ }),
{
    Action::WriteFile { path: owned(path), contents: owned(contents) }
}

/// The report of a failed stage: its name and the underlying error.
pub fn stage_failure(stage: &str, error: &str) -> (r: String)
    ensures
        r@ == stage@ + ": "@ + error@,
{
    let mut r = owned(stage);
    r.append(": ");
    r.append(error);
    r
}

/// Runs the steps of an ordered list one after another, and stops at the
/// first one that fails.
pub struct Sequencer {
    total: usize,
    outcomes: Vec<bool>,
}

impl Sequencer {
    /// The number of steps in the list.
    pub closed spec fn spec_total(&self) -> nat {
        self.total as nat
    }

    /// The outcomes recorded so far, in order.
    pub closed spec fn spec_outcomes(&self) -> Seq<bool> {
        self.outcomes@
    }

    /// Every outcome but the last one recorded is a success, and no more
    /// outcomes than steps are recorded.
    pub open spec fn wf(&self) -> bool {
        &&& self.spec_outcomes().len() <= self.spec_total()
        &&& forall|i: int|
            0 <= i < self.spec_outcomes().len() - 1 ==> #[trigger] self.spec_outcomes()[i]
    }

    /// Whether a step has failed.
    pub open spec fn spec_failed(&self) -> bool {
        self.spec_outcomes().len() > 0 && !self.spec_outcomes().last()
    }

    /// The index of the step to run next, if any is left to run.
    pub open spec fn spec_next(&self) -> Option<nat> {
        if self.spec_failed() || self.spec_outcomes().len() == self.spec_total() {
            None
        } else {
            Some(self.spec_outcomes().len())
        }
    }

    /// A sequencer for a list of `total` steps, none run yet.
    pub fn new(total: usize) -> (r: Sequencer)
        ensures
            r.wf(),
            r.spec_total() == total,
            r.spec_outcomes() == Seq::<bool>::empty(),
    {
        Sequencer { total, outcomes: Vec::new() }
    }

    /// The index of the step to run next: none once a step has failed or all ran.
    pub fn next(&self) -> (r: Option<usize>)
        requires
            self.wf(),
        ensures
            match r {
                Some(i) => self.spec_next() == Some(i as nat),
                None => self.spec_next() is None,
            },
    {
        let n = self.outcomes.len();
        if (n > 0 && !self.outcomes[n - 1]) || n == self.total {
            None
        } else {
            Some(n)
        }
    }

    /// Records the outcome of the step that [`Sequencer::next`] named.
    pub fn record(&mut self, succeeded: bool)
        requires
            old(self).wf(),
            old(self).spec_next() is Some,
        ensures
            final(self).wf(),
            final(self).spec_total() == old(self).spec_total(),
            final(self).spec_outcomes() == old(self).spec_outcomes().push(succeeded),
    {
        self.outcomes.push(succeeded);
    }

    /// The index of the step that failed, if one did.
    pub fn failed_step(&self) -> (r: Option<usize>)
        requires
            self.wf(),
        ensures
            self.spec_failed() <==> r is Some,
            r is Some ==> r->Some_0 == self.spec_outcomes().len() - 1,
    {
        let n = self.outcomes.len();
        if n > 0 && !self.outcomes[n - 1] {
            Some(n - 1)
        } else {
            None
        }
    }

    /// Whether every step ran and succeeded.
    pub fn succeeded(&self) -> (r: bool)
        requires
            self.wf(),
        ensures
            r <==> (self.spec_outcomes().len() == self.spec_total() && !self.spec_failed()),
    {
        let n = self.outcomes.len();
        n == self.total && !(n > 0 && !self.outcomes[n - 1])
    }
}

/// A sequencer halts on the first failure: once a step failed, no further
/// step is named to run, and every step before the failed one succeeded.
pub proof fn lemma_halts_on_first_failure(s: Sequencer)
    requires
        s.wf(),
        s.spec_failed(),
    ensures
        s.spec_next() is None,
        forall|i: int| 0 <= i < s.spec_outcomes().len() - 1 ==> #[trigger] s.spec_outcomes()[i],
{
}

/// A sequencer whose recorded steps all succeeded names the next step in
/// order until every step ran.
pub proof fn lemma_runs_in_order(s: Sequencer)
    requires
        s.wf(),
        !s.spec_failed(),
        s.spec_outcomes().len() < s.spec_total(),
    ensures
        s.spec_next() == Some(s.spec_outcomes().len()),
{
}

} // verus!
