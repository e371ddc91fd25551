//! Steps: the ordered units of work inside a job.

use vstd::prelude::*;

verus! {

/// Which toolchains and components a toolchain-setup step installs.
#[derive(Debug, Clone, Copy, PartialEq, Eq, Structural)]
pub struct Toolchain {
    pub stable: bool,
    pub nightly: bool,
    pub clippy: bool,
    pub fmt: bool,
}

impl Toolchain {
    /// A setup that installs nothing yet.
    pub fn new() -> (r: Toolchain)
        ensures
            r == (Toolchain { stable: false, nightly: false, clippy: false, fmt: false }),
    {
        Toolchain { stable: false, nightly: false, clippy: false, fmt: false }
    }

    pub fn add_stable(self) -> (r: Toolchain)
        ensures
            r == (Toolchain { stable: true, ..self }),
    {
        Toolchain { stable: true, ..self }
    }

    pub fn add_nightly(self) -> (r: Toolchain)
        ensures
            r == (Toolchain { nightly: true, ..self }),
    {
        Toolchain { nightly: true, ..self }
    }

    /// Adds the lint tool.
    pub fn add_clippy(self) -> (r: Toolchain)
        ensures
            r == (Toolchain { clippy: true, ..self }),
    {
        Toolchain { clippy: true, ..self }
    }

    /// Adds the formatter.
    pub fn add_fmt(self) -> (r: Toolchain)
        ensures
            r == (Toolchain { fmt: true, ..self }),
    {
        Toolchain { fmt: true, ..self }
    }
}

/// A subcommand of the build tool.
#[derive(Debug, Clone, Copy, PartialEq, Eq, Structural)]
pub enum CargoCommand {
    Test,
    Fmt,
    Clippy,
    Bench,
}

/// What the release action is asked to do.
#[derive(Debug, Clone, Copy, PartialEq, Eq, Structural)]
pub enum ReleaseCommand {
    /// Publish what is ready.
    Release,
    /// Open or update the release pull request.
    ReleasePr,
}

/// A build-tool invocation: `cargo [+nightly] <command> <args>`.
#[derive(Debug, Clone, PartialEq, Eq)]
pub struct CargoStep {
    pub command: CargoCommand,
    pub name: String,
    pub args: String,
    pub nightly: bool,
}

#[derive(Debug, Clone, PartialEq, Eq)]
pub enum Step {
    /// Check out the repository's source.
    Checkout,
    /// Set up the Rust toolchain.
    Toolchain(Toolchain),
    /// Run the build tool.
    Cargo(CargoStep),
    /// Run shell commands, in order.
    Run(Vec<String>),
    /// Run the release action.
    Release(ReleaseCommand),
}

/// The mathematical value of a [`Step`].
pub enum StepView {
    Checkout,
    Toolchain(Toolchain),
    Cargo { command: CargoCommand, name: Seq<char>, args: Seq<char>, nightly: bool },
    Run(Seq<Seq<char>>),
    Release(ReleaseCommand),
}

/// The views of a list of strings.
pub open spec fn strings_view(v: Seq<String>) -> Seq<Seq<char>> {
    v.map_values(|s: String| s@)
}

impl View for Step {
    type V = StepView;

    open spec fn view(&self) -> StepView {
        match self {
            Step::Checkout => StepView::Checkout,
            Step::Toolchain(t) => StepView::Toolchain(*t),
            Step::Cargo(c) => StepView::Cargo {
                command: c.command,
                name: c.name@,
                args: c.args@,
                nightly: c.nightly,
            },
            Step::Run(cmds) => StepView::Run(strings_view(cmds@)),
            Step::Release(r) => StepView::Release(*r),
        }
    }
}

/// The views of a list of steps.
pub open spec fn steps_view(v: Seq<Step>) -> Seq<StepView> {
    v.map_values(|s: Step| s@)
}

impl Step {
    pub fn checkout() -> (r: Step)
        ensures
            r@ == StepView::Checkout,
    {
        Step::Checkout
    }

    pub fn toolchain(t: Toolchain) -> (r: Step)
        ensures
            r@ == StepView::Toolchain(t),
    {
        Step::Toolchain(t)
    }

    /// `cargo <command> <args>` under a display name, on the nightly
    /// toolchain when `nightly` holds. The arguments are passed on as they
    /// are.
    pub fn cargo(command: CargoCommand, name: &str, args: &str, nightly: bool) -> (r: Step)
        ensures
            r@ == (StepView::Cargo { command, name: name@, args: args@, nightly }),
    {
        Step::Cargo(CargoStep { command, name: name.to_owned(), args: args.to_owned(), nightly })
    }

    /// Shell commands, run in the order given.
    pub fn run(commands: Vec<String>) -> (r: Step)
        ensures
            r@ == StepView::Run(strings_view(commands@)),
    {
        Step::Run(commands)
    }

    pub fn release(command: ReleaseCommand) -> (r: Step)
        ensures
            r@ == StepView::Release(command),
    {
        Step::Release(command)
    }
}

} // verus!
