//! The commands of the build tool that the application offers, each with the
//! arguments that it is run with.

use vstd::prelude::*;
use crate::seqs::lemma_deep_vec;

verus! {

broadcast use lemma_deep_vec;

/// A command of the build tool.
#[derive(Debug, Clone, Copy, PartialEq, Eq, Structural)]
pub enum CargoTask {
    /// Check the formatting.
    FmtCheck,
    /// Lint, taking warnings as errors.
    Clippy,
    Test,
    /// Build, in release mode or not.
    Build { release: bool },
    Check,
    /// Generate the documents of the project alone.
    Doc,
    Update,
    /// Run, in release mode or not.
    Run { release: bool },
    Bench,
    Tree,
}

/// The name of the command.
pub open spec fn task_command(task: CargoTask) -> Seq<char> {
    match task {
        CargoTask::FmtCheck => "fmt"@,
        CargoTask::Clippy => "clippy"@,
        CargoTask::Test => "test"@,
        CargoTask::Build { .. } => "build"@,
        CargoTask::Check => "check"@,
        CargoTask::Doc => "doc"@,
        CargoTask::Update => "update"@,
        CargoTask::Run { .. } => "run"@,
        CargoTask::Bench => "bench"@,
        CargoTask::Tree => "tree"@,
    }
}

/// The arguments that follow the name of the command.
pub open spec fn task_arguments(task: CargoTask) -> Seq<Seq<char>> {
    match task {
        CargoTask::FmtCheck => seq!["--"@, "--check"@],
        CargoTask::Clippy => seq!["--"@, "-D"@, "warnings"@],
        CargoTask::Build { release } => if release {
            seq!["--release"@]
        } else {
            Seq::empty()
        },
        CargoTask::Run { release } => if release {
            seq!["--release"@]
        } else {
            Seq::empty()
        },
        CargoTask::Doc => seq!["--no-deps"@],
        _ => Seq::empty(),
    }
}

/// The name of the command.
pub fn command_of(task: CargoTask) -> (r: String)
    ensures
        r@ == task_command(task),
{
    match task {
        CargoTask::FmtCheck => "fmt".to_owned(),
        CargoTask::Clippy => "clippy".to_owned(),
        CargoTask::Test => "test".to_owned(),
        CargoTask::Build { .. } => "build".to_owned(),
        CargoTask::Check => "check".to_owned(),
        CargoTask::Doc => "doc".to_owned(),
        CargoTask::Update => "update".to_owned(),
        CargoTask::Run { .. } => "run".to_owned(),
        CargoTask::Bench => "bench".to_owned(),
        CargoTask::Tree => "tree".to_owned(),
    }
}

/// The arguments that follow the name of the command.
pub fn arguments_of(task: CargoTask) -> (r: Vec<String>)
    ensures
        r.deep_view() == task_arguments(task),
{
    let mut args: Vec<String> = Vec::new();
    match task {
        CargoTask::FmtCheck => {
            args.push("--".to_owned());
            args.push("--check".to_owned());
            assert(args.deep_view() =~= seq!["--"@, "--check"@]);
        },
        CargoTask::Clippy => {
            args.push("--".to_owned());
            args.push("-D".to_owned());
            args.push("warnings".to_owned());
            assert(args.deep_view() =~= seq!["--"@, "-D"@, "warnings"@]);
        },
        CargoTask::Build { release } => {
            if release {
                args.push("--release".to_owned());
                assert(args.deep_view() =~= seq!["--release"@]);
            } else {
                assert(args.deep_view() =~= Seq::<Seq<char>>::empty());
            }
        },
        CargoTask::Run { release } => {
            if release {
                args.push("--release".to_owned());
                assert(args.deep_view() =~= seq!["--release"@]);
            } else {
                assert(args.deep_view() =~= Seq::<Seq<char>>::empty());
            }
        },
        CargoTask::Doc => {
            args.push("--no-deps".to_owned());
            assert(args.deep_view() =~= seq!["--no-deps"@]);
        },
        _ => {
            assert(args.deep_view() =~= Seq::<Seq<char>>::empty());
        },
    }
    args
}

} // verus!
