//! The step catalog: the fixed, ordered list of verification steps that a
//! full check run executes, with one position adapted to the availability
//! of the optional accelerated test runner.

use vstd::prelude::*;

use crate::executor::Diag;

verus! {

/// One external verification command: a human-readable display name and
/// the argument vector handed to the build tool.
pub struct Step {
    pub name: String,
    pub args: Vec<String>,
}

/// A step as a mathematical value: the name's characters and the argument
/// tokens' characters.
#[verifier::ext_equal]
pub ghost struct StepModel {
    pub name: Seq<char>,
    pub args: Seq<Seq<char>>,
}

impl View for Step {
    type V = StepModel;

    open spec fn view(&self) -> StepModel {
        StepModel { name: self.name@, args: self.args@.map_values(|a: String| a@) }
    }
}

/// The static-analysis step (lint configuration A): first in every run.
pub open spec fn lint_step() -> StepModel {
    StepModel {
        name: "clippy (std + rog_experimental)"@,
        args: seq![
            "clippy"@,
            "--all-targets"@,
            "--features"@,
            "std rog_experimental"@,
            "--"@,
            "-D"@,
            "clippy::all"@,
            "-A"@,
            "deprecated"@,
        ],
    }
}

/// The test-execution step in its accelerated-runner form, scoped to the
/// named package with all test targets.
pub open spec fn accelerated_test_step() -> StepModel {
    StepModel {
        name: "nextest -p range-set-blaze --all-targets"@,
        args: seq!["xtest"@],
    }
}

/// The test-execution step in its standard-runner fallback form, with the
/// same scope as the accelerated form.
pub open spec fn fallback_test_step() -> StepModel {
    StepModel {
        name: "test -p range-set-blaze --all-targets"@,
        args: seq!["test"@, "-p"@, "range-set-blaze"@, "--all-targets"@],
    }
}

/// The test-execution step variant selected by the availability flag.
pub open spec fn test_exec_step(accelerated: bool) -> StepModel {
    if accelerated {
        accelerated_test_step()
    } else {
        fallback_test_step()
    }
}

/// The release-mode full test step (no scoping).
pub open spec fn release_test_step() -> StepModel {
    StepModel { name: "test --release"@, args: seq!["test"@, "--release"@] }
}

/// The reduced-feature-set test step: only one named optional capability
/// enabled, default capabilities disabled.
pub open spec fn reduced_features_test_step() -> StepModel {
    StepModel {
        name: "test --no-default-features --features rog_experimental"@,
        args: seq!["test"@, "--no-default-features"@, "--features"@, "rog_experimental"@],
    }
}

/// The alternate-toolchain test step exercising two named optional
/// capabilities together.
pub open spec fn nightly_pair_test_step() -> StepModel {
    StepModel {
        name: "nightly test --features rog_experimental from_slice"@,
        args: seq!["+nightly"@, "test"@, "--features"@, "rog_experimental from_slice"@],
    }
}

/// The alternate-toolchain test step exercising the complete capability set.
pub open spec fn nightly_full_test_step() -> StepModel {
    StepModel {
        name: "nightly test --all-features"@,
        args: seq!["+nightly"@, "test"@, "--all-features"@],
    }
}

/// The canonical catalog for a run, given the availability flag: six steps
/// in fixed order, with only the second position varying.
pub open spec fn catalog_model(accelerated: bool) -> Seq<StepModel> {
    seq![
        lint_step(),
        test_exec_step(accelerated),
        release_test_step(),
        reduced_features_test_step(),
        nightly_pair_test_step(),
        nightly_full_test_step(),
    ]
}

/// An owned copy of one argument token.
fn tok(t: &str) -> (r: String)
    ensures
        r@ == t@,
{
    t.to_owned()
}

/// Assembles one step from its display name and argument vector.
fn make_step(name: &str, args: Vec<String>) -> (r: Step)
    ensures
        r@.name == name@,
        r@.args == args@.map_values(|a: String| a@),
{
    Step { name: name.to_owned(), args }
}

/// Builds the ordered step list for one full check run, adapting to the
/// availability of the accelerated test runner. Construction cannot fail:
/// unavailability is absorbed into step selection. Returned beside the
/// list are the diagnostic notes the builder emits — exactly one fallback
/// note when the accelerated runner is unavailable, none otherwise.
pub fn build_catalog(accelerated: bool) -> (r: (Vec<Step>, Vec<Diag>))
    ensures
        r.0@.map_values(|s: Step| s@) == catalog_model(accelerated),
        r.0@.len() == 6,
        r.0@.map_values(|s: Step| s@)[1] == test_exec_step(accelerated),
        r.1@.len() == (if accelerated { 0int } else { 1int }),
        !accelerated ==> r.1@ == seq![Diag::FallbackNote],
{
    let mut steps: Vec<Step> = Vec::new();
    let mut notes: Vec<Diag> = Vec::new();
    steps.push(make_step("clippy (std + rog_experimental)", vec![
        tok("clippy"),
        tok("--all-targets"),
        tok("--features"),
        tok("std rog_experimental"),
        tok("--"),
        tok("-D"),
        tok("clippy::all"),
        tok("-A"),
        tok("deprecated"),
    ]));
    if accelerated {
        steps.push(make_step("nextest -p range-set-blaze --all-targets", vec![tok("xtest")]));
    } else {
        notes.push(Diag::FallbackNote);
        steps.push(make_step("test -p range-set-blaze --all-targets", vec![
            tok("test"),
            tok("-p"),
            tok("range-set-blaze"),
            tok("--all-targets"),
        ]));
    }
    steps.push(make_step("test --release", vec![tok("test"), tok("--release")]));
    steps.push(make_step("test --no-default-features --features rog_experimental", vec![
        tok("test"),
        tok("--no-default-features"),
        tok("--features"),
        tok("rog_experimental"),
    ]));
    steps.push(make_step("nightly test --features rog_experimental from_slice", vec![
        tok("+nightly"),
        tok("test"),
        tok("--features"),
        tok("rog_experimental from_slice"),
    ]));
    steps.push(make_step("nightly test --all-features", vec![tok("+nightly"), tok("test"), tok("--all-features")]));
    proof {
        assert(steps@.map_values(|s: Step| s@) =~~= catalog_model(accelerated));
        if !accelerated {
            assert(notes@ =~= seq![Diag::FallbackNote]);
        }
    }
    (steps, notes)
}

} // verus!
