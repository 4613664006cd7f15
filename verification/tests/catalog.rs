use xtask::catalog::build_catalog;
use xtask::executor::Diag;

#[test]
fn catalog_has_six_steps_in_fixed_order() {
    let (steps, _notes) = build_catalog(true);
    assert_eq!(steps.len(), 6);
    assert_eq!(steps[0].name, "clippy (std + rog_experimental)");
    assert_eq!(
        steps[0].args,
        vec![
            "clippy",
            "--all-targets",
            "--features",
            "std rog_experimental",
            "--",
            "-D",
            "clippy::all",
            "-A",
            "deprecated",
        ]
    );
    assert_eq!(steps[2].name, "test --release");
    assert_eq!(steps[2].args, vec!["test", "--release"]);
    assert_eq!(
        steps[3].name,
        "test --no-default-features --features rog_experimental"
    );
    assert_eq!(
        steps[3].args,
        vec!["test", "--no-default-features", "--features", "rog_experimental"]
    );
    assert_eq!(
        steps[4].name,
        "nightly test --features rog_experimental from_slice"
    );
    assert_eq!(
        steps[4].args,
        vec!["+nightly", "test", "--features", "rog_experimental from_slice"]
    );
    assert_eq!(steps[5].name, "nightly test --all-features");
    assert_eq!(steps[5].args, vec!["+nightly", "test", "--all-features"]);
}

#[test]
fn accelerated_runner_takes_second_position() {
    let (steps, notes) = build_catalog(true);
    assert_eq!(steps[1].name, "nextest -p range-set-blaze --all-targets");
    assert_eq!(steps[1].args, vec!["xtest"]);
    assert_eq!(notes.len(), 0);
}

#[test]
fn fallback_takes_second_position_with_one_note() {
    let (steps, notes) = build_catalog(false);
    assert_eq!(steps[1].name, "test -p range-set-blaze --all-targets");
    assert_eq!(
        steps[1].args,
        vec!["test", "-p", "range-set-blaze", "--all-targets"]
    );
    assert_eq!(notes, vec![Diag::FallbackNote]);
}

#[test]
fn only_second_position_varies_with_the_flag() {
    let (with_tool, _) = build_catalog(true);
    let (without_tool, _) = build_catalog(false);
    assert_eq!(with_tool.len(), without_tool.len());
    for i in [0usize, 2, 3, 4, 5] {
        assert_eq!(with_tool[i].name, without_tool[i].name);
        assert_eq!(with_tool[i].args, without_tool[i].args);
    }
    assert_ne!(with_tool[1].name, without_tool[1].name);
}
