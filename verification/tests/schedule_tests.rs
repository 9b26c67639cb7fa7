use dip::config::BundleConfigPlugin;
use dip::dotfiles::DotfilesPlugin;
use dip::nodejs::NodeJSPlugin;
use dip::schedule::{
    dispatch_plan, needs_setup, report_outcomes, stage_of, BundlerId, Invocation, Stage, Trigger,
};

fn registered() -> Vec<BundlerId> {
    vec![
        BundleConfigPlugin::bundler_id(),
        NodeJSPlugin::bundler_id(),
        DotfilesPlugin::bundler_id(),
    ]
}

#[test]
fn triggers_select_their_stage() {
    assert_eq!(stage_of(Trigger::Apply), Stage::Apply);
    assert_eq!(stage_of(Trigger::Clean), Stage::Clean);
}

#[test]
fn only_the_config_bundler_needs_setup() {
    assert!(needs_setup(BundlerId::Config));
    assert!(!needs_setup(BundlerId::Dotfiles));
    assert!(!needs_setup(BundlerId::NodeJS));
}

#[test]
fn apply_plan_runs_setup_first_then_every_bundler_in_order() {
    let plan = dispatch_plan(Trigger::Apply, &registered());
    assert_eq!(
        plan,
        vec![
            Invocation { bundler: BundlerId::Config, stage: Stage::Setup },
            Invocation { bundler: BundlerId::Config, stage: Stage::Apply },
            Invocation { bundler: BundlerId::NodeJS, stage: Stage::Apply },
            Invocation { bundler: BundlerId::Dotfiles, stage: Stage::Apply },
        ]
    );
}

#[test]
fn clean_plan_keeps_registration_order() {
    let plan = dispatch_plan(Trigger::Clean, &vec![BundlerId::Dotfiles, BundlerId::NodeJS]);
    assert_eq!(
        plan,
        vec![
            Invocation { bundler: BundlerId::Dotfiles, stage: Stage::Clean },
            Invocation { bundler: BundlerId::NodeJS, stage: Stage::Clean },
        ]
    );
}

#[test]
fn a_failing_installer_does_not_unseat_the_dotfiles_apply() {
    // The runtime installer is dispatched before the dotfiles engine; a
    // simulated download failure for it changes nothing about the plan,
    // and the report still counts both bundlers' operations.
    let plan = dispatch_plan(Trigger::Apply, &vec![BundlerId::NodeJS, BundlerId::Dotfiles]);
    assert_eq!(plan[0], Invocation { bundler: BundlerId::NodeJS, stage: Stage::Apply });
    assert_eq!(plan[1], Invocation { bundler: BundlerId::Dotfiles, stage: Stage::Apply });

    // The installer's download fails; the dotfiles apply still ran.
    let outcomes = vec![false, true];
    let report = report_outcomes(&outcomes);
    assert_eq!(report.attempted, 2);
    assert_eq!(report.succeeded, 1);
}

#[test]
fn report_counts_every_outcome() {
    let report = report_outcomes(&vec![true, false, true, false, false]);
    assert_eq!(report.attempted, 5);
    assert_eq!(report.succeeded, 2);
    let empty = report_outcomes(&vec![]);
    assert_eq!(empty.attempted, 0);
    assert_eq!(empty.succeeded, 0);
}
