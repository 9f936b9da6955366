use tracing_usdt::pipeline::{output_name, BuildStep, Pipeline, PipelineAction};

#[test]
fn four_steps_in_order() {
    let mut p = Pipeline::new(false);
    assert_eq!(p.action(), PipelineAction::Run(BuildStep::GenerateHeader));
    assert_eq!(p.report(true, true), PipelineAction::Run(BuildStep::CompileWrapper));
    assert_eq!(p.report(true, true), PipelineAction::Run(BuildStep::LinkProviderObject));
    assert_eq!(p.report(true, true), PipelineAction::Run(BuildStep::LinkShared));
    assert_eq!(p.report(true, true), PipelineAction::Finished);
}

#[test]
fn folded_platform_skips_provider_link() {
    let mut p = Pipeline::new(true);
    assert_eq!(p.report(true, true), PipelineAction::Run(BuildStep::CompileWrapper));
    assert_eq!(p.report(true, true), PipelineAction::Run(BuildStep::LinkShared));
    assert_eq!(p.report(true, true), PipelineAction::Finished);
}

#[test]
fn failure_is_final() {
    let mut p = Pipeline::new(false);
    assert_eq!(p.report(true, true), PipelineAction::Run(BuildStep::CompileWrapper));
    assert_eq!(p.report(true, false), PipelineAction::Abort(BuildStep::CompileWrapper));
    assert_eq!(p.action(), PipelineAction::Abort(BuildStep::CompileWrapper));
    let mut q = Pipeline::new(false);
    assert_eq!(q.report(false, true), PipelineAction::Abort(BuildStep::GenerateHeader));
}

#[test]
fn step_outputs() {
    assert_eq!(output_name(BuildStep::GenerateHeader), "provider.h");
    assert_eq!(output_name(BuildStep::LinkShared), "librustracing.so");
}

#[test]
fn planned_steps_follow_the_platform() {
    assert_eq!(Pipeline::new(true).planned_steps(), vec![BuildStep::GenerateHeader, BuildStep::CompileWrapper, BuildStep::LinkShared]);
    assert_eq!(Pipeline::new(false).planned_steps().len(), 4);
}
