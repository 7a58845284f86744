use voicebridge::piper::{judge_step, plan_setup, ErrSetupPiper, PiperStep};

#[test]
fn fresh_machine_runs_every_step() {
    let plan = plan_setup(false, false);
    assert_eq!(plan, vec![
        PiperStep::CreateEnv,
        PiperStep::InstallDeps,
        PiperStep::DownloadModel,
        PiperStep::StartServer,
    ]);
}

#[test]
fn existing_environment_and_model_are_reused() {
    let plan = plan_setup(true, true);
    assert_eq!(plan, vec![PiperStep::InstallDeps, PiperStep::StartServer]);
}

#[test]
fn only_the_model_is_fetched_when_missing() {
    let plan = plan_setup(true, false);
    assert_eq!(plan, vec![
        PiperStep::InstallDeps,
        PiperStep::DownloadModel,
        PiperStep::StartServer,
    ]);
}

#[test]
fn successful_steps_let_the_setup_go_on() {
    assert!(judge_step(PiperStep::CreateEnv, true).is_ok());
    assert!(judge_step(PiperStep::InstallDeps, true).is_ok());
    assert!(judge_step(PiperStep::DownloadModel, true).is_ok());
}

#[test]
fn each_failed_step_owns_its_error() {
    assert!(matches!(
        judge_step(PiperStep::CreateEnv, false),
        Err(ErrSetupPiper::CouldNotCreateEnv)
    ));
    assert!(matches!(
        judge_step(PiperStep::InstallDeps, false),
        Err(ErrSetupPiper::CouldNotInstallDeps)
    ));
    assert!(matches!(
        judge_step(PiperStep::DownloadModel, false),
        Err(ErrSetupPiper::CouldNotDownloadModel)
    ));
}

#[test]
fn failures_describe_themselves() {
    assert_eq!(
        ErrSetupPiper::CouldNotCreateEnv.describe(),
        "Could not create python virtual environment for piper"
    );
    assert_eq!(
        ErrSetupPiper::CouldNotInstallDeps.describe(),
        "Could not install python dependencies"
    );
    assert_eq!(
        ErrSetupPiper::CouldNotDownloadModel.describe(),
        "Could not download piper model!"
    );
}
