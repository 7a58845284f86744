//! Setup decisions for the speech-synthesis service.
//!
//! The synthesis voice runs as a managed external process. Bringing it
//! up is a fixed sequence of steps — create the interpreter
//! environment if it is missing, install the dependencies, fetch the
//! voice model if it is missing, start the server — and each step
//! either succeeds or aborts the whole setup with its own error. The
//! library decides the sequence and the outcome of each step; the
//! application runs the commands and reports back whether they
//! succeeded.
use vstd::prelude::*;

verus! {

/// The `std::io::Error` carried by a failed command launch. The
/// application creates and reads it; the library only passes it
/// through.
#[verifier::external_type_specification]
#[verifier::external_body]
pub struct ExIoError(std::io::Error);

/// Why the synthesis service could not be brought up.
#[derive(Debug)]
pub enum ErrSetupPiper {
    /// A command could not be launched or waited on at all.
    IoError(std::io::Error),
    /// The interpreter environment could not be created.
    CouldNotCreateEnv,
    /// The dependencies could not be installed.
    CouldNotInstallDeps,
    /// The voice model could not be fetched.
    CouldNotDownloadModel,
}

impl ErrSetupPiper {
    /// A short description of the failure; the launch error speaks for
    /// itself and is described by the application that holds it.
    pub fn describe(&self) -> (r: &'static str)
        ensures
            self is CouldNotCreateEnv ==> r@ == "Could not create python virtual environment for piper"@,
            self is CouldNotInstallDeps ==> r@ == "Could not install python dependencies"@,
            self is CouldNotDownloadModel ==> r@ == "Could not download piper model!"@,
    {
        match self {
            ErrSetupPiper::IoError(_) => "Could not run a piper setup command",
            ErrSetupPiper::CouldNotCreateEnv => "Could not create python virtual environment for piper",
            ErrSetupPiper::CouldNotInstallDeps => "Could not install python dependencies",
            ErrSetupPiper::CouldNotDownloadModel => "Could not download piper model!",
        }
    }
}

/// One step of bringing the synthesis service up.
#[derive(Clone, Copy, Debug, PartialEq, Eq, Structural)]
pub enum PiperStep {
    /// Create the interpreter environment.
    CreateEnv,
    /// Install or upgrade the dependencies.
    InstallDeps,
    /// Fetch the configured voice model.
    DownloadModel,
    /// Start the synthesis server with the configured voice model.
    StartServer,
}

/// The steps that bring the synthesis service up, in order, given what
/// is already on disk: the environment is created only if missing, the
/// dependencies are always (re)installed, the model is fetched only if
/// missing, and the server is always started last.
pub open spec fn setup_steps(env_exists: bool, model_exists: bool) -> Seq<PiperStep> {
    (if env_exists {
        Seq::<PiperStep>::empty()
    } else {
        seq![PiperStep::CreateEnv]
    }) + seq![PiperStep::InstallDeps] + (if model_exists {
        Seq::<PiperStep>::empty()
    } else {
        seq![PiperStep::DownloadModel]
    }) + seq![PiperStep::StartServer]
}

/// Plan the setup of the synthesis service: the exact sequence of
/// steps to run, given whether the environment and the voice model
/// already exist.
pub fn plan_setup(env_exists: bool, model_exists: bool) -> (plan: Vec<PiperStep>)
    ensures
        plan@ == setup_steps(env_exists, model_exists),
{
    let mut plan: Vec<PiperStep> = Vec::new();
    if !env_exists {
        plan.push(PiperStep::CreateEnv);
    }
    plan.push(PiperStep::InstallDeps);
    if !model_exists {
        plan.push(PiperStep::DownloadModel);
    }
    plan.push(PiperStep::StartServer);
    proof {
        assert(plan@ =~= setup_steps(env_exists, model_exists));
    }
    plan
}

/// Judge one finished setup step from whether its command reported
/// success: success lets the setup go on, failure aborts it with the
/// error owned by that step. The server start has no status to judge —
/// once launched it keeps running — so it is not passed here.
pub fn judge_step(step: PiperStep, success: bool) -> (r: Result<(), ErrSetupPiper>)
    requires
        step != PiperStep::StartServer,
    ensures
        success <==> r is Ok,
        !success && step == PiperStep::CreateEnv ==> r matches Err(
            ErrSetupPiper::CouldNotCreateEnv,
        ),
        !success && step == PiperStep::InstallDeps ==> r matches Err(
            ErrSetupPiper::CouldNotInstallDeps,
        ),
        !success && step == PiperStep::DownloadModel ==> r matches Err(
            ErrSetupPiper::CouldNotDownloadModel,
        ),
{
    if success {
        Ok(())
    } else {
        match step {
            PiperStep::CreateEnv => Err(ErrSetupPiper::CouldNotCreateEnv),
            PiperStep::InstallDeps => Err(ErrSetupPiper::CouldNotInstallDeps),
            PiperStep::DownloadModel => Err(ErrSetupPiper::CouldNotDownloadModel),
            PiperStep::StartServer => unreached(),
        }
    }
}

} // verus!
