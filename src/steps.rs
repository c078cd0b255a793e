//! The steps of a trick. Each step performs one action on the target
//! environment; whether that action succeeded is mapped to a status by the
//! step's own `success` and `failure` fields.

use vstd::prelude::*;
use crate::image::ImagePullPolicy;
use crate::status::Status;
use crate::version::{Version, VersionComparison, VersionError};

verus! {

/// A command to run in a container or on the host.
pub struct ShellCommand {
    pub command: String,
    pub args: Vec<String>,
}

/// An AppArmor policy to load and apply to a container.
pub struct AppArmorPolicyOpts {
    /// Name of the profile.
    pub name: String,
    /// Path to the profile's source.
    pub path: String,
}

/// Check software versions of the environment.
pub struct VersionCheck {
    pub kernel: Option<VersionComparison>,
    pub docker: Option<VersionComparison>,
    pub runc: Option<VersionComparison>,
    /// Status on failure; `Skip` by default.
    pub failure: Status,
    /// Status on success; `Undecided` by default.
    pub success: Status,
}

/// Spawn a container.
pub struct SpawnContainer {
    /// Name given to the container.
    pub name: String,
    /// Image of the container.
    pub image: String,
    /// How to make the image available.
    pub image_policy: ImagePullPolicy,
    /// Command to run in the container, split at whitespace.
    pub cmd: Option<String>,
    /// Volume binds.
    pub volumes: Vec<String>,
    /// Security options (SELinux, seccomp and the like).
    pub security: Vec<String>,
    /// AppArmor policy to load and apply.
    pub app_armor: Option<AppArmorPolicyOpts>,
    /// Spawn the container privileged.
    pub privileged: bool,
    /// Status on failure; `SetupFailure` by default.
    pub failure: Status,
    /// Status on success; `Undecided` by default.
    pub success: Status,
}

/// Kill a container.
pub struct KillContainer {
    pub name: String,
    pub failure: Status,
    pub success: Status,
}

/// Run a script, command by command, in a spawned container. A command that
/// exits non-zero fails the step.
pub struct Container {
    /// Name of a container spawned earlier.
    pub name: String,
    pub script: Vec<ShellCommand>,
    /// Run the commands with elevated privileges.
    pub privileged: bool,
    /// Attach a TTY to the commands; on by default.
    pub tty: bool,
    pub failure: Status,
    pub success: Status,
}

/// Run a script, command by command, on the host. A command that exits
/// non-zero or is killed by a signal fails the step.
pub struct Host {
    pub script: Vec<ShellCommand>,
    pub failure: Status,
    pub success: Status,
}

/// What a `Wait` step waits for.
#[derive(Debug, Clone, Copy, PartialEq, Eq, Structural)]
pub enum WaitFor {
    /// A fixed time.
    Sleep { secs: u64, nanos: u32 },
    /// One byte on standard input.
    Input,
}

/// Pause the trick. It never fails and always reports `Undecided`.
pub struct Wait {
    pub for_: WaitFor,
}

/// Build a guest kernel and root filesystem and launch a virtual machine.
pub struct CreateEnvironment {
    pub kernel_tag: String,
    /// Kernel configuration file.
    pub kconfig: String,
    /// Buildroot configuration file.
    pub bconfig: String,
    /// Status on failure; `SetupFailure` by default.
    pub failure: Status,
    pub success: Status,
}

/// One step of a trick.
pub enum Step {
    CreateEnvironment(CreateEnvironment),
    VersionCheck(VersionCheck),
    SpawnContainer(SpawnContainer),
    KillContainer(KillContainer),
    Container(Container),
    Host(Host),
    Wait(Wait),
}

/// The uniform run contract of a step: the action itself is performed
/// elsewhere, and whether it succeeded decides the status.
pub trait RunStep {
    /// The status reported when the action succeeds.
    spec fn success_status(&self) -> Status;

    /// The status reported when the action fails.
    spec fn failure_status(&self) -> Status;

    fn on_success(&self) -> (r: Status)
        ensures
            r == self.success_status(),
    ;

    fn on_failure(&self) -> (r: Status)
        ensures
            r == self.failure_status(),
    ;

    /// The status of the step, given whether its action succeeded. A failure
    /// is data: it becomes the failure status and goes no further.
    fn run(&self, succeeded: bool) -> (r: Status)
        ensures
            r == (if succeeded { self.success_status() } else { self.failure_status() }),
    {
        if succeeded {
            self.on_success()
        } else {
            self.on_failure()
        }
    }
}

impl RunStep for VersionCheck {
    open spec fn success_status(&self) -> Status { self.success }
    open spec fn failure_status(&self) -> Status { self.failure }
    fn on_success(&self) -> (r: Status) { self.success }
    fn on_failure(&self) -> (r: Status) { self.failure }
}

impl RunStep for SpawnContainer {
    open spec fn success_status(&self) -> Status { self.success }
    open spec fn failure_status(&self) -> Status { self.failure }
    fn on_success(&self) -> (r: Status) { self.success }
    fn on_failure(&self) -> (r: Status) { self.failure }
}

impl RunStep for KillContainer {
    open spec fn success_status(&self) -> Status { self.success }
    open spec fn failure_status(&self) -> Status { self.failure }
    fn on_success(&self) -> (r: Status) { self.success }
    fn on_failure(&self) -> (r: Status) { self.failure }
}

impl RunStep for Container {
    open spec fn success_status(&self) -> Status { self.success }
    open spec fn failure_status(&self) -> Status { self.failure }
    fn on_success(&self) -> (r: Status) { self.success }
    fn on_failure(&self) -> (r: Status) { self.failure }
}

impl RunStep for Host {
    open spec fn success_status(&self) -> Status { self.success }
    open spec fn failure_status(&self) -> Status { self.failure }
    fn on_success(&self) -> (r: Status) { self.success }
    fn on_failure(&self) -> (r: Status) { self.failure }
}

impl RunStep for Wait {
    open spec fn success_status(&self) -> Status { Status::Undecided }
    open spec fn failure_status(&self) -> Status { Status::Undecided }
    fn on_success(&self) -> (r: Status) { Status::Undecided }
    fn on_failure(&self) -> (r: Status) { Status::Undecided }
}

impl RunStep for CreateEnvironment {
    open spec fn success_status(&self) -> Status { self.success }
    open spec fn failure_status(&self) -> Status { self.failure }
    fn on_success(&self) -> (r: Status) { self.success }
    fn on_failure(&self) -> (r: Status) { self.failure }
}

impl RunStep for Step {
    open spec fn success_status(&self) -> Status {
        match self {
            Step::CreateEnvironment(s) => s.success_status(),
            Step::VersionCheck(s) => s.success_status(),
            Step::SpawnContainer(s) => s.success_status(),
            Step::KillContainer(s) => s.success_status(),
            Step::Container(s) => s.success_status(),
            Step::Host(s) => s.success_status(),
            Step::Wait(s) => s.success_status(),
        }
    }

    open spec fn failure_status(&self) -> Status {
        match self {
            Step::CreateEnvironment(s) => s.failure_status(),
            Step::VersionCheck(s) => s.failure_status(),
            Step::SpawnContainer(s) => s.failure_status(),
            Step::KillContainer(s) => s.failure_status(),
            Step::Container(s) => s.failure_status(),
            Step::Host(s) => s.failure_status(),
            Step::Wait(s) => s.failure_status(),
        }
    }

    fn on_success(&self) -> (r: Status) {
        match self {
            Step::CreateEnvironment(s) => s.on_success(),
            Step::VersionCheck(s) => s.on_success(),
            Step::SpawnContainer(s) => s.on_success(),
            Step::KillContainer(s) => s.on_success(),
            Step::Container(s) => s.on_success(),
            Step::Host(s) => s.on_success(),
            Step::Wait(s) => s.on_success(),
        }
    }

    fn on_failure(&self) -> (r: Status) {
        match self {
            Step::CreateEnvironment(s) => s.on_failure(),
            Step::VersionCheck(s) => s.on_failure(),
            Step::SpawnContainer(s) => s.on_failure(),
            Step::KillContainer(s) => s.on_failure(),
            Step::Container(s) => s.on_failure(),
            Step::Host(s) => s.on_failure(),
            Step::Wait(s) => s.on_failure(),
        }
    }
}

/// The software whose version a version check probes.
#[derive(Debug, Clone, Copy, PartialEq, Eq, Structural)]
pub enum Component {
    Kernel,
    Docker,
    Runc,
}

/// Why a version check failed.
#[derive(Debug, Clone, Copy, PartialEq, Eq, Structural)]
pub enum VersionCheckError {
    /// The version of the component could not be probed.
    Unknown(Component),
    /// The probed version is outside the bounds.
    Mismatch(Component, VersionError),
}

/// The check of one component: nothing to do without bounds; an error when
/// bounds are given but the version could not be probed.
pub open spec fn check_component(
    bounds: Option<VersionComparison>,
    probed: Option<Version>,
    c: Component,
) -> Result<(), VersionCheckError> {
    match bounds {
        None => Ok(()),
        Some(b) => match probed {
            None => Err(VersionCheckError::Unknown(c)),
            Some(v) => match b.spec_compare(v) {
                Ok(()) => Ok(()),
                Err(e) => Err(VersionCheckError::Mismatch(c, e)),
            },
        },
    }
}

/// Checks one component: nothing to do without bounds; an error when bounds
/// are given but its version could not be probed (`None`).
pub fn check_bounds(
    bounds: &Option<VersionComparison>,
    probed: &Option<Version>,
    c: Component,
) -> (r: Result<(), VersionCheckError>)
    ensures
        r == check_component(*bounds, *probed, c),
{
    match bounds {
        None => Ok(()),
        Some(b) => match probed {
            None => Err(VersionCheckError::Unknown(c)),
            Some(v) => match b.compare(v) {
                Ok(()) => Ok(()),
                Err(e) => Err(VersionCheckError::Mismatch(c, e)),
            },
        },
    }
}

impl VersionCheck {
    /// The verdict of the check on the probed versions (`None` where a probe
    /// failed): kernel first, then docker, then runc; the first error wins.
    pub open spec fn spec_check(
        self,
        kernel: Option<Version>,
        docker: Option<Version>,
        runc: Option<Version>,
    ) -> Result<(), VersionCheckError> {
        match check_component(self.kernel, kernel, Component::Kernel) {
            Err(e) => Err(e),
            Ok(()) => match check_component(self.docker, docker, Component::Docker) {
                Err(e) => Err(e),
                Ok(()) => check_component(self.runc, runc, Component::Runc),
            },
        }
    }

    /// Checks the probed versions against the configured bounds. A probe is
    /// only read where bounds are configured for its component.
    pub fn check(
        &self,
        kernel: &Option<Version>,
        docker: &Option<Version>,
        runc: &Option<Version>,
    ) -> (r: Result<(), VersionCheckError>)
        ensures
            r == self.spec_check(*kernel, *docker, *runc),
    {
        match check_bounds(&self.kernel, kernel, Component::Kernel) {
            Err(e) => return Err(e),
            Ok(()) => {},
        }
        match check_bounds(&self.docker, docker, Component::Docker) {
            Err(e) => return Err(e),
            Ok(()) => {},
        }
        check_bounds(&self.runc, runc, Component::Runc)
    }
}

} // verus!
