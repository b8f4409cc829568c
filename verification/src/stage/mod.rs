pub mod resume;
pub mod configure;
pub mod mount;
pub mod disk;
pub mod base_install;
pub mod bootloader;
pub mod repos;
pub mod users;
pub mod chroot;

use vstd::prelude::*;

verus! {

/// Number of stages in the install pipeline.
pub const STAGE_COUNT: usize = 8;

/// What a stage of the pipeline does.
#[derive(Debug, Clone, Copy, PartialEq, Eq, Structural)]
pub enum StageKind {
    Mount,
    BaseInstall,
    Configure,
    Bootloader,
    Users,
    Repos,
}

impl StageKind {
    pub open spec fn title(self) -> Seq<char> {
        match self {
            StageKind::Mount => "Mounting Partitions"@,
            StageKind::BaseInstall => "Installing Base System via XBPS"@,
            StageKind::Configure => "Native System Configuration"@,
            StageKind::Bootloader => "Installing GRUB Bootloader"@,
            StageKind::Users => "Finalizing Users and Services"@,
            StageKind::Repos => "Additional Repositories"@,
        }
    }

    /// Human-readable label of the stage.
    pub fn name(self) -> (r: &'static str)
        ensures
            r@ == self.title(),
    {
        match self {
            StageKind::Mount => "Mounting Partitions",
            StageKind::BaseInstall => "Installing Base System via XBPS",
            StageKind::Configure => "Native System Configuration",
            StageKind::Bootloader => "Installing GRUB Bootloader",
            StageKind::Users => "Finalizing Users and Services",
            StageKind::Repos => "Additional Repositories",
        }
    }
}

/// Counts the stages as they come and decides which are skipped when
/// resuming from a later stage.
#[derive(Debug, Clone, Copy)]
pub struct StageRunner {
    pub step: usize,
    pub resume_from: usize,
}

impl StageRunner {
    pub fn new(resume_from: usize) -> (r: StageRunner)
        ensures
            r.step == 0,
            r.resume_from == resume_from,
    {
        StageRunner { step: 0, resume_from }
    }

    /// Move to the next stage and tell whether it is skipped: a stage whose
    /// number is below the resume point is skipped.
    pub fn run_or_skip(&mut self) -> (skip: bool)
        requires
            old(self).step < usize::MAX,
        ensures
            final(self).step == old(self).step + 1,
            final(self).resume_from == old(self).resume_from,
            skip == (final(self).step < final(self).resume_from),
    {
        self.step = self.step + 1;
        self.step < self.resume_from
    }
}

/// The header text of a stage: its name, marked when the stage is skipped.
pub fn stage_heading(name: &str, skipped: bool) -> (r: String)
    ensures
        r@ == if skipped {
            name@ + " [skipped — resuming]"@
        } else {
            name@
        },
{
    if skipped {
        crate::text::cat(name, " [skipped — resuming]")
    } else {
        String::from_str(name)
    }
}

/// One step of the install pipeline.
#[derive(Debug, Clone, Copy, PartialEq, Eq, Structural)]
pub enum PipelineStep {
    /// The top-of-run banner.
    Banner,
    /// Stage 1: disk setup, or, when resuming, rebuilding the context from
    /// the mounted target.
    Disk { step: usize, resuming: bool },
    /// A stage that is run, or skipped when resuming past it.
    Stage { step: usize, kind: StageKind, skip: bool },
    /// Stage 4: the chroot bind mounts, entered even when resuming past it
    /// because the later stages need them.
    Chroot { step: usize, reentering: bool },
    /// The completion notice; `from_bootloader` tells whether it reports
    /// what the GRUB stage did to the firmware boot menu (the stage ran) or
    /// that nothing was registered (the stage was skipped).
    Completion { from_bootloader: bool },
}

/// The pipeline's steps when resuming from stage `r` (0 or 1: from the start).
pub open spec fn planned(r: nat) -> Seq<PipelineStep> {
    seq![
        PipelineStep::Banner,
        PipelineStep::Disk { step: 1, resuming: r > 1 },
        PipelineStep::Stage { step: 2, kind: StageKind::Mount, skip: 2 < r },
        PipelineStep::Stage { step: 3, kind: StageKind::BaseInstall, skip: 3 < r },
        PipelineStep::Chroot { step: 4, reentering: r > 4 },
        PipelineStep::Stage { step: 5, kind: StageKind::Configure, skip: 5 < r },
        PipelineStep::Stage { step: 6, kind: StageKind::Bootloader, skip: 6 < r },
        PipelineStep::Stage { step: 7, kind: StageKind::Users, skip: 7 < r },
        PipelineStep::Stage { step: 8, kind: StageKind::Repos, skip: 8 < r },
        PipelineStep::Completion { from_bootloader: !(6 < r) },
    ]
}

/// The install pipeline, resuming from stage `resume_from`: the steps to
/// take in order (stopping at the first that fails). A skipped GRUB stage
/// counts as not having registered Void in the firmware boot menu.
pub fn run_pipeline(resume_from: usize) -> (r: Vec<PipelineStep>)
    ensures
        r@ == planned(resume_from as nat),
{
    let mut runner = StageRunner::new(resume_from);
    let mut steps: Vec<PipelineStep> = Vec::new();
    steps.push(PipelineStep::Banner);
    runner.step = runner.step + 1;
    steps.push(PipelineStep::Disk { step: runner.step, resuming: resume_from > 1 });
    let skip = runner.run_or_skip();
    steps.push(PipelineStep::Stage { step: runner.step, kind: StageKind::Mount, skip });
    let skip = runner.run_or_skip();
    steps.push(PipelineStep::Stage { step: runner.step, kind: StageKind::BaseInstall, skip });
    runner.step = runner.step + 1;
    steps.push(PipelineStep::Chroot { step: runner.step, reentering: resume_from > 4 });
    let skip = runner.run_or_skip();
    steps.push(PipelineStep::Stage { step: runner.step, kind: StageKind::Configure, skip });
    let skip_bootloader = runner.run_or_skip();
    steps.push(
        PipelineStep::Stage { step: runner.step, kind: StageKind::Bootloader, skip: skip_bootloader },
    );
    let skip = runner.run_or_skip();
    steps.push(PipelineStep::Stage { step: runner.step, kind: StageKind::Users, skip });
    let skip = runner.run_or_skip();
    steps.push(PipelineStep::Stage { step: runner.step, kind: StageKind::Repos, skip });
    steps.push(PipelineStep::Completion { from_bootloader: !skip_bootloader });
    assert(steps@ =~= planned(resume_from as nat));
    steps
}

/// Whether the completion notice says that Void was registered in the
/// firmware boot menu: what the GRUB stage reported when the notice comes
/// from it, and no otherwise.
pub fn completion_registered(from_bootloader: bool, bootloader_registered: bool) -> (r: bool)
    ensures
        r == (from_bootloader && bootloader_registered),
{
    from_bootloader && bootloader_registered
}

/// The context that a failed stage's error carries.
pub open spec fn stage_failure(name: Seq<char>, cause: Seq<char>) -> Seq<char> {
    "Stage '"@ + name + "' failed: "@ + cause
}

/// Run a stage's body, unless the stage is skipped: a skipped stage gives
/// `skip_value` without running the body; otherwise the body runs once, and
/// its value is the result, or its error under "Stage '<name>' failed".
pub fn run_stage<T, F: FnOnce() -> Result<T, String>>(
    name: &str,
    skip: bool,
    skip_value: T,
    body: F,
) -> (r: Result<T, String>)
    requires
        !skip ==> call_requires(body, ()),
    ensures
        skip ==> r == Ok::<T, String>(skip_value),
        !skip ==> exists|out: Result<T, String>|
            #[trigger] call_ensures(body, (), out) && match (out, r) {
                (Ok(v), Ok(w)) => v == w,
                (Err(m), Err(e)) => e@ == stage_failure(name@, m@),
                _ => false,
            },
{
    if skip {
        return Ok(skip_value);
    }
    match body() {
        Ok(v) => Ok(v),
        Err(m) => {
            let mut e = String::from_str("Stage '");
            e.append(name);
            e.append("' failed: ");
            e.append(m.as_str());
            Err(e)
        },
    }
}

/// Resuming from stage `r` skips exactly the stages numbered below `r`,
/// never skips the chroot, runs disk setup only from the start, numbers
/// the stages 1 to 8 in order, and ends with the completion notice, which
/// reports the GRUB stage's outcome exactly when that stage is not skipped.
pub proof fn law_pipeline_resume(r: nat)
    ensures
        planned(r).len() == 2 + STAGE_COUNT,
        forall|i: int|
            0 <= i < planned(r).len() ==> match #[trigger] planned(r)[i] {
                PipelineStep::Stage { step, skip, .. } => step == i && skip == (step < r),
                PipelineStep::Disk { step, resuming } => step == i && step == 1 && resuming == (r > 1),
                PipelineStep::Chroot { step, .. } => step == i && step == 4,
                PipelineStep::Banner => i == 0,
                PipelineStep::Completion { from_bootloader } => i == 1 + STAGE_COUNT
                    && from_bootloader == !(planned(r)[6] matches PipelineStep::Stage { skip, .. } && skip),
            },
{
}

} // verus!
