//! What the boot phases ask of the system, and what they can fail with.

use vstd::prelude::*;

verus! {

/// A point of the boot at which the host calls in.
#[derive(Clone, Copy, Debug, PartialEq, Eq, Structural)]
pub enum BootPhase {
    PostFsData,
    Services,
    BootCompleted,
    Install,
    Daemon,
}

/// One of the two module images.
#[derive(Clone, Copy, Debug, PartialEq, Eq, Structural)]
pub enum ImageSlot {
    /// The persistent image.
    Base,
    /// The image that waits to replace it.
    Update,
}

/// A file of the working state.
#[derive(Clone, Copy, Debug, PartialEq, Eq, Structural)]
pub enum StateFile {
    /// The base module image.
    BaseImage,
    /// The update module image.
    UpdateImage,
    /// The marker that says the update image is to be adopted at this boot.
    UpdateMarker,
    /// The daemon's executable at its persistent path.
    DaemonBinary,
    /// The link to the daemon's executable on the binary search path.
    DaemonLink,
}

impl ImageSlot {
    /// The file that holds the image.
    pub open spec fn spec_file(self) -> StateFile {
        match self {
            ImageSlot::Base => StateFile::BaseImage,
            ImageSlot::Update => StateFile::UpdateImage,
        }
    }

    /// The file that holds the image.
    pub fn file(self) -> (file: StateFile)
        ensures
            file == self.spec_file(),
    {
        match self {
            ImageSlot::Base => StateFile::BaseImage,
            ImageSlot::Update => StateFile::UpdateImage,
        }
    }
}

/// A stage that has hook scripts.
#[derive(Clone, Copy, Debug, PartialEq, Eq, Structural)]
pub enum HookStage {
    PostFsData,
    Service,
}

impl HookStage {
    /// The directory that holds the stage's common scripts.
    pub open spec fn spec_common_dir(self) -> Seq<char> {
        match self {
            HookStage::PostFsData => "post-fs-data.d"@,
            HookStage::Service => "service.d"@,
        }
    }

    /// The directory that holds the stage's common scripts.
    pub fn common_dir(self) -> (dir: &'static str)
        ensures
            dir@ == self.spec_common_dir(),
    {
        match self {
            HookStage::PostFsData => "post-fs-data.d",
            HookStage::Service => "service.d",
        }
    }
}

/// What ends a boot phase early.
#[derive(Clone, Copy, Debug, PartialEq, Eq)]
pub enum BootError {
    /// The module directory could not be made empty.
    CleanModuleDir,
    /// The helper binaries could not be extracted.
    ExtractBinaries,
    /// The update marker could not be removed.
    RemoveMarker,
    /// The module image could not be mounted.
    MountImage,
    /// The update image could not be copied over the base image.
    CopyImage,
    /// The update image could not be removed after it was copied.
    RemoveImage,
    /// The working directory could not be created.
    EnsureWorkingDir,
    /// The running executable could not be copied to its persistent path.
    CopyDaemon,
    /// The link to the daemon's executable could not be created.
    LinkDaemon,
}

/// A request of a boot phase to the system, or the end of the phase. The
/// answer to a request is one `bool`: whether it succeeded, or, for a probe,
/// whether what it asks about holds.
#[derive(Clone, Copy, Debug, PartialEq, Eq)]
pub enum BootAction {
    /// Tell the privileged component that `phase` was entered.
    ReportPhase { phase: BootPhase },
    /// Is another rooting framework active?
    ProbeAlternateFramework,
    /// Reset the file-creation mask to zero.
    ResetUmask,
    /// Make the module directory exist and be empty.
    CleanModuleDir,
    /// Extract the helper binaries.
    ExtractBinaries,
    /// Does `file` exist?
    ProbeFile { file: StateFile },
    /// Remove `file`.
    RemoveFile { file: StateFile },
    /// Mount the image in `slot` onto the module directory.
    MountImage { slot: ImageSlot, read_only: bool },
    /// Is this a safe-mode boot?
    ProbeSafeMode,
    /// Give every module a disable marker.
    DisableAllModules,
    /// Run the common scripts of `stage`, waiting for each if `wait`.
    RunCommonScripts { stage: HookStage, wait: bool },
    /// Load the modules' security-policy rules.
    LoadSepolicyRules,
    /// Run the modules' own scripts of `stage`.
    RunModuleScripts { stage: HookStage },
    /// Load the modules' system properties.
    LoadSystemProps,
    /// Unmount the overlays that the stock system set up.
    UnmountStockOverlay,
    /// Mount the partitions' overlays from the module directory.
    MountSystemlessly,
    /// Mount the stock system's overlays again.
    MountStockOverlay,
    /// Rename the update image to the base image.
    RenameUpdateToBase,
    /// Copy the update image over the base image.
    CopyUpdateToBase,
    /// Make the working directory exist.
    EnsureWorkingDir,
    /// Copy the running executable to the daemon's persistent path.
    CopySelfToDaemon,
    /// Link the daemon's executable into the binary search path.
    LinkDaemon,
    /// The phase is over, with this result.
    Finish { result: Result<(), BootError> },
}

impl BootAction {
    /// Whether the action runs module code or mounts module content over a
    /// partition.
    pub open spec fn applies_modules(self) -> bool {
        self is RunCommonScripts || self is RunModuleScripts || self is LoadSepolicyRules
            || self is LoadSystemProps || self is MountSystemlessly
    }

    /// Whether the action replaces the base image by the update image.
    pub open spec fn promotes_update(self) -> bool {
        self is RenameUpdateToBase || self is CopyUpdateToBase
    }
}

/// The result that a run of a phase ends with.
pub open spec fn boot_result(run: Seq<BootAction>) -> Result<(), BootError> {
    match run.last() {
        BootAction::Finish { result } => result,
        _ => Ok(()),
    }
}

} // verus!
