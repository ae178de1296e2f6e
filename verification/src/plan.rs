//! The staging plan: a plain-value description of everything an exporter
//! run asks of the filesystem and of the process that is then launched.
//!
//! An exporter computes its plan; carrying the plan out (creating the
//! directories, writing and copying the files, spawning the process) is the
//! caller's side of the bargain and happens outside this library.

use vstd::prelude::*;

verus! {

/// Where the bytes of one staged file come from: text rendered by this
/// library, or a verbatim copy of a user-supplied file.
pub enum FileSource {
    Rendered(String),
    Copied(String),
}

/// Spec-level image of a [`FileSource`].
#[verifier::ext_equal]
pub enum FileSourceView {
    Rendered(Seq<char>),
    Copied(Seq<char>),
}

impl View for FileSource {
    type V = FileSourceView;

    open spec fn view(&self) -> FileSourceView {
        match self {
            FileSource::Rendered(text) => FileSourceView::Rendered(text@),
            FileSource::Copied(from) => FileSourceView::Copied(from@),
        }
    }
}

/// One file of the staging tree: its destination path, where its contents
/// come from, and whether it must be marked executable before the packaging
/// tool runs.
pub struct PlannedFile {
    pub path: String,
    pub source: FileSource,
    pub executable: bool,
}

/// Spec-level image of a [`PlannedFile`].
#[verifier::ext_equal]
pub struct PlannedFileView {
    pub path: Seq<char>,
    pub source: FileSourceView,
    pub executable: bool,
}

impl View for PlannedFile {
    type V = PlannedFileView;

    open spec fn view(&self) -> PlannedFileView {
        PlannedFileView { path: self.path@, source: self.source@, executable: self.executable }
    }
}

/// One environment variable handed to the launched process.
pub struct EnvVar {
    pub name: String,
    pub value: String,
}

/// Spec-level image of an [`EnvVar`].
#[verifier::ext_equal]
pub struct EnvVarView {
    pub name: Seq<char>,
    pub value: Seq<char>,
}

impl View for EnvVar {
    type V = EnvVarView;

    open spec fn view(&self) -> EnvVarView {
        EnvVarView { name: self.name@, value: self.value@ }
    }
}

/// The external process an exporter launches: program, arguments in order,
/// and the environment variables set for it.
pub struct CommandPlan {
    pub program: String,
    pub args: Vec<String>,
    pub env: Vec<EnvVar>,
}

/// Spec-level image of a [`CommandPlan`].
#[verifier::ext_equal]
pub struct CommandPlanView {
    pub program: Seq<char>,
    pub args: Seq<Seq<char>>,
    pub env: Seq<EnvVarView>,
}

impl View for CommandPlan {
    type V = CommandPlanView;

    open spec fn view(&self) -> CommandPlanView {
        CommandPlanView {
            program: self.program@,
            args: self.args@.map_values(|s: String| s@),
            env: self.env@.map_values(|e: EnvVar| e@),
        }
    }
}

/// Everything one exporter run asks for: the directories to create (in
/// order), the files to put in place (in order), and the process to launch
/// once the tree stands.
pub struct StagingPlan {
    pub dirs: Vec<String>,
    pub files: Vec<PlannedFile>,
    pub command: CommandPlan,
}

/// Spec-level image of a [`StagingPlan`].
#[verifier::ext_equal]
pub struct StagingPlanView {
    pub dirs: Seq<Seq<char>>,
    pub files: Seq<PlannedFileView>,
    pub command: CommandPlanView,
}

impl View for StagingPlan {
    type V = StagingPlanView;

    open spec fn view(&self) -> StagingPlanView {
        StagingPlanView {
            dirs: self.dirs@.map_values(|s: String| s@),
            files: self.files@.map_values(|f: PlannedFile| f@),
            command: self.command@,
        }
    }
}

} // verus!
