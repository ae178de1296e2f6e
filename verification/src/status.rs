//! Per-exporter lifecycle state and the completion event delivered by a
//! finished run.

use vstd::prelude::*;

verus! {

/// Lifecycle state of one exporter.
///
/// `Idle` holds before any run and after a project is loaded; a run moves the
/// exporter to `InProgress`, and the completion event of the external process
/// moves it to `Success` or `Failure`.  Nothing leaves a terminal state except
/// the start of a new run.
pub enum ExportStatus {
    Idle,
    InProgress,
    Success,
    Failure(String),
}

/// Spec-level image of an [`ExportStatus`].
pub enum StatusView {
    Idle,
    InProgress,
    Success,
    Failure(Seq<char>),
}

impl View for ExportStatus {
    type V = StatusView;

    open spec fn view(&self) -> StatusView {
        match self {
            ExportStatus::Idle => StatusView::Idle,
            ExportStatus::InProgress => StatusView::InProgress,
            ExportStatus::Success => StatusView::Success,
            ExportStatus::Failure(message) => StatusView::Failure(message@),
        }
    }
}

impl StatusView {
    /// A terminal state: the run that led here is over.
    pub open spec fn is_terminal(self) -> bool {
        self is Success || self is Failure
    }
}

impl Default for ExportStatus {
    /// Before any run, an exporter sits at `Idle`.
    fn default() -> (r: Self)
        ensures
            r@ == StatusView::Idle,
    {
        ExportStatus::Idle
    }
}

impl ExportStatus {
    /// The text shown for this state.
    pub open spec fn spec_label(s: StatusView) -> Seq<char> {
        match s {
            StatusView::Idle => "Idle"@,
            StatusView::InProgress => "In Progress"@,
            StatusView::Success => "Success"@,
            StatusView::Failure(message) => "Failure: "@ + message,
        }
    }

    /// Render this state as display text.
    pub fn label(&self) -> (r: String)
        ensures
            r@ == Self::spec_label(self@),
    {
        match self {
            ExportStatus::Idle => "Idle".to_owned(),
            ExportStatus::InProgress => "In Progress".to_owned(),
            ExportStatus::Success => "Success".to_owned(),
            ExportStatus::Failure(message) => {
                let mut r = "Failure: ".to_owned();
                r.append(message.as_str());
                r
            },
        }
    }

    /// Whether the run that led here is over.
    pub fn is_terminal(&self) -> (r: bool)
        ensures
            r == self@.is_terminal(),
    {
        match self {
            ExportStatus::Success => true,
            ExportStatus::Failure(_) => true,
            _ => false,
        }
    }
}

/// Completion event of one launched external process: either it exited
/// cleanly, or it failed and carries the text explaining why.
pub enum Outcome {
    Success,
    Failure(String),
}

/// Spec-level image of an [`Outcome`].
pub enum OutcomeView {
    Success,
    Failure(Seq<char>),
}

impl View for Outcome {
    type V = OutcomeView;

    open spec fn view(&self) -> OutcomeView {
        match self {
            Outcome::Success => OutcomeView::Success,
            Outcome::Failure(message) => OutcomeView::Failure(message@),
        }
    }
}

impl OutcomeView {
    /// The terminal status that this completion event settles an exporter
    /// into.
    pub open spec fn as_status(self) -> StatusView {
        match self {
            OutcomeView::Success => StatusView::Success,
            OutcomeView::Failure(message) => StatusView::Failure(message),
        }
    }
}

impl Outcome {
    /// Turn this completion event into the terminal status it stands for.
    pub fn into_status(self) -> (r: ExportStatus)
        ensures
            r@ == self@.as_status(),
            r@.is_terminal(),
    {
        match self {
            Outcome::Success => ExportStatus::Success,
            Outcome::Failure(message) => ExportStatus::Failure(message),
        }
    }
}

} // verus!
