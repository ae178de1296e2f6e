//! What the exporters share: the closed family of exporter variants with
//! its run state machine, the error taxonomy, and the text helpers for
//! display names and output file names.

use vstd::prelude::*;

use crate::app_image::AppImage;
use crate::app_image::AppImageView;
use crate::app_image::spec_app_image_error;
use crate::app_image::spec_app_image_plan;
use crate::app_image::spec_app_image_valid;
use crate::debian::Debian;
use crate::debian::DebianView;
use crate::debian::spec_debian_error;
use crate::debian::spec_debian_plan;
use crate::debian::spec_debian_valid;
use crate::meta::Meta;
use crate::meta::MetaView;
use crate::plan::StagingPlan;
use crate::plan::StagingPlanView;
use crate::script::Script;
use crate::script::ScriptView;
use crate::script::spec_script_error;
use crate::script::spec_script_plan;
use crate::script::spec_script_valid;
use crate::status::ExportStatus;
use crate::status::Outcome;
use crate::status::OutcomeView;
use crate::status::StatusView;

verus! {

/// Why an exporter run went wrong.  A validation error is found before
/// anything is staged; an I/O error is a filesystem operation that failed
/// while the staging plan was carried out; a process error is the external
/// tool exiting non-zero, carrying its captured error text.  Each is fatal to
/// its own exporter only.
#[derive(Debug)]
pub enum ExportError {
    Validation(String),
    Io(String),
    Process(String),
}

/// Spec-level image of an [`ExportError`].
#[verifier::ext_equal]
pub enum ExportErrorView {
    Validation(Seq<char>),
    Io(Seq<char>),
    Process(Seq<char>),
}

impl View for ExportError {
    type V = ExportErrorView;

    open spec fn view(&self) -> ExportErrorView {
        match self {
            ExportError::Validation(message) => ExportErrorView::Validation(message@),
            ExportError::Io(message) => ExportErrorView::Io(message@),
            ExportError::Process(message) => ExportErrorView::Process(message@),
        }
    }
}

impl ExportErrorView {
    /// The text carried by the error, whichever kind it is.
    pub open spec fn message(self) -> Seq<char> {
        match self {
            ExportErrorView::Validation(message) => message,
            ExportErrorView::Io(message) => message,
            ExportErrorView::Process(message) => message,
        }
    }
}

impl ExportError {
    /// The text carried by the error, whichever kind it is.
    pub fn message(&self) -> (r: &String)
        ensures
            r@ == self@.message(),
    {
        match self {
            ExportError::Validation(message) => message,
            ExportError::Io(message) => message,
            ExportError::Process(message) => message,
        }
    }
}

/// `text`, or `text - (tag)` when a tag is present.
pub open spec fn spec_format_tag(text: Seq<char>, tag: Seq<char>) -> Seq<char> {
    if tag.len() == 0 {
        text
    } else {
        text + " - ("@ + tag + ")"@
    }
}

/// Join `text` with a tag for display: `text - (tag)`, or `text` alone when
/// the tag is empty.
pub fn format_tag(text: &str, tag: &str) -> (r: String)
    ensures
        r@ == spec_format_tag(text@, tag@),
{
    if tag.is_empty() {
        text.to_owned()
    } else {
        let mut r = text.to_owned();
        r.append(" - (");
        r.append(tag);
        r.append(")");
        r
    }
}

/// `text`, or `text-tag` when a tag is present.
pub open spec fn spec_format_tag_name(text: Seq<char>, tag: Seq<char>) -> Seq<char> {
    if tag.len() == 0 {
        text
    } else {
        text + "-"@ + tag
    }
}

/// Join `text` with a tag for a file name: `text-tag`, or `text` alone when
/// the tag is empty.
pub fn format_tag_name(text: &str, tag: &str) -> (r: String)
    ensures
        r@ == spec_format_tag_name(text@, tag@),
{
    if tag.is_empty() {
        text.to_owned()
    } else {
        let mut r = text.to_owned();
        r.append("-");
        r.append(tag);
        r
    }
}

/// Empty, or `_tag` when a tag is present.
pub open spec fn spec_format_tag_present(tag: Seq<char>) -> Seq<char> {
    if tag.len() == 0 {
        Seq::empty()
    } else {
        "_"@ + tag
    }
}

/// An underscore-prefixed tag for a file name, or nothing when the tag is
/// empty.
pub fn format_tag_present(tag: &str) -> (r: String)
    ensures
        r@ == spec_format_tag_present(tag@),
{
    if tag.is_empty() {
        String::new()
    } else {
        let mut r = "_".to_owned();
        r.append(tag);
        r
    }
}

/// One configured packaging target.  The family is closed: a Debian
/// package, an AppImage bundle, or a custom script.
pub enum Exporter {
    Debian(Debian),
    AppImage(AppImage),
    Script(Script),
}

/// Spec-level image of an [`Exporter`].
#[verifier::ext_equal]
pub enum ExporterView {
    Debian(DebianView),
    AppImage(AppImageView),
    Script(ScriptView),
}

impl View for Exporter {
    type V = ExporterView;

    open spec fn view(&self) -> ExporterView {
        match self {
            Exporter::Debian(d) => ExporterView::Debian(d@),
            Exporter::AppImage(a) => ExporterView::AppImage(a@),
            Exporter::Script(s) => ExporterView::Script(s@),
        }
    }
}

impl ExporterView {
    /// Whether this exporter takes part in runs.
    pub open spec fn enabled(self) -> bool {
        match self {
            ExporterView::Debian(d) => d.enable,
            ExporterView::AppImage(a) => a.enable,
            ExporterView::Script(s) => s.enable,
        }
    }

    /// Whether this exporter is marked to be dropped from the collection.
    pub open spec fn marked_removed(self) -> bool {
        match self {
            ExporterView::Debian(d) => d.remove,
            ExporterView::AppImage(a) => a.remove,
            ExporterView::Script(s) => s.remove,
        }
    }

    /// The exporter's current lifecycle state.
    pub open spec fn status(self) -> StatusView {
        match self {
            ExporterView::Debian(d) => d.status,
            ExporterView::AppImage(a) => a.status,
            ExporterView::Script(s) => s.status,
        }
    }

    /// The same exporter with its status replaced and everything else kept.
    pub open spec fn with_status(self, status: StatusView) -> ExporterView {
        match self {
            ExporterView::Debian(d) => ExporterView::Debian(DebianView { status, ..d }),
            ExporterView::AppImage(a) => ExporterView::AppImage(AppImageView { status, ..a }),
            ExporterView::Script(s) => ExporterView::Script(ScriptView { status, ..s }),
        }
    }

    /// Settled: disabled, or not in the middle of a run.  A disabled
    /// exporter is deliberately settled so that unused exporters never hold
    /// up completion.
    pub open spec fn is_settled(self) -> bool {
        !self.enabled() || !(self.status() is InProgress)
    }
}

/// The error a run of this exporter stops on before anything is staged:
/// nothing when the exporter is disabled or the metadata passes its
/// validation, and the exporter's validation error otherwise.
pub open spec fn spec_run_error(e: ExporterView, m: MetaView) -> Option<ExportErrorView> {
    if !e.enabled() {
        None
    } else {
        match e {
            ExporterView::Debian(d) => if spec_debian_valid(m) {
                None
            } else {
                Some(ExportErrorView::Validation(spec_debian_error(m)))
            },
            ExporterView::AppImage(a) => if spec_app_image_valid(m) {
                None
            } else {
                Some(ExportErrorView::Validation(spec_app_image_error(m)))
            },
            ExporterView::Script(s) => if spec_script_valid(m) {
                None
            } else {
                Some(ExportErrorView::Validation(spec_script_error(m)))
            },
        }
    }
}

/// The staging plan a run of this exporter hands out: one exactly when the
/// exporter is enabled, validation passes, and there is a process to launch.
pub open spec fn spec_run_launch(e: ExporterView, m: MetaView) -> Option<StagingPlanView> {
    if !e.enabled() || spec_run_error(e, m) is Some {
        None
    } else {
        match e {
            ExporterView::Debian(d) => Some(spec_debian_plan(d, m)),
            ExporterView::AppImage(a) => Some(spec_app_image_plan(a, m)),
            ExporterView::Script(s) => match s.script {
                Some(_) => Some(spec_script_plan(s, m)),
                None => None,
            },
        }
    }
}

/// The exporter's state after a run is started on it: untouched when
/// disabled; failed on its validation error; in progress once its process
/// is to be launched; and immediately successful when there is nothing to
/// launch (a script target without a script).
pub open spec fn spec_after_run(e: ExporterView, m: MetaView) -> ExporterView {
    if !e.enabled() {
        e
    } else {
        match spec_run_error(e, m) {
            Some(err) => e.with_status(StatusView::Failure(err.message())),
            None => match spec_run_launch(e, m) {
                Some(_) => e.with_status(StatusView::InProgress),
                None => e.with_status(StatusView::Success),
            },
        }
    }
}

impl Exporter {
    /// Whether this exporter takes part in runs.
    pub fn get_enable(&self) -> (r: bool)
        ensures
            r == self@.enabled(),
    {
        match self {
            Exporter::Debian(d) => d.enable,
            Exporter::AppImage(a) => a.enable,
            Exporter::Script(s) => s.enable,
        }
    }

    /// Whether this exporter is marked to be dropped from the collection.
    pub fn get_remove(&self) -> (r: bool)
        ensures
            r == self@.marked_removed(),
    {
        match self {
            Exporter::Debian(d) => d.remove,
            Exporter::AppImage(a) => a.remove,
            Exporter::Script(s) => s.remove,
        }
    }

    /// The exporter's current lifecycle state.
    pub fn get_status(&self) -> (r: &ExportStatus)
        ensures
            r@ == self@.status(),
    {
        match self {
            Exporter::Debian(d) => &d.status,
            Exporter::AppImage(a) => &a.status,
            Exporter::Script(s) => &s.status,
        }
    }

    /// Replace the exporter's status, leaving its configuration alone.
    pub fn set_status(&mut self, status: ExportStatus)
        ensures
            final(self)@ == old(self)@.with_status(status@),
    {
        match self {
            Exporter::Debian(d) => {
                d.status = status;
            },
            Exporter::AppImage(a) => {
                a.status = status;
            },
            Exporter::Script(s) => {
                s.status = status;
            },
        }
    }

    /// Settled: disabled, or not in the middle of a run.
    pub fn is_settled(&self) -> (r: bool)
        ensures
            r == self@.is_settled(),
    {
        if !self.get_enable() {
            true
        } else {
            !matches!(self.get_status(), ExportStatus::InProgress)
        }
    }

    /// Record the completion event of this exporter's launched process:
    /// the status becomes the event's terminal state and the exporter is
    /// settled.
    pub fn apply_outcome(&mut self, outcome: Outcome)
        ensures
            final(self)@ == old(self)@.with_status(outcome@.as_status()),
            final(self)@.is_settled(),
    {
        let status = outcome.into_status();
        self.set_status(status);
    }

    /// Start a run of this exporter on the given metadata.
    ///
    /// A disabled exporter is left untouched and nothing is asked of the
    /// caller.  Otherwise the metadata is validated: on failure the status
    /// becomes that failure and the error is returned; on success the
    /// returned staging plan is the caller's to carry out, with the status
    /// at `InProgress` — except for a script target without a script, which
    /// settles as an immediate success.
    pub fn run(&mut self, meta: &Meta) -> (r: Result<Option<StagingPlan>, ExportError>)
        ensures
            final(self)@ == spec_after_run(old(self)@, meta@),
            match spec_run_error(old(self)@, meta@) {
                Some(err) => r matches Err(e) && e@ == err,
                None => match spec_run_launch(old(self)@, meta@) {
                    Some(p) => r matches Ok(Some(plan)) && plan@ == p,
                    None => r matches Ok(None),
                },
            },
    {
        if !self.get_enable() {
            return Ok(None);
        }
        let result = match self {
            Exporter::Debian(d) => match d.validate_and_prepare(meta) {
                Ok(plan) => Ok(Some(plan)),
                Err(e) => Err(e),
            },
            Exporter::AppImage(a) => match a.validate_and_prepare(meta) {
                Ok(plan) => Ok(Some(plan)),
                Err(e) => Err(e),
            },
            Exporter::Script(s) => s.validate_and_prepare(meta),
        };
        match &result {
            Ok(Some(_)) => self.set_status(ExportStatus::InProgress),
            Ok(None) => self.set_status(ExportStatus::Success),
            Err(e) => {
                let message = e.message().clone();
                self.set_status(ExportStatus::Failure(message));
            },
        }
        result
    }
}

/// Law: a disabled exporter is settled, whatever its status.
pub proof fn lemma_disabled_is_settled(e: ExporterView)
    requires
        !e.enabled(),
    ensures
        e.is_settled(),
{
}

/// Law: once a run launches an enabled exporter's process, the exporter is
/// not settled.
pub proof fn lemma_launched_not_settled(e: ExporterView, m: MetaView)
    requires
        e.enabled(),
        spec_run_launch(e, m) is Some,
    ensures
        !spec_after_run(e, m).is_settled(),
{
}

/// Law: a completion event settles the exporter it reaches, so an enabled
/// exporter stays unsettled exactly until its terminal event is polled.
pub proof fn lemma_outcome_settles(e: ExporterView, o: OutcomeView)
    ensures
        e.with_status(o.as_status()).is_settled(),
{
}

} // verus!
