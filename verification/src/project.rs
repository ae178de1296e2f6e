//! The orchestrator: a project's metadata with its two ordered exporter
//! collections, the fan-out of a run over every enabled exporter, the poll
//! side of the completion protocol, and the aggregate settled signal.

use vstd::prelude::*;

use crate::export::ExportError;
use crate::export::ExportErrorView;
use crate::export::Exporter;
use crate::export::ExporterView;
use crate::export::spec_after_run;
use crate::export::spec_run_error;
use crate::export::spec_run_launch;
use crate::meta::Meta;
use crate::meta::MetaView;
use crate::plan::StagingPlan;
use crate::plan::StagingPlanView;
use crate::status::ExportStatus;
use crate::status::Outcome;

verus! {

/// The spec-level images of a collection of exporters.
pub open spec fn exporter_views(s: Seq<Exporter>) -> Seq<ExporterView> {
    s.map_values(|e: Exporter| e@)
}

/// One process to launch on behalf of the exporter at `index` in the
/// collection a run was fanned out over.
pub struct Launch {
    pub index: usize,
    pub plan: StagingPlan,
}

/// Spec-level image of a [`Launch`].
#[verifier::ext_equal]
pub struct LaunchView {
    pub index: int,
    pub plan: StagingPlanView,
}

impl View for Launch {
    type V = LaunchView;

    open spec fn view(&self) -> LaunchView {
        LaunchView { index: self.index as int, plan: self.plan@ }
    }
}

/// What a fanned-out run hands back to the caller: the processes to launch,
/// in collection order, and the first error met while starting the
/// exporters.
pub struct RunReport {
    pub launches: Vec<Launch>,
    pub first_error: Option<ExportError>,
}

/// Spec-level image of a [`RunReport`].
#[verifier::ext_equal]
pub struct RunReportView {
    pub launches: Seq<LaunchView>,
    pub first_error: Option<ExportErrorView>,
}

impl View for RunReport {
    type V = RunReportView;

    open spec fn view(&self) -> RunReportView {
        RunReportView {
            launches: self.launches@.map_values(|l: Launch| l@),
            first_error: match self.first_error {
                Some(ref e) => Some(e@),
                None => None,
            },
        }
    }
}

/// The launches a run over `s` asks for: one per exporter that hands out a
/// staging plan, carrying its index, in collection order.
pub open spec fn spec_launches(s: Seq<ExporterView>, m: MetaView) -> Seq<LaunchView>
    decreases s.len(),
{
    if s.len() == 0 {
        Seq::empty()
    } else {
        spec_launches(s.drop_last(), m) + (match spec_run_launch(s.last(), m) {
            Some(plan) => seq![LaunchView { index: s.len() - 1, plan }],
            None => Seq::empty(),
        })
    }
}

/// The first error a run over `s` meets, in collection order.
pub open spec fn spec_first_error(s: Seq<ExporterView>, m: MetaView) -> Option<ExportErrorView>
    decreases s.len(),
{
    if s.len() == 0 {
        None
    } else {
        match spec_run_error(s.first(), m) {
            Some(e) => Some(e),
            None => spec_first_error(s.drop_first(), m),
        }
    }
}

/// Every exporter of the collection is settled.  Vacuously true of an empty
/// collection.
pub open spec fn spec_all_settled(s: Seq<ExporterView>) -> bool {
    forall|i: int| 0 <= i < s.len() ==> s[i].is_settled()
}

/// The collection with the removal-marked exporters filtered out, order
/// kept.
pub open spec fn spec_keep_unmarked(s: Seq<ExporterView>) -> Seq<ExporterView>
    decreases s.len(),
{
    if s.len() == 0 {
        Seq::empty()
    } else if s.first().marked_removed() {
        spec_keep_unmarked(s.drop_first())
    } else {
        seq![s.first()] + spec_keep_unmarked(s.drop_first())
    }
}

/// Start a run on every exporter of the collection, in order.
///
/// Each exporter moves to the state [`spec_after_run`] gives it: a disabled
/// one is skipped, a failing one records its failure, and the others hand
/// out their staging plans.  One exporter's failure never keeps the
/// exporters after it from starting; the first error met is reported, and
/// every launch that could start is in the report.
pub fn run_all(exporters: &mut Vec<Exporter>, meta: &Meta) -> (r: RunReport)
    ensures
        final(exporters)@.len() == old(exporters)@.len(),
        forall|k: int|
            0 <= k < old(exporters)@.len() ==> final(exporters)@[k]@ == spec_after_run(
                old(exporters)@[k]@,
                meta@,
            ),
        r@.launches == spec_launches(exporter_views(old(exporters)@), meta@),
        r@.first_error == spec_first_error(exporter_views(old(exporters)@), meta@),
{
    let ghost orig = exporter_views(exporters@);
    proof {
        assert(orig.skip(0) =~= orig);
    }
    let mut launches: Vec<Launch> = Vec::new();
    let mut first_error: Option<ExportError> = None;
    let mut i: usize = 0;
    while i < exporters.len()
        invariant
            i <= exporters@.len(),
            exporters@.len() == orig.len(),
            orig == exporter_views(old(exporters)@),
            forall|k: int| i <= k < orig.len() ==> exporters@[k]@ == orig[k],
            forall|k: int|
                0 <= k < i ==> exporters@[k]@ == spec_after_run(orig[k], meta@),
            launches@.map_values(|l: Launch| l@) == spec_launches(orig.take(i as int), meta@),
            match first_error {
                Some(ref e) => spec_first_error(orig, meta@) == Some(e@),
                None => spec_first_error(orig, meta@) == spec_first_error(
                    orig.skip(i as int),
                    meta@,
                ),
            },
        decreases exporters@.len() - i,
    {
        let ghost pre = exporters@;
        let mut e = exporters.remove(i);
        let result = e.run(meta);
        exporters.insert(i, e);
        proof {
            assert(exporters@ =~= pre.update(i as int, e));
        }
        match result {
            Ok(Some(plan)) => {
                launches.push(Launch { index: i, plan });
            },
            Ok(None) => {},
            Err(err) => {
                if first_error.is_none() {
                    first_error = Some(err);
                }
            },
        }
        i += 1;
        proof {
            assert(orig.take(i as int).drop_last() =~= orig.take(i as int - 1));
            assert(orig.take(i as int).last() == orig[i as int - 1]);
            assert(launches@.map_values(|l: Launch| l@) =~~= spec_launches(
                orig.take(i as int),
                meta@,
            ));
            assert(orig.skip(i as int - 1).drop_first() =~= orig.skip(i as int));
            assert(orig.skip(i as int - 1).first() == orig[i as int - 1]);
        }
    }
    proof {
        assert(orig.take(orig.len() as int) =~= orig);
        assert(orig.skip(orig.len() as int) =~= Seq::<ExporterView>::empty());
        assert forall|k: int| 0 <= k < old(exporters)@.len() implies exporters@[k]@
            == spec_after_run(old(exporters)@[k]@, meta@) by {
            assert(orig[k] == exporter_views(old(exporters)@)[k]);
        }
    }
    RunReport { launches, first_error }
}

/// Record a completion event for the exporter at `index`, leaving every
/// other exporter alone.
pub fn apply_outcome_at(exporters: &mut Vec<Exporter>, index: usize, outcome: Outcome)
    requires
        index < old(exporters)@.len(),
    ensures
        final(exporters)@.len() == old(exporters)@.len(),
        final(exporters)@[index as int]@ == old(exporters)@[index as int]@.with_status(
            outcome@.as_status(),
        ),
        final(exporters)@[index as int]@.is_settled(),
        forall|k: int|
            0 <= k < old(exporters)@.len() && k != index ==> final(exporters)@[k]
                == old(exporters)@[k],
{
    let ghost pre = exporters@;
    let mut e = exporters.remove(index);
    e.apply_outcome(outcome);
    exporters.insert(index, e);
    proof {
        assert(exporters@ =~= pre.update(index as int, e));
    }
}

/// Whether every exporter of the collection is settled: the signal the
/// caller waits on before it declares a run over.
pub fn all_settled(exporters: &Vec<Exporter>) -> (r: bool)
    ensures
        r == spec_all_settled(exporter_views(exporters@)),
{
    let mut i: usize = 0;
    while i < exporters.len()
        invariant
            i <= exporters@.len(),
            forall|k: int| 0 <= k < i ==> exporter_views(exporters@)[k].is_settled(),
        decreases exporters@.len() - i,
    {
        if !exporters[i].is_settled() {
            proof {
                assert(!exporter_views(exporters@)[i as int].is_settled());
            }
            return false;
        }
        i += 1;
    }
    true
}

/// Whether any exporter of the collection ended in failure: decides the
/// non-zero exit of a driving front end once everything is settled.
pub fn any_failure(exporters: &Vec<Exporter>) -> (r: bool)
    ensures
        r == exists|i: int|
            0 <= i < exporters@.len() && exporter_views(exporters@)[i].status() is Failure,
{
    let mut i: usize = 0;
    while i < exporters.len()
        invariant
            i <= exporters@.len(),
            forall|k: int| 0 <= k < i ==> !(exporter_views(exporters@)[k].status() is Failure),
        decreases exporters@.len() - i,
    {
        if matches!(exporters[i].get_status(), ExportStatus::Failure(_)) {
            proof {
                assert(exporter_views(exporters@)[i as int].status() is Failure);
            }
            return true;
        }
        proof {
            assert(!(exporter_views(exporters@)[i as int].status() is Failure));
        }
        i += 1;
    }
    false
}

/// Drop every removal-marked exporter from the collection, keeping the
/// order of the rest.
pub fn remove_marked(exporters: &mut Vec<Exporter>)
    ensures
        exporter_views(final(exporters)@) == spec_keep_unmarked(exporter_views(old(exporters)@)),
{
    let ghost orig = exporter_views(exporters@);
    let mut kept: Vec<Exporter> = Vec::new();
    while exporters.len() > 0
        invariant
            orig == exporter_views(old(exporters)@),
            spec_keep_unmarked(orig) == exporter_views(kept@) + spec_keep_unmarked(
                exporter_views(exporters@),
            ),
        decreases exporters@.len(),
    {
        let ghost pre = exporter_views(exporters@);
        let e = exporters.remove(0);
        proof {
            assert(exporter_views(exporters@) =~= pre.drop_first());
            assert(pre.first() == e@);
        }
        if !e.get_remove() {
            kept.push(e);
            proof {
                assert(exporter_views(kept@) + spec_keep_unmarked(exporter_views(exporters@))
                    =~= (exporter_views(kept@).drop_last() + (seq![e@] + spec_keep_unmarked(
                    exporter_views(exporters@),
                ))));
            }
        }
    }
    proof {
        assert(exporter_views(exporters@) =~= Seq::<ExporterView>::empty());
        assert(exporter_views(kept@) + spec_keep_unmarked(exporter_views(exporters@))
            =~= exporter_views(kept@));
    }
    *exporters = kept;
}

/// A project: the metadata record and the two ordered exporter collections,
/// one driven by the compile action and one by the package action.
pub struct Project {
    pub meta: Meta,
    pub compile: Vec<Exporter>,
    pub package: Vec<Exporter>,
}

/// Spec-level image of a [`Project`].
#[verifier::ext_equal]
pub struct ProjectView {
    pub meta: MetaView,
    pub compile: Seq<ExporterView>,
    pub package: Seq<ExporterView>,
}

impl View for Project {
    type V = ProjectView;

    open spec fn view(&self) -> ProjectView {
        ProjectView {
            meta: self.meta@,
            compile: exporter_views(self.compile@),
            package: exporter_views(self.package@),
        }
    }
}

impl Default for Project {
    /// A project with fresh metadata and no exporters.
    fn default() -> (r: Self)
        ensures
            r@ == (ProjectView {
                meta: MetaView::empty(),
                compile: Seq::empty(),
                package: Seq::empty(),
            }),
    {
        let r = Project { meta: Meta::default(), compile: Vec::new(), package: Vec::new() };
        proof {
            assert(r@ =~~= (ProjectView {
                meta: MetaView::empty(),
                compile: Seq::empty(),
                package: Seq::empty(),
            }));
        }
        r
    }
}

impl Project {
    /// A fresh project whose metadata records the given project path and
    /// nothing else.
    pub fn new(path: String) -> (r: Project)
        ensures
            r@ == (ProjectView {
                meta: MetaView { path: path@, ..MetaView::empty() },
                compile: Seq::empty(),
                package: Seq::empty(),
            }),
    {
        let mut meta = Meta::default();
        meta.path = path;
        let r = Project { meta, compile: Vec::new(), package: Vec::new() };
        proof {
            assert(r@ =~~= (ProjectView {
                meta: MetaView { path: r.meta.path@, ..MetaView::empty() },
                compile: Seq::empty(),
                package: Seq::empty(),
            }));
        }
        r
    }

    /// Start the compile run: fan out over the compile collection.
    pub fn compile(&mut self) -> (r: RunReport)
        ensures
            final(self)@.meta == old(self)@.meta,
            final(self)@.package == old(self)@.package,
            final(self)@.compile.len() == old(self)@.compile.len(),
            forall|k: int|
                0 <= k < old(self)@.compile.len() ==> final(self)@.compile[k] == spec_after_run(
                    old(self)@.compile[k],
                    old(self)@.meta,
                ),
            r@.launches == spec_launches(old(self)@.compile, old(self)@.meta),
            r@.first_error == spec_first_error(old(self)@.compile, old(self)@.meta),
    {
        run_all(&mut self.compile, &self.meta)
    }

    /// Start the package run: fan out over the package collection.
    pub fn package(&mut self) -> (r: RunReport)
        ensures
            final(self)@.meta == old(self)@.meta,
            final(self)@.compile == old(self)@.compile,
            final(self)@.package.len() == old(self)@.package.len(),
            forall|k: int|
                0 <= k < old(self)@.package.len() ==> final(self)@.package[k] == spec_after_run(
                    old(self)@.package[k],
                    old(self)@.meta,
                ),
            r@.launches == spec_launches(old(self)@.package, old(self)@.meta),
            r@.first_error == spec_first_error(old(self)@.package, old(self)@.meta),
    {
        run_all(&mut self.package, &self.meta)
    }
}

/// Law: over an empty exporter collection, "all settled" holds vacuously.
pub proof fn lemma_all_settled_empty(s: Seq<ExporterView>)
    requires
        s.len() == 0,
    ensures
        spec_all_settled(s),
{
}

/// Every exporter that hands out a staging plan appears in the launches of
/// a run over its collection, under its own index.
proof fn lemma_launches_contains(s: Seq<ExporterView>, m: MetaView, j: int)
    requires
        0 <= j < s.len(),
        spec_run_launch(s[j], m) is Some,
    ensures
        exists|k: int|
            0 <= k < spec_launches(s, m).len() && (#[trigger] spec_launches(s, m)[k]).index == j
                && Some(spec_launches(s, m)[k].plan) == spec_run_launch(s[j], m),
    decreases s.len(),
{
    if j == s.len() - 1 {
        let k = spec_launches(s, m).len() - 1;
        assert(spec_launches(s, m)[k].index == j && Some(spec_launches(s, m)[k].plan)
            == spec_run_launch(s[j], m));
    } else {
        lemma_launches_contains(s.drop_last(), m, j);
        let k = choose|k: int|
            0 <= k < spec_launches(s.drop_last(), m).len() && (#[trigger] spec_launches(
                s.drop_last(),
                m,
            )[k]).index == j && Some(spec_launches(s.drop_last(), m)[k].plan) == spec_run_launch(
                s.drop_last()[j],
                m,
            );
        assert(spec_launches(s, m)[k].index == j && Some(spec_launches(s, m)[k].plan)
            == spec_run_launch(s[j], m));
    }
}

/// Law: one exporter's validation failure does not keep another from
/// launching.  After a run over the collection, a failing exporter sits at
/// `Failure`, while an exporter that validated is launching: it sits at
/// `InProgress` and its staging plan is in the report, under its index.
pub proof fn lemma_run_all_independence(s: Seq<ExporterView>, m: MetaView, i: int, j: int)
    requires
        0 <= i < s.len(),
        0 <= j < s.len(),
        spec_run_error(s[i], m) is Some,
        spec_run_launch(s[j], m) is Some,
    ensures
        spec_after_run(s[i], m).status() is Failure,
        spec_after_run(s[j], m).status() is InProgress,
        exists|k: int|
            0 <= k < spec_launches(s, m).len() && (#[trigger] spec_launches(s, m)[k]).index == j
                && Some(spec_launches(s, m)[k].plan) == spec_run_launch(s[j], m),
{
    lemma_launches_contains(s, m, j);
}

} // verus!
