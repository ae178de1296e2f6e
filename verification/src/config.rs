//! The serializable shape of a project: the metadata record and the
//! exporter configurations, with every transient field (run status,
//! removal marks) left out.
//!
//! Persistence itself lives outside this library; what is proved here is
//! the round trip: a configuration taken from a project and brought back
//! reproduces the project exactly, except the transient fields, which come
//! back at their defaults.

use vstd::prelude::*;

use crate::app_image::AppImage;
use crate::app_image::AppImageView;
use crate::debian::Debian;
use crate::debian::DebianView;
use crate::export::Exporter;
use crate::export::ExporterView;
use crate::meta::Meta;
use crate::meta::MetaView;
use crate::project::Project;
use crate::project::ProjectView;
use crate::script::Layout;
use crate::script::LayoutView;
use crate::script::Script;
use crate::script::ScriptView;
use crate::status::ExportStatus;
use crate::status::StatusView;

verus! {

/// The persisted shape of one typed script parameter.
pub enum LayoutConfig {
    Text { name: String, data: String },
    Integer { name: String, data: i64 },
    Decimal { name: String, data: String },
    Boolean { name: String, data: bool },
}

/// Spec-level image of a [`LayoutConfig`].
#[verifier::ext_equal]
pub enum LayoutConfigView {
    Text { name: Seq<char>, data: Seq<char> },
    Integer { name: Seq<char>, data: i64 },
    Decimal { name: Seq<char>, data: Seq<char> },
    Boolean { name: Seq<char>, data: bool },
}

impl View for LayoutConfig {
    type V = LayoutConfigView;

    open spec fn view(&self) -> LayoutConfigView {
        match self {
            LayoutConfig::Text { name, data } => LayoutConfigView::Text {
                name: name@,
                data: data@,
            },
            LayoutConfig::Integer { name, data } => LayoutConfigView::Integer {
                name: name@,
                data: *data,
            },
            LayoutConfig::Decimal { name, data } => LayoutConfigView::Decimal {
                name: name@,
                data: data@,
            },
            LayoutConfig::Boolean { name, data } => LayoutConfigView::Boolean {
                name: name@,
                data: *data,
            },
        }
    }
}

/// The persisted shape of one exporter: its configuration fields only.
pub enum ExporterConfig {
    Debian {
        name: String,
        file: String,
        binary: Option<String>,
        script_prior: Option<String>,
        script_after: Option<String>,
        architecture: String,
        enable: bool,
    },
    AppImage { name: String, file: String, binary: String, script: String, enable: bool },
    Script { name: String, script: Option<String>, layout: Vec<LayoutConfig>, enable: bool },
}

/// Spec-level image of an [`ExporterConfig`].
#[verifier::ext_equal]
pub enum ExporterConfigView {
    Debian {
        name: Seq<char>,
        file: Seq<char>,
        binary: Option<Seq<char>>,
        script_prior: Option<Seq<char>>,
        script_after: Option<Seq<char>>,
        architecture: Seq<char>,
        enable: bool,
    },
    AppImage {
        name: Seq<char>,
        file: Seq<char>,
        binary: Seq<char>,
        script: Seq<char>,
        enable: bool,
    },
    Script {
        name: Seq<char>,
        script: Option<Seq<char>>,
        layout: Seq<LayoutConfigView>,
        enable: bool,
    },
}

impl View for ExporterConfig {
    type V = ExporterConfigView;

    open spec fn view(&self) -> ExporterConfigView {
        match self {
            ExporterConfig::Debian {
                name,
                file,
                binary,
                script_prior,
                script_after,
                architecture,
                enable,
            } => ExporterConfigView::Debian {
                name: name@,
                file: file@,
                binary: match binary {
                    Some(path) => Some(path@),
                    None => None,
                },
                script_prior: match script_prior {
                    Some(path) => Some(path@),
                    None => None,
                },
                script_after: match script_after {
                    Some(path) => Some(path@),
                    None => None,
                },
                architecture: architecture@,
                enable: *enable,
            },
            ExporterConfig::AppImage { name, file, binary, script, enable } => {
                ExporterConfigView::AppImage {
                    name: name@,
                    file: file@,
                    binary: binary@,
                    script: script@,
                    enable: *enable,
                }
            },
            ExporterConfig::Script { name, script, layout, enable } => {
                ExporterConfigView::Script {
                    name: name@,
                    script: match script {
                        Some(path) => Some(path@),
                        None => None,
                    },
                    layout: layout@.map_values(|p: LayoutConfig| p@),
                    enable: *enable,
                }
            },
        }
    }
}

/// The persisted shape of a whole project.
pub struct ProjectConfig {
    pub meta: Meta,
    pub compile: Vec<ExporterConfig>,
    pub package: Vec<ExporterConfig>,
}

/// Spec-level image of a [`ProjectConfig`].
#[verifier::ext_equal]
pub struct ProjectConfigView {
    pub meta: MetaView,
    pub compile: Seq<ExporterConfigView>,
    pub package: Seq<ExporterConfigView>,
}

impl View for ProjectConfig {
    type V = ProjectConfigView;

    open spec fn view(&self) -> ProjectConfigView {
        ProjectConfigView {
            meta: self.meta@,
            compile: self.compile@.map_values(|c: ExporterConfig| c@),
            package: self.package@.map_values(|c: ExporterConfig| c@),
        }
    }
}

/// The persisted shape of one script parameter.
pub open spec fn spec_layout_config(p: LayoutView) -> LayoutConfigView {
    match p {
        LayoutView::Text { name, data, .. } => LayoutConfigView::Text { name, data },
        LayoutView::Integer { name, data, .. } => LayoutConfigView::Integer { name, data },
        LayoutView::Decimal { name, data, .. } => LayoutConfigView::Decimal { name, data },
        LayoutView::Boolean { name, data, .. } => LayoutConfigView::Boolean { name, data },
    }
}

/// The parameter a persisted shape comes back as: its removal mark clear.
pub open spec fn spec_layout_from_config(c: LayoutConfigView) -> LayoutView {
    match c {
        LayoutConfigView::Text { name, data } => LayoutView::Text { name, data, remove: false },
        LayoutConfigView::Integer { name, data } => LayoutView::Integer {
            name,
            data,
            remove: false,
        },
        LayoutConfigView::Decimal { name, data } => LayoutView::Decimal {
            name,
            data,
            remove: false,
        },
        LayoutConfigView::Boolean { name, data } => LayoutView::Boolean {
            name,
            data,
            remove: false,
        },
    }
}

/// The persisted shape of one exporter: the configuration fields, without
/// the run status and the removal marks.
pub open spec fn spec_exporter_config(e: ExporterView) -> ExporterConfigView {
    match e {
        ExporterView::Debian(d) => ExporterConfigView::Debian {
            name: d.name,
            file: d.file,
            binary: d.binary,
            script_prior: d.script_prior,
            script_after: d.script_after,
            architecture: d.architecture,
            enable: d.enable,
        },
        ExporterView::AppImage(a) => ExporterConfigView::AppImage {
            name: a.name,
            file: a.file,
            binary: a.binary,
            script: a.script,
            enable: a.enable,
        },
        ExporterView::Script(s) => ExporterConfigView::Script {
            name: s.name,
            script: s.script,
            layout: s.layout.map_values(|p: LayoutView| spec_layout_config(p)),
            enable: s.enable,
        },
    }
}

/// The exporter a persisted shape comes back as: its configuration, with
/// the transient state at its defaults (status `Idle`, nothing marked for
/// removal).
pub open spec fn spec_exporter_from_config(c: ExporterConfigView) -> ExporterView {
    match c {
        ExporterConfigView::Debian {
            name,
            file,
            binary,
            script_prior,
            script_after,
            architecture,
            enable,
        } => ExporterView::Debian(
            DebianView {
                name,
                file,
                binary,
                script_prior,
                script_after,
                architecture,
                enable,
                remove: false,
                status: StatusView::Idle,
            },
        ),
        ExporterConfigView::AppImage { name, file, binary, script, enable } => {
            ExporterView::AppImage(
                AppImageView {
                    name,
                    file,
                    binary,
                    script,
                    enable,
                    remove: false,
                    status: StatusView::Idle,
                },
            )
        },
        ExporterConfigView::Script { name, script, layout, enable } => ExporterView::Script(
            ScriptView {
                name,
                script,
                layout: layout.map_values(|p: LayoutConfigView| spec_layout_from_config(p)),
                enable,
                remove: false,
                status: StatusView::Idle,
            },
        ),
    }
}

/// The persisted shape of a whole project.
pub open spec fn spec_project_config(p: ProjectView) -> ProjectConfigView {
    ProjectConfigView {
        meta: p.meta,
        compile: p.compile.map_values(|e: ExporterView| spec_exporter_config(e)),
        package: p.package.map_values(|e: ExporterView| spec_exporter_config(e)),
    }
}

/// The project a persisted shape comes back as.
pub open spec fn spec_project_from_config(c: ProjectConfigView) -> ProjectView {
    ProjectView {
        meta: c.meta,
        compile: c.compile.map_values(|e: ExporterConfigView| spec_exporter_from_config(e)),
        package: c.package.map_values(|e: ExporterConfigView| spec_exporter_from_config(e)),
    }
}

/// One script parameter with its removal mark cleared.
pub open spec fn spec_reset_layout(p: LayoutView) -> LayoutView {
    match p {
        LayoutView::Text { name, data, .. } => LayoutView::Text { name, data, remove: false },
        LayoutView::Integer { name, data, .. } => LayoutView::Integer {
            name,
            data,
            remove: false,
        },
        LayoutView::Decimal { name, data, .. } => LayoutView::Decimal {
            name,
            data,
            remove: false,
        },
        LayoutView::Boolean { name, data, .. } => LayoutView::Boolean {
            name,
            data,
            remove: false,
        },
    }
}

/// One exporter with its transient state put back at the defaults: status
/// `Idle`, nothing marked for removal.
pub open spec fn spec_reset_exporter(e: ExporterView) -> ExporterView {
    match e {
        ExporterView::Debian(d) => ExporterView::Debian(
            DebianView { remove: false, status: StatusView::Idle, ..d },
        ),
        ExporterView::AppImage(a) => ExporterView::AppImage(
            AppImageView { remove: false, status: StatusView::Idle, ..a },
        ),
        ExporterView::Script(s) => ExporterView::Script(
            ScriptView {
                remove: false,
                status: StatusView::Idle,
                layout: s.layout.map_values(|p: LayoutView| spec_reset_layout(p)),
                ..s
            },
        ),
    }
}

/// A project with every exporter's transient state put back at the
/// defaults.
pub open spec fn spec_reset_transient(p: ProjectView) -> ProjectView {
    ProjectView {
        meta: p.meta,
        compile: p.compile.map_values(|e: ExporterView| spec_reset_exporter(e)),
        package: p.package.map_values(|e: ExporterView| spec_reset_exporter(e)),
    }
}

/// Taking the persisted shape of a brought-back exporter gives back the
/// shape it was built from.
proof fn lemma_exporter_config_round_trip(c: ExporterConfigView)
    ensures
        spec_exporter_config(spec_exporter_from_config(c)) == c,
{
    assert(spec_exporter_config(spec_exporter_from_config(c)) =~~= c);
}

/// Bringing an exporter through its persisted shape only resets its
/// transient state.
proof fn lemma_exporter_reset(e: ExporterView)
    ensures
        spec_exporter_from_config(spec_exporter_config(e)) == spec_reset_exporter(e),
{
    assert(spec_exporter_from_config(spec_exporter_config(e)) =~~= spec_reset_exporter(e));
}

/// Law: a deserialized project configuration re-serializes to the identical
/// configuration, field for field.
pub proof fn lemma_config_round_trip(c: ProjectConfigView)
    ensures
        spec_project_config(spec_project_from_config(c)) == c,
{
    assert forall|k: int| 0 <= k < c.compile.len() implies spec_project_config(
        spec_project_from_config(c),
    ).compile[k] == c.compile[k] by {
        lemma_exporter_config_round_trip(c.compile[k]);
    }
    assert forall|k: int| 0 <= k < c.package.len() implies spec_project_config(
        spec_project_from_config(c),
    ).package[k] == c.package[k] by {
        lemma_exporter_config_round_trip(c.package[k]);
    }
    assert(spec_project_config(spec_project_from_config(c)) =~~= c);
}

/// Law: saving a project and loading it back reproduces it exactly, except
/// the transient fields, which come back at their defaults.
pub proof fn lemma_save_load_round_trip(p: ProjectView)
    ensures
        spec_project_from_config(spec_project_config(p)) == spec_reset_transient(p),
{
    assert forall|k: int| 0 <= k < p.compile.len() implies spec_project_from_config(
        spec_project_config(p),
    ).compile[k] == spec_reset_transient(p).compile[k] by {
        lemma_exporter_reset(p.compile[k]);
    }
    assert forall|k: int| 0 <= k < p.package.len() implies spec_project_from_config(
        spec_project_config(p),
    ).package[k] == spec_reset_transient(p).package[k] by {
        lemma_exporter_reset(p.package[k]);
    }
    assert(spec_project_from_config(spec_project_config(p)) =~~= spec_reset_transient(p));
}

impl Layout {
    /// The parameter's persisted shape.
    fn to_config(&self) -> (r: LayoutConfig)
        ensures
            r@ == spec_layout_config(self@),
    {
        match self {
            Layout::Text { name, data, .. } => LayoutConfig::Text {
                name: name.clone(),
                data: data.clone(),
            },
            Layout::Integer { name, data, .. } => LayoutConfig::Integer {
                name: name.clone(),
                data: *data,
            },
            Layout::Decimal { name, data, .. } => LayoutConfig::Decimal {
                name: name.clone(),
                data: data.clone(),
            },
            Layout::Boolean { name, data, .. } => LayoutConfig::Boolean {
                name: name.clone(),
                data: *data,
            },
        }
    }

    /// The parameter a persisted shape comes back as.
    fn from_config(config: LayoutConfig) -> (r: Layout)
        ensures
            r@ == spec_layout_from_config(config@),
    {
        match config {
            LayoutConfig::Text { name, data } => Layout::Text { name, data, remove: false },
            LayoutConfig::Integer { name, data } => Layout::Integer { name, data, remove: false },
            LayoutConfig::Decimal { name, data } => Layout::Decimal { name, data, remove: false },
            LayoutConfig::Boolean { name, data } => Layout::Boolean { name, data, remove: false },
        }
    }
}

/// Clone an optional path.
fn clone_opt(path: &Option<String>) -> (r: Option<String>)
    ensures
        (match path {
            Some(p) => r matches Some(q) && q@ == p@,
            None => r is None,
        }),
{
    match path {
        Some(p) => Some(p.clone()),
        None => None,
    }
}

impl Exporter {
    /// The exporter's persisted shape: its configuration fields, without
    /// the transient run state.
    pub fn to_config(&self) -> (r: ExporterConfig)
        ensures
            r@ == spec_exporter_config(self@),
    {
        match self {
            Exporter::Debian(d) => {
                let r = ExporterConfig::Debian {
                    name: d.name.clone(),
                    file: d.file.clone(),
                    binary: clone_opt(&d.binary),
                    script_prior: clone_opt(&d.script_prior),
                    script_after: clone_opt(&d.script_after),
                    architecture: d.architecture.clone(),
                    enable: d.enable,
                };
                proof {
                    assert(r@ =~~= spec_exporter_config(self@));
                }
                r
            },
            Exporter::AppImage(a) => {
                let r = ExporterConfig::AppImage {
                    name: a.name.clone(),
                    file: a.file.clone(),
                    binary: a.binary.clone(),
                    script: a.script.clone(),
                    enable: a.enable,
                };
                proof {
                    assert(r@ =~~= spec_exporter_config(self@));
                }
                r
            },
            Exporter::Script(s) => {
                let mut layout: Vec<LayoutConfig> = Vec::new();
                let mut i: usize = 0;
                while i < s.layout.len()
                    invariant
                        i <= s.layout@.len(),
                        layout@.len() == i,
                        forall|k: int|
                            0 <= k < i ==> layout@[k]@ == spec_layout_config(s.layout@[k]@),
                    decreases s.layout@.len() - i,
                {
                    layout.push(s.layout[i].to_config());
                    i += 1;
                }
                let r = ExporterConfig::Script {
                    name: s.name.clone(),
                    script: clone_opt(&s.script),
                    layout,
                    enable: s.enable,
                };
                proof {
                    assert(r@ =~~= spec_exporter_config(self@));
                }
                r
            },
        }
    }

    /// The exporter a persisted shape comes back as: its configuration,
    /// with the transient state at its defaults.
    pub fn from_config(config: ExporterConfig) -> (r: Exporter)
        ensures
            r@ == spec_exporter_from_config(config@),
    {
        match config {
            ExporterConfig::Debian {
                name,
                file,
                binary,
                script_prior,
                script_after,
                architecture,
                enable,
            } => {
                let r = Exporter::Debian(
                    Debian {
                        name,
                        file,
                        binary,
                        script_prior,
                        script_after,
                        architecture,
                        enable,
                        remove: false,
                        status: ExportStatus::Idle,
                    },
                );
                proof {
                    assert(r@ =~~= spec_exporter_from_config(config@));
                }
                r
            },
            ExporterConfig::AppImage { name, file, binary, script, enable } => {
                let r = Exporter::AppImage(
                    AppImage {
                        name,
                        file,
                        binary,
                        script,
                        enable,
                        remove: false,
                        status: ExportStatus::Idle,
                    },
                );
                proof {
                    assert(r@ =~~= spec_exporter_from_config(config@));
                }
                r
            },
            ExporterConfig::Script { name, script, layout, enable } => {
                let ghost config_layout = layout@.map_values(|p: LayoutConfig| p@);
                let mut params: Vec<Layout> = Vec::new();
                let mut remaining = layout;
                while remaining.len() > 0
                    invariant
                        params@.len() + remaining@.len() == config_layout.len(),
                        forall|k: int|
                            0 <= k < params@.len() ==> params@[k]@ == spec_layout_from_config(
                                config_layout[k],
                            ),
                        forall|k: int|
                            0 <= k < remaining@.len() ==> remaining@[k]@ == config_layout[params@.len()
                                + k],
                    decreases remaining@.len(),
                {
                    let ghost pre = remaining@;
                    let param = remaining.remove(0);
                    proof {
                        assert(remaining@ =~= pre.drop_first());
                    }
                    params.push(Layout::from_config(param));
                }
                let r = Exporter::Script(
                    Script {
                        name,
                        script,
                        layout: params,
                        enable,
                        remove: false,
                        status: ExportStatus::Idle,
                    },
                );
                proof {
                    assert(r@ =~~= spec_exporter_from_config(config@));
                }
                r
            },
        }
    }
}

impl Project {
    /// The project's persisted shape: metadata and exporter configurations,
    /// without any transient run state.
    pub fn to_config(&self) -> (r: ProjectConfig)
        ensures
            r@ == spec_project_config(self@),
    {
        let mut compile: Vec<ExporterConfig> = Vec::new();
        let mut i: usize = 0;
        while i < self.compile.len()
            invariant
                i <= self.compile@.len(),
                compile@.len() == i,
                forall|k: int|
                    0 <= k < i ==> compile@[k]@ == spec_exporter_config(self.compile@[k]@),
            decreases self.compile@.len() - i,
        {
            compile.push(self.compile[i].to_config());
            i += 1;
        }
        let mut package: Vec<ExporterConfig> = Vec::new();
        let mut j: usize = 0;
        while j < self.package.len()
            invariant
                j <= self.package@.len(),
                package@.len() == j,
                forall|k: int|
                    0 <= k < j ==> package@[k]@ == spec_exporter_config(self.package@[k]@),
            decreases self.package@.len() - j,
        {
            package.push(self.package[j].to_config());
            j += 1;
        }
        let r = ProjectConfig { meta: self.meta.clone(), compile, package };
        proof {
            assert(r@ =~~= spec_project_config(self@));
        }
        r
    }

    /// The project a persisted shape comes back as: the stored
    /// configuration, every exporter settled back to its default transient
    /// state.
    pub fn from_config(config: ProjectConfig) -> (r: Project)
        ensures
            r@ == spec_project_from_config(config@),
    {
        let ghost config_view = config@;
        let ProjectConfig { meta, compile, package } = config;
        let ghost compile_views = compile@.map_values(|c: ExporterConfig| c@);
        let mut compile_exporters: Vec<Exporter> = Vec::new();
        let mut remaining = compile;
        while remaining.len() > 0
            invariant
                compile_exporters@.len() + remaining@.len() == compile_views.len(),
                forall|k: int|
                    0 <= k < compile_exporters@.len() ==> compile_exporters@[k]@
                        == spec_exporter_from_config(compile_views[k]),
                forall|k: int|
                    0 <= k < remaining@.len() ==> remaining@[k]@ == compile_views[compile_exporters@.len()
                        + k],
            decreases remaining@.len(),
        {
            let ghost pre = remaining@;
            let c = remaining.remove(0);
            proof {
                assert(remaining@ =~= pre.drop_first());
            }
            compile_exporters.push(Exporter::from_config(c));
        }
        let ghost package_views = package@.map_values(|c: ExporterConfig| c@);
        let mut package_exporters: Vec<Exporter> = Vec::new();
        let mut remaining_package = package;
        while remaining_package.len() > 0
            invariant
                package_exporters@.len() + remaining_package@.len() == package_views.len(),
                forall|k: int|
                    0 <= k < package_exporters@.len() ==> package_exporters@[k]@
                        == spec_exporter_from_config(package_views[k]),
                forall|k: int|
                    0 <= k < remaining_package@.len() ==> remaining_package@[k]@
                        == package_views[package_exporters@.len() + k],
            decreases remaining_package@.len(),
        {
            let ghost pre = remaining_package@;
            let c = remaining_package.remove(0);
            proof {
                assert(remaining_package@ =~= pre.drop_first());
            }
            package_exporters.push(Exporter::from_config(c));
        }
        let r = Project { meta, compile: compile_exporters, package: package_exporters };
        proof {
            assert(r@ =~~= spec_project_from_config(config_view));
        }
        r
    }
}

} // verus!
