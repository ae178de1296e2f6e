//! The custom-script exporter: validates the metadata and plans a run of a
//! user-chosen script whose environment carries the project metadata and an
//! ordered list of typed parameters.

use vstd::prelude::*;

use crate::casing::to_upper_text;
use crate::casing::upper_of;
use crate::digits::int_to_text;
use crate::digits::spec_int_digits;
use crate::export::ExportError;
use crate::export::ExportErrorView;
use crate::meta::Meta;
use crate::meta::MetaView;
use crate::plan::CommandPlan;
use crate::plan::CommandPlanView;
use crate::plan::EnvVar;
use crate::plan::EnvVarView;
use crate::plan::StagingPlan;
use crate::plan::StagingPlanView;
use crate::status::ExportStatus;
use crate::status::StatusView;

verus! {

/// One typed key/value parameter of a custom-script run.  The decimal kind
/// keeps its value as the decimal text it is rendered with.  `remove` is a
/// transient marker and never persisted.
pub enum Layout {
    Text { name: String, data: String, remove: bool },
    Integer { name: String, data: i64, remove: bool },
    Decimal { name: String, data: String, remove: bool },
    Boolean { name: String, data: bool, remove: bool },
}

/// Spec-level image of a [`Layout`].
#[verifier::ext_equal]
pub enum LayoutView {
    Text { name: Seq<char>, data: Seq<char>, remove: bool },
    Integer { name: Seq<char>, data: i64, remove: bool },
    Decimal { name: Seq<char>, data: Seq<char>, remove: bool },
    Boolean { name: Seq<char>, data: bool, remove: bool },
}

impl View for Layout {
    type V = LayoutView;

    open spec fn view(&self) -> LayoutView {
        match self {
            Layout::Text { name, data, remove } => LayoutView::Text {
                name: name@,
                data: data@,
                remove: *remove,
            },
            Layout::Integer { name, data, remove } => LayoutView::Integer {
                name: name@,
                data: *data,
                remove: *remove,
            },
            Layout::Decimal { name, data, remove } => LayoutView::Decimal {
                name: name@,
                data: data@,
                remove: *remove,
            },
            Layout::Boolean { name, data, remove } => LayoutView::Boolean {
                name: name@,
                data: *data,
                remove: *remove,
            },
        }
    }
}

impl LayoutView {
    /// The parameter's name as entered by the user.
    pub open spec fn param_name(self) -> Seq<char> {
        match self {
            LayoutView::Text { name, .. } => name,
            LayoutView::Integer { name, .. } => name,
            LayoutView::Decimal { name, .. } => name,
            LayoutView::Boolean { name, .. } => name,
        }
    }

    /// The text the parameter's value is rendered with: verbatim for text
    /// and decimal parameters, the decimal digit string for integers, and
    /// `1`/`0` for booleans.
    pub open spec fn rendered_value(self) -> Seq<char> {
        match self {
            LayoutView::Text { data, .. } => data,
            LayoutView::Integer { data, .. } => spec_int_digits(data as int),
            LayoutView::Decimal { data, .. } => data,
            LayoutView::Boolean { data, .. } => if data {
                "1"@
            } else {
                "0"@
            },
        }
    }

    /// The environment variable the parameter becomes: its name uppercased,
    /// its value rendered.
    pub open spec fn as_env(self) -> EnvVarView {
        EnvVarView { name: upper_of(self.param_name()), value: self.rendered_value() }
    }
}

/// Configuration of one custom-script target, plus its transient run state
/// (`remove` and `status` are never persisted).
pub struct Script {
    pub name: String,
    pub script: Option<String>,
    pub layout: Vec<Layout>,
    pub enable: bool,
    pub remove: bool,
    pub status: ExportStatus,
}

/// Spec-level image of a [`Script`].
#[verifier::ext_equal]
pub struct ScriptView {
    pub name: Seq<char>,
    pub script: Option<Seq<char>>,
    pub layout: Seq<LayoutView>,
    pub enable: bool,
    pub remove: bool,
    pub status: StatusView,
}

impl View for Script {
    type V = ScriptView;

    open spec fn view(&self) -> ScriptView {
        ScriptView {
            name: self.name@,
            script: match self.script {
                Some(ref path) => Some(path@),
                None => None,
            },
            layout: self.layout@.map_values(|p: Layout| p@),
            enable: self.enable,
            remove: self.remove,
            status: self.status@,
        }
    }
}

impl Default for Script {
    /// A fresh, disabled exporter with no script and no parameters.
    fn default() -> (r: Self)
        ensures
            r@ == (ScriptView {
                name: Seq::empty(),
                script: None,
                layout: Seq::empty(),
                enable: false,
                remove: false,
                status: StatusView::Idle,
            }),
    {
        let r = Script {
            name: String::new(),
            script: None,
            layout: Vec::new(),
            enable: false,
            remove: false,
            status: ExportStatus::Idle,
        };
        proof {
            assert(r@ =~= (ScriptView {
                name: Seq::empty(),
                script: None,
                layout: Seq::empty(),
                enable: false,
                remove: false,
                status: StatusView::Idle,
            }));
        }
        r
    }
}

/// The custom-script run starts only when the project has a name and a
/// version.
pub open spec fn spec_script_valid(m: MetaView) -> bool {
    m.name.len() > 0 && m.version.len() > 0
}

/// The message of the validation error: the missing name is reported first.
pub open spec fn spec_script_error(m: MetaView) -> Seq<char> {
    if m.name.len() == 0 {
        "Custom Script: Project name cannot be empty."@
    } else {
        "Custom Script: Project version cannot be empty."@
    }
}

/// The metadata environment every custom-script run carries, in order.  A
/// project without an icon hands an empty `BOONDLE_ICON`.
pub open spec fn spec_script_base_env(m: MetaView) -> Seq<EnvVarView> {
    seq![
        EnvVarView { name: "BOONDLE_NAME"@, value: m.name },
        EnvVarView {
            name: "BOONDLE_ICON"@,
            value: match m.icon {
                Some(icon) => icon,
                None => Seq::empty(),
            },
        },
        EnvVarView { name: "BOONDLE_INFO"@, value: m.info },
        EnvVarView { name: "BOONDLE_FROM"@, value: m.from },
        EnvVarView { name: "BOONDLE_VERSION"@, value: m.version },
        EnvVarView { name: "BOONDLE_NAME_GENERIC"@, value: m.name_generic },
        EnvVarView { name: "BOONDLE_NAME_COMMENT"@, value: m.comment },
        EnvVarView { name: "BOONDLE_NAME_CATEGORY"@, value: m.category },
        EnvVarView { name: "BOONDLE_NAME_KEY_WORD"@, value: m.key_word },
    ]
}

/// The whole environment of a custom-script run: the metadata variables
/// followed by one variable per parameter, in the parameters' order.
pub open spec fn spec_script_env(layout: Seq<LayoutView>, m: MetaView) -> Seq<EnvVarView> {
    spec_script_base_env(m) + layout.map_values(|p: LayoutView| p.as_env())
}

/// The full staging plan of a custom-script run: no staged tree, just the
/// script invoked with the run's environment.
pub open spec fn spec_script_plan(s: ScriptView, m: MetaView) -> StagingPlanView
    recommends
        s.script is Some,
{
    StagingPlanView {
        dirs: Seq::empty(),
        files: Seq::empty(),
        command: CommandPlanView {
            program: match s.script {
                Some(path) => path,
                None => Seq::empty(),
            },
            args: Seq::empty(),
            env: spec_script_env(s.layout, m),
        },
    }
}

impl Script {
    /// Check the required metadata and lay out the run.  Succeeds exactly
    /// when the project has a non-empty name and version; a target with a
    /// script returns exactly the plan of [`spec_script_plan`], one without
    /// has nothing to launch and returns nothing.
    pub fn validate_and_prepare(&self, meta: &Meta) -> (r: Result<
        Option<StagingPlan>,
        ExportError,
    >)
        ensures
            spec_script_valid(meta@) && self@.script is Some ==> (r matches Ok(Some(plan))
                && plan@ == spec_script_plan(self@, meta@)),
            spec_script_valid(meta@) && self@.script is None ==> r matches Ok(None),
            !spec_script_valid(meta@) ==> (r matches Err(e) && e@ == ExportErrorView::Validation(
                spec_script_error(meta@),
            )),
    {
        if meta.name.as_str().is_empty() {
            return Err(
                ExportError::Validation("Custom Script: Project name cannot be empty.".to_owned()),
            );
        }
        if meta.version.as_str().is_empty() {
            return Err(
                ExportError::Validation(
                    "Custom Script: Project version cannot be empty.".to_owned(),
                ),
            );
        }
        let script = match &self.script {
            Some(script) => script.clone(),
            None => {
                return Ok(None);
            },
        };

        let mut env: Vec<EnvVar> = Vec::new();
        env.push(EnvVar { name: "BOONDLE_NAME".to_owned(), value: meta.name.clone() });
        let icon = match &meta.icon {
            Some(icon) => icon.clone(),
            None => String::new(),
        };
        env.push(EnvVar { name: "BOONDLE_ICON".to_owned(), value: icon });
        env.push(EnvVar { name: "BOONDLE_INFO".to_owned(), value: meta.info.clone() });
        env.push(EnvVar { name: "BOONDLE_FROM".to_owned(), value: meta.from.clone() });
        env.push(EnvVar { name: "BOONDLE_VERSION".to_owned(), value: meta.version.clone() });
        env.push(
            EnvVar { name: "BOONDLE_NAME_GENERIC".to_owned(), value: meta.name_generic.clone() },
        );
        env.push(EnvVar { name: "BOONDLE_NAME_COMMENT".to_owned(), value: meta.comment.clone() });
        env.push(
            EnvVar { name: "BOONDLE_NAME_CATEGORY".to_owned(), value: meta.category.clone() },
        );
        env.push(
            EnvVar { name: "BOONDLE_NAME_KEY_WORD".to_owned(), value: meta.key_word.clone() },
        );
        proof {
            assert(forall|k: int|
                0 <= k < 9 ==> env@[k]@ =~~= spec_script_base_env(meta@)[k]);
        }

        let ghost layout_views = self@.layout;
        let mut i: usize = 0;
        while i < self.layout.len()
            invariant
                i <= self.layout.len(),
                layout_views == self@.layout,
                layout_views.len() == self.layout.len(),
                env@.len() == 9 + i,
                forall|k: int| 0 <= k < 9 ==> env@[k]@ == spec_script_base_env(meta@)[k],
                forall|k: int|
                    9 <= k < env@.len() ==> env@[k]@ == layout_views[k - 9].as_env(),
            decreases self.layout.len() - i,
        {
            let param = &self.layout[i];
            let var = match param {
                Layout::Text { name, data, .. } => EnvVar {
                    name: to_upper_text(name.as_str()),
                    value: data.clone(),
                },
                Layout::Integer { name, data, .. } => EnvVar {
                    name: to_upper_text(name.as_str()),
                    value: int_to_text(*data),
                },
                Layout::Decimal { name, data, .. } => EnvVar {
                    name: to_upper_text(name.as_str()),
                    value: data.clone(),
                },
                Layout::Boolean { name, data, .. } => EnvVar {
                    name: to_upper_text(name.as_str()),
                    value: if *data {
                        "1".to_owned()
                    } else {
                        "0".to_owned()
                    },
                },
            };
            proof {
                assert(var@ =~~= layout_views[i as int].as_env());
            }
            env.push(var);
            i += 1;
        }
        proof {
            assert(env@.map_values(|e: EnvVar| e@) =~~= spec_script_env(layout_views, meta@));
        }

        let command = CommandPlan { program: script, args: Vec::new(), env };
        let plan = StagingPlan { dirs: Vec::new(), files: Vec::new(), command };
        proof {
            assert(plan@ =~~= spec_script_plan(self@, meta@));
        }
        Ok(Some(plan))
    }
}

} // verus!
