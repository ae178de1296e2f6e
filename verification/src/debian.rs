//! The Debian package exporter: validates the metadata, renders the control
//! file, and plans the `dpkg-deb` staging tree.

use vstd::prelude::*;

use crate::export::ExportError;
use crate::export::ExportErrorView;
use crate::export::format_tag_name;
use crate::export::spec_format_tag_name;
use crate::meta::Meta;
use crate::meta::MetaView;
use crate::meta::spec_desktop_file;
use crate::plan::CommandPlan;
use crate::plan::CommandPlanView;
use crate::plan::FileSource;
use crate::plan::FileSourceView;
use crate::plan::PlannedFile;
use crate::plan::PlannedFileView;
use crate::plan::StagingPlan;
use crate::plan::StagingPlanView;
use crate::status::ExportStatus;
use crate::status::StatusView;

verus! {

/// Configuration of one Debian packaging target, plus its transient run
/// state (`remove` and `status` are never persisted).
pub struct Debian {
    pub name: String,
    pub file: String,
    pub binary: Option<String>,
    pub script_prior: Option<String>,
    pub script_after: Option<String>,
    pub architecture: String,
    pub enable: bool,
    pub remove: bool,
    pub status: ExportStatus,
}

/// Spec-level image of a [`Debian`].
#[verifier::ext_equal]
pub struct DebianView {
    pub name: Seq<char>,
    pub file: Seq<char>,
    pub binary: Option<Seq<char>>,
    pub script_prior: Option<Seq<char>>,
    pub script_after: Option<Seq<char>>,
    pub architecture: Seq<char>,
    pub enable: bool,
    pub remove: bool,
    pub status: StatusView,
}

impl View for Debian {
    type V = DebianView;

    open spec fn view(&self) -> DebianView {
        DebianView {
            name: self.name@,
            file: self.file@,
            binary: match self.binary {
                Some(ref path) => Some(path@),
                None => None,
            },
            script_prior: match self.script_prior {
                Some(ref path) => Some(path@),
                None => None,
            },
            script_after: match self.script_after {
                Some(ref path) => Some(path@),
                None => None,
            },
            architecture: self.architecture@,
            enable: self.enable,
            remove: self.remove,
            status: self.status@,
        }
    }
}

impl Default for Debian {
    /// A fresh, disabled exporter with empty configuration.
    fn default() -> (r: Self)
        ensures
            r@ == (DebianView {
                name: Seq::empty(),
                file: Seq::empty(),
                binary: None,
                script_prior: None,
                script_after: None,
                architecture: Seq::empty(),
                enable: false,
                remove: false,
                status: StatusView::Idle,
            }),
    {
        Debian {
            name: String::new(),
            file: String::new(),
            binary: None,
            script_prior: None,
            script_after: None,
            architecture: String::new(),
            enable: false,
            remove: false,
            status: ExportStatus::Idle,
        }
    }
}

/// The Debian run starts only when the project has a name and a version.
pub open spec fn spec_debian_valid(m: MetaView) -> bool {
    m.name.len() > 0 && m.version.len() > 0
}

/// The message of the validation error: the missing name is reported first.
pub open spec fn spec_debian_error(m: MetaView) -> Seq<char> {
    if m.name.len() == 0 {
        "Debian: Project name cannot be empty."@
    } else {
        "Debian: Project version cannot be empty."@
    }
}

/// The Debian control file rendered for this target: fixed field order
/// `Package, Version, Architecture, Essential, Priority, Depends,
/// Maintainer, Description`, metadata substituted verbatim.
pub open spec fn spec_control_file(architecture: Seq<char>, m: MetaView) -> Seq<char> {
    "Package: "@ + m.name + "\nVersion: "@ + m.version + "\nArchitecture: "@ + architecture
        + "\nEssential: no\nPriority: optional\nDepends:\nMaintainer: "@ + m.from
        + "\nDescription: "@ + m.info + "\n"@
}

/// The work directory the package tree is staged under.
pub open spec fn spec_debian_work_dir(d: DebianView, m: MetaView) -> Seq<char> {
    m.path + "/boondle_debian/"@ + m.name + "_"@ + m.version + "_"@ + d.architecture
}

/// The `.deb` file the run produces: derived from the metadata unless the
/// target names an output file of its own.
pub open spec fn spec_debian_out_path(d: DebianView, m: MetaView) -> Seq<char> {
    if d.file.len() == 0 {
        m.path + "/"@ + spec_format_tag_name(m.name, d.name) + "_"@ + m.version + "_"@
            + d.architecture + ".deb"@
    } else {
        m.path + "/"@ + d.file + ".deb"@
    }
}

/// The full staging plan of a Debian run: the `DEBIAN` and `usr` trees, the
/// rendered control and desktop files, the user-supplied files that are
/// copied in, and the `dpkg-deb --build` invocation.
pub open spec fn spec_debian_plan(d: DebianView, m: MetaView) -> StagingPlanView {
    let work = spec_debian_work_dir(d, m);
    let debian = work + "/DEBIAN"@;
    let usr = work + "/usr"@;
    StagingPlanView {
        dirs: seq![
            m.path + "/boondle_debian"@,
            work,
            debian,
            usr,
            usr + "/bin"@,
            usr + "/share/applications"@,
            usr + "/share/icons"@,
        ],
        files: seq![
            PlannedFileView {
                path: debian + "/control"@,
                source: FileSourceView::Rendered(spec_control_file(d.architecture, m)),
                executable: false,
            },
        ] + (match d.script_prior {
            Some(path) => seq![
                PlannedFileView {
                    path: debian + "/preinst"@,
                    source: FileSourceView::Copied(path),
                    executable: false,
                },
            ],
            None => Seq::empty(),
        }) + (match d.script_after {
            Some(path) => seq![
                PlannedFileView {
                    path: debian + "/postinst"@,
                    source: FileSourceView::Copied(path),
                    executable: false,
                },
            ],
            None => Seq::empty(),
        }) + (match d.binary {
            Some(path) => seq![
                PlannedFileView {
                    path: usr + "/bin/"@ + m.name,
                    source: FileSourceView::Copied(path),
                    executable: false,
                },
            ],
            None => Seq::empty(),
        }) + seq![
            PlannedFileView {
                path: usr + "/share/applications/"@ + m.name + ".desktop"@,
                source: FileSourceView::Rendered(spec_desktop_file(m.name, false)),
                executable: false,
            },
        ] + (match m.icon {
            Some(path) => seq![
                PlannedFileView {
                    path: usr + "/share/icons/"@ + m.name + "-icon"@,
                    source: FileSourceView::Copied(path),
                    executable: false,
                },
            ],
            None => Seq::empty(),
        }),
        command: CommandPlanView {
            program: "dpkg-deb"@,
            args: seq!["--build"@, work, spec_debian_out_path(d, m)],
            env: Seq::empty(),
        },
    }
}

impl Debian {
    /// Render the control file for this target and the given metadata.
    pub fn file_control(&self, meta: &Meta) -> (r: String)
        ensures
            r@ == spec_control_file(self@.architecture, meta@),
    {
        let mut file = "Package: ".to_owned();
        file.append(meta.name.as_str());
        file.append("\nVersion: ");
        file.append(meta.version.as_str());
        file.append("\nArchitecture: ");
        file.append(self.architecture.as_str());
        file.append("\nEssential: no\nPriority: optional\nDepends:\nMaintainer: ");
        file.append(meta.from.as_str());
        file.append("\nDescription: ");
        file.append(meta.info.as_str());
        file.append("\n");
        file
    }

    /// Check the required metadata and lay out the whole run: directories,
    /// files, and the `dpkg-deb` command.  Succeeds exactly when the project
    /// has a non-empty name and version, and then returns exactly the plan
    /// of [`spec_debian_plan`].
    pub fn validate_and_prepare(&self, meta: &Meta) -> (r: Result<StagingPlan, ExportError>)
        ensures
            spec_debian_valid(meta@) ==> (r matches Ok(plan) && plan@ == spec_debian_plan(
                self@,
                meta@,
            )),
            !spec_debian_valid(meta@) ==> (r matches Err(e) && e@ == ExportErrorView::Validation(
                spec_debian_error(meta@),
            )),
    {
        if meta.name.as_str().is_empty() {
            return Err(
                ExportError::Validation("Debian: Project name cannot be empty.".to_owned()),
            );
        }
        if meta.version.as_str().is_empty() {
            return Err(
                ExportError::Validation("Debian: Project version cannot be empty.".to_owned()),
            );
        }
        let mut work = meta.path.clone();
        work.append("/boondle_debian/");
        work.append(meta.name.as_str());
        work.append("_");
        work.append(meta.version.as_str());
        work.append("_");
        work.append(self.architecture.as_str());

        let mut debian = work.clone();
        debian.append("/DEBIAN");
        let mut usr = work.clone();
        usr.append("/usr");

        let mut dirs: Vec<String> = Vec::new();
        let mut root = meta.path.clone();
        root.append("/boondle_debian");
        dirs.push(root);
        dirs.push(work.clone());
        dirs.push(debian.clone());
        dirs.push(usr.clone());
        let mut usr_bin = usr.clone();
        usr_bin.append("/bin");
        dirs.push(usr_bin);
        let mut usr_applications = usr.clone();
        usr_applications.append("/share/applications");
        dirs.push(usr_applications);
        let mut usr_icons = usr.clone();
        usr_icons.append("/share/icons");
        dirs.push(usr_icons);

        let mut files: Vec<PlannedFile> = Vec::new();
        let mut control_path = debian.clone();
        control_path.append("/control");
        files.push(
            PlannedFile {
                path: control_path,
                source: FileSource::Rendered(self.file_control(meta)),
                executable: false,
            },
        );
        if let Some(script) = &self.script_prior {
            let mut path = debian.clone();
            path.append("/preinst");
            files.push(
                PlannedFile { path, source: FileSource::Copied(script.clone()), executable: false },
            );
        }
        if let Some(script) = &self.script_after {
            let mut path = debian.clone();
            path.append("/postinst");
            files.push(
                PlannedFile { path, source: FileSource::Copied(script.clone()), executable: false },
            );
        }
        if let Some(binary) = &self.binary {
            let mut path = usr.clone();
            path.append("/bin/");
            path.append(meta.name.as_str());
            files.push(
                PlannedFile { path, source: FileSource::Copied(binary.clone()), executable: false },
            );
        }
        let mut desktop_path = usr.clone();
        desktop_path.append("/share/applications/");
        desktop_path.append(meta.name.as_str());
        desktop_path.append(".desktop");
        files.push(
            PlannedFile {
                path: desktop_path,
                source: FileSource::Rendered(meta.create_desktop_file(false)),
                executable: false,
            },
        );
        if let Some(icon) = &meta.icon {
            let mut path = usr.clone();
            path.append("/share/icons/");
            path.append(meta.name.as_str());
            path.append("-icon");
            files.push(
                PlannedFile { path, source: FileSource::Copied(icon.clone()), executable: false },
            );
        }

        let out_path = if self.file.as_str().is_empty() {
            let mut out = meta.path.clone();
            out.append("/");
            let tagged = format_tag_name(meta.name.as_str(), self.name.as_str());
            out.append(tagged.as_str());
            out.append("_");
            out.append(meta.version.as_str());
            out.append("_");
            out.append(self.architecture.as_str());
            out.append(".deb");
            out
        } else {
            let mut out = meta.path.clone();
            out.append("/");
            out.append(self.file.as_str());
            out.append(".deb");
            out
        };

        let mut args: Vec<String> = Vec::new();
        args.push("--build".to_owned());
        args.push(work);
        args.push(out_path);
        let command = CommandPlan { program: "dpkg-deb".to_owned(), args, env: Vec::new() };

        let plan = StagingPlan { dirs, files, command };
        proof {
            assert(plan@ =~~= spec_debian_plan(self@, meta@));
        }
        Ok(plan)
    }
}

} // verus!
