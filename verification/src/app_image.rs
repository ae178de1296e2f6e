//! The AppImage exporter: validates the metadata, renders the AppRun
//! launcher script, and plans the `appimagetool` staging tree.

use vstd::prelude::*;

use crate::export::ExportError;
use crate::export::ExportErrorView;
use crate::export::format_tag_present;
use crate::export::spec_format_tag_present;
use crate::meta::Meta;
use crate::meta::MetaView;
use crate::meta::spec_desktop_file;
use crate::plan::CommandPlan;
use crate::plan::CommandPlanView;
use crate::plan::FileSource;
use crate::plan::FileSourceView;
use crate::plan::PlannedFile;
use crate::plan::PlannedFileView;
use crate::plan::StagingPlan;
use crate::plan::StagingPlanView;
use crate::status::ExportStatus;
use crate::status::StatusView;

verus! {

/// Configuration of one AppImage packaging target, plus its transient run
/// state (`remove` and `status` are never persisted).  An empty `binary` or
/// `script` means none was chosen.
pub struct AppImage {
    pub name: String,
    pub file: String,
    pub binary: String,
    pub script: String,
    pub enable: bool,
    pub remove: bool,
    pub status: ExportStatus,
}

/// Spec-level image of an [`AppImage`].
#[verifier::ext_equal]
pub struct AppImageView {
    pub name: Seq<char>,
    pub file: Seq<char>,
    pub binary: Seq<char>,
    pub script: Seq<char>,
    pub enable: bool,
    pub remove: bool,
    pub status: StatusView,
}

impl View for AppImage {
    type V = AppImageView;

    open spec fn view(&self) -> AppImageView {
        AppImageView {
            name: self.name@,
            file: self.file@,
            binary: self.binary@,
            script: self.script@,
            enable: self.enable,
            remove: self.remove,
            status: self.status@,
        }
    }
}

impl Default for AppImage {
    /// A fresh, disabled exporter with empty configuration.
    fn default() -> (r: Self)
        ensures
            r@ == (AppImageView {
                name: Seq::empty(),
                file: Seq::empty(),
                binary: Seq::empty(),
                script: Seq::empty(),
                enable: false,
                remove: false,
                status: StatusView::Idle,
            }),
    {
        AppImage {
            name: String::new(),
            file: String::new(),
            binary: String::new(),
            script: String::new(),
            enable: false,
            remove: false,
            status: ExportStatus::Idle,
        }
    }
}

/// The AppImage run starts only when the project has a name.
pub open spec fn spec_app_image_valid(m: MetaView) -> bool {
    m.name.len() > 0
}

/// The message of the validation error.
pub open spec fn spec_app_image_error(m: MetaView) -> Seq<char> {
    "AppImage: Project name cannot be empty."@
}

/// The AppRun launcher script rendered for a project called `name`: a POSIX
/// shell script that exports `APPDIR`, prepends the bundled directories to
/// the search paths, and execs the bundled binary.
pub open spec fn spec_app_run_file(name: Seq<char>) -> Seq<char> {
    "#!/bin/bash\n\nexport APPDIR=\"$(dirname \"$(readlink -f \"$0\")\")\"\nexport PATH=\"$APPDIR/usr/bin/:$PATH\"\nexport LD_LIBRARY_PATH=\"$APPDIR/usr/lib:$PATH\"\nexport XDG_DATA_DIRS=\"$APPDIR/usr/share/:/usr/share/:$XDG_DATA_DIRS\"\n\n\"$APPDIR\"/usr/bin/"@
        + name + "\n"@
}

/// The `.AppDir` directory the bundle is staged under.
pub open spec fn spec_app_image_work_dir(m: MetaView) -> Seq<char> {
    "boondle_app_image/"@ + m.name + ".AppDir"@
}

/// The `.AppImage` file the run produces: derived from the metadata unless
/// the target names an output file of its own.
pub open spec fn spec_app_image_out_path(a: AppImageView, m: MetaView) -> Seq<char> {
    if a.file.len() == 0 {
        m.name + "_"@ + m.version + spec_format_tag_present(a.name) + ".AppImage"@
    } else {
        a.file + ".AppImage"@
    }
}

/// The full staging plan of an AppImage run: the `.AppDir` tree with the
/// executable AppRun launcher (copied from the user's script when one is
/// set, rendered otherwise), the desktop entry, the optional binary and
/// icon, and the `appimagetool` invocation.
pub open spec fn spec_app_image_plan(a: AppImageView, m: MetaView) -> StagingPlanView {
    let work = spec_app_image_work_dir(m);
    StagingPlanView {
        dirs: seq!["boondle_app_image"@, work, work + "/usr/bin"@],
        files: seq![
            PlannedFileView {
                path: work + "/AppRun"@,
                source: if a.script.len() > 0 {
                    FileSourceView::Copied(a.script)
                } else {
                    FileSourceView::Rendered(spec_app_run_file(m.name))
                },
                executable: true,
            },
            PlannedFileView {
                path: work + "/"@ + m.name + ".desktop"@,
                source: FileSourceView::Rendered(spec_desktop_file(m.name, true)),
                executable: false,
            },
        ] + (if a.binary.len() > 0 {
            seq![
                PlannedFileView {
                    path: work + "/usr/bin/"@ + m.name,
                    source: FileSourceView::Copied(a.binary),
                    executable: false,
                },
            ]
        } else {
            Seq::empty()
        }) + (match m.icon {
            Some(icon) => seq![
                PlannedFileView {
                    path: work + "/"@ + m.name + "-icon.png"@,
                    source: FileSourceView::Copied(icon),
                    executable: false,
                },
            ],
            None => Seq::empty(),
        }),
        command: CommandPlanView {
            program: "appimagetool"@,
            args: seq![work, spec_app_image_out_path(a, m)],
            env: Seq::empty(),
        },
    }
}

impl AppImage {
    /// Render the AppRun launcher script for the given metadata.
    pub fn file_app_run(meta: &Meta) -> (r: String)
        ensures
            r@ == spec_app_run_file(meta@.name),
    {
        let mut file =
            "#!/bin/bash\n\nexport APPDIR=\"$(dirname \"$(readlink -f \"$0\")\")\"\nexport PATH=\"$APPDIR/usr/bin/:$PATH\"\nexport LD_LIBRARY_PATH=\"$APPDIR/usr/lib:$PATH\"\nexport XDG_DATA_DIRS=\"$APPDIR/usr/share/:/usr/share/:$XDG_DATA_DIRS\"\n\n\"$APPDIR\"/usr/bin/".to_owned();
        file.append(meta.name.as_str());
        file.append("\n");
        file
    }

    /// Check the required metadata and lay out the whole run: directories,
    /// files, and the `appimagetool` command.  Succeeds exactly when the
    /// project has a non-empty name, and then returns exactly the plan of
    /// [`spec_app_image_plan`].
    pub fn validate_and_prepare(&self, meta: &Meta) -> (r: Result<StagingPlan, ExportError>)
        ensures
            spec_app_image_valid(meta@) ==> (r matches Ok(plan) && plan@ == spec_app_image_plan(
                self@,
                meta@,
            )),
            !spec_app_image_valid(meta@) ==> (r matches Err(e) && e@
                == ExportErrorView::Validation(spec_app_image_error(meta@))),
    {
        if meta.name.as_str().is_empty() {
            return Err(
                ExportError::Validation("AppImage: Project name cannot be empty.".to_owned()),
            );
        }
        let mut work = "boondle_app_image/".to_owned();
        work.append(meta.name.as_str());
        work.append(".AppDir");

        let mut dirs: Vec<String> = Vec::new();
        dirs.push("boondle_app_image".to_owned());
        dirs.push(work.clone());
        let mut usr_bin = work.clone();
        usr_bin.append("/usr/bin");
        dirs.push(usr_bin);

        let mut files: Vec<PlannedFile> = Vec::new();
        let mut app_run_path = work.clone();
        app_run_path.append("/AppRun");
        let app_run_source = if !self.script.as_str().is_empty() {
            FileSource::Copied(self.script.clone())
        } else {
            FileSource::Rendered(Self::file_app_run(meta))
        };
        files.push(PlannedFile { path: app_run_path, source: app_run_source, executable: true });
        let mut desktop_path = work.clone();
        desktop_path.append("/");
        desktop_path.append(meta.name.as_str());
        desktop_path.append(".desktop");
        files.push(
            PlannedFile {
                path: desktop_path,
                source: FileSource::Rendered(meta.create_desktop_file(true)),
                executable: false,
            },
        );
        if !self.binary.as_str().is_empty() {
            let mut path = work.clone();
            path.append("/usr/bin/");
            path.append(meta.name.as_str());
            files.push(
                PlannedFile {
                    path,
                    source: FileSource::Copied(self.binary.clone()),
                    executable: false,
                },
            );
        }
        if let Some(icon) = &meta.icon {
            let mut path = work.clone();
            path.append("/");
            path.append(meta.name.as_str());
            path.append("-icon.png");
            files.push(
                PlannedFile { path, source: FileSource::Copied(icon.clone()), executable: false },
            );
        }

        let out_path = if self.file.as_str().is_empty() {
            let mut out = meta.name.clone();
            out.append("_");
            out.append(meta.version.as_str());
            let tag = format_tag_present(self.name.as_str());
            out.append(tag.as_str());
            out.append(".AppImage");
            out
        } else {
            let mut out = self.file.clone();
            out.append(".AppImage");
            out
        };

        let mut args: Vec<String> = Vec::new();
        args.push(work);
        args.push(out_path);
        let command = CommandPlan { program: "appimagetool".to_owned(), args, env: Vec::new() };

        let plan = StagingPlan { dirs, files, command };
        proof {
            assert(plan@ =~~= spec_app_image_plan(self@, meta@));
        }
        Ok(plan)
    }
}

} // verus!
