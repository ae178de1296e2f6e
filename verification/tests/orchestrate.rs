use boondle::AppImage;
use boondle::Debian;
use boondle::ExportError;
use boondle::ExportStatus;
use boondle::Exporter;
use boondle::FileSource;
use boondle::Layout;
use boondle::Meta;
use boondle::Outcome;
use boondle::Script;
use boondle::all_settled;
use boondle::apply_outcome_at;
use boondle::remove_marked;
use boondle::run_all;

fn meta_for(name: &str, version: &str) -> Meta {
    let mut meta = Meta::default();
    meta.path = "/home/user/proj".to_string();
    meta.name = name.to_string();
    meta.version = version.to_string();
    meta
}

fn enabled_debian() -> Debian {
    let mut debian = Debian::default();
    debian.architecture = "amd64".to_string();
    debian.enable = true;
    debian
}

fn enabled_app_image() -> AppImage {
    let mut app_image = AppImage::default();
    app_image.enable = true;
    app_image
}

fn enabled_script(path: &str) -> Script {
    let mut script = Script::default();
    script.script = Some(path.to_string());
    script.enable = true;
    script
}

#[test]
fn disabled_exporter_is_settled_whatever_its_status() {
    let mut debian = enabled_debian();
    debian.enable = false;
    debian.status = ExportStatus::InProgress;
    let exporter = Exporter::Debian(debian);
    assert!(exporter.is_settled());

    let mut app_image = enabled_app_image();
    app_image.enable = false;
    app_image.status = ExportStatus::Idle;
    assert!(Exporter::AppImage(app_image).is_settled());
}

#[test]
fn launched_exporter_is_unsettled_until_polled() {
    let meta = meta_for("foo", "1.0");
    let mut exporter = Exporter::Debian(enabled_debian());
    assert!(exporter.is_settled());
    let result = exporter.run(&meta);
    assert!(result.is_ok());
    assert!(matches!(exporter.get_status(), ExportStatus::InProgress));
    assert!(!exporter.is_settled());
    exporter.apply_outcome(Outcome::Success);
    assert!(exporter.is_settled());
    assert!(matches!(exporter.get_status(), ExportStatus::Success));
}

#[test]
fn failure_outcome_keeps_its_message() {
    let meta = meta_for("foo", "1.0");
    let mut exporter = Exporter::AppImage(enabled_app_image());
    exporter.run(&meta).unwrap();
    exporter.apply_outcome(Outcome::Failure("tool exited with status 2".to_string()));
    match exporter.get_status() {
        ExportStatus::Failure(message) => {
            assert_eq!(message, "tool exited with status 2");
        }
        _ => panic!("expected a failure status"),
    }
}

#[test]
fn disabled_exporter_run_is_a_no_op() {
    let meta = meta_for("", "");
    let mut debian = enabled_debian();
    debian.enable = false;
    let mut exporter = Exporter::Debian(debian);
    let result = exporter.run(&meta);
    assert!(matches!(result, Ok(None)));
    assert!(matches!(exporter.get_status(), ExportStatus::Idle));
}

#[test]
fn debian_validation_requires_name_then_version() {
    let mut exporter = Exporter::Debian(enabled_debian());
    let result = exporter.run(&meta_for("", "1.0"));
    match result {
        Err(ExportError::Validation(message)) => {
            assert_eq!(message, "Debian: Project name cannot be empty.");
        }
        _ => panic!("expected a validation error"),
    }
    match exporter.get_status() {
        ExportStatus::Failure(message) => {
            assert_eq!(message, "Debian: Project name cannot be empty.");
        }
        _ => panic!("expected a failure status"),
    }

    let mut exporter = Exporter::Debian(enabled_debian());
    let result = exporter.run(&meta_for("foo", ""));
    match result {
        Err(ExportError::Validation(message)) => {
            assert_eq!(message, "Debian: Project version cannot be empty.");
        }
        _ => panic!("expected a validation error"),
    }
}

#[test]
fn app_image_validation_requires_name_only() {
    let mut exporter = Exporter::AppImage(enabled_app_image());
    let result = exporter.run(&meta_for("", "1.0"));
    match result {
        Err(ExportError::Validation(message)) => {
            assert_eq!(message, "AppImage: Project name cannot be empty.");
        }
        _ => panic!("expected a validation error"),
    }
    let mut exporter = Exporter::AppImage(enabled_app_image());
    assert!(exporter.run(&meta_for("foo", "")).is_ok());
}

#[test]
fn script_validation_messages() {
    let mut exporter = Exporter::Script(enabled_script("/bin/pack.sh"));
    match exporter.run(&meta_for("", "1.0")) {
        Err(ExportError::Validation(message)) => {
            assert_eq!(message, "Custom Script: Project name cannot be empty.");
        }
        _ => panic!("expected a validation error"),
    }
    let mut exporter = Exporter::Script(enabled_script("/bin/pack.sh"));
    match exporter.run(&meta_for("foo", "")) {
        Err(ExportError::Validation(message)) => {
            assert_eq!(message, "Custom Script: Project version cannot be empty.");
        }
        _ => panic!("expected a validation error"),
    }
}

#[test]
fn script_without_a_script_settles_as_success() {
    let mut script = enabled_script("/bin/pack.sh");
    script.script = None;
    let mut exporter = Exporter::Script(script);
    let result = exporter.run(&meta_for("foo", "1.0"));
    assert!(matches!(result, Ok(None)));
    assert!(matches!(exporter.get_status(), ExportStatus::Success));
    assert!(exporter.is_settled());
}

#[test]
fn debian_plan_layout() {
    let mut meta = meta_for("foo", "1.0");
    meta.icon = Some("/art/icon.png".to_string());
    let mut debian = enabled_debian();
    debian.binary = Some("/build/foo".to_string());
    debian.script_prior = Some("/scripts/pre.sh".to_string());
    debian.script_after = Some("/scripts/post.sh".to_string());
    let mut exporter = Exporter::Debian(debian);
    let plan = exporter.run(&meta).unwrap().unwrap();

    let work = "/home/user/proj/boondle_debian/foo_1.0_amd64";
    assert_eq!(
        plan.dirs,
        vec![
            "/home/user/proj/boondle_debian".to_string(),
            work.to_string(),
            format!("{work}/DEBIAN"),
            format!("{work}/usr"),
            format!("{work}/usr/bin"),
            format!("{work}/usr/share/applications"),
            format!("{work}/usr/share/icons"),
        ]
    );

    assert_eq!(plan.files.len(), 6);
    assert_eq!(plan.files[0].path, format!("{work}/DEBIAN/control"));
    assert!(matches!(&plan.files[0].source, FileSource::Rendered(text) if text.starts_with("Package: foo\n")));
    assert_eq!(plan.files[1].path, format!("{work}/DEBIAN/preinst"));
    assert!(matches!(&plan.files[1].source, FileSource::Copied(from) if from == "/scripts/pre.sh"));
    assert_eq!(plan.files[2].path, format!("{work}/DEBIAN/postinst"));
    assert!(matches!(&plan.files[2].source, FileSource::Copied(from) if from == "/scripts/post.sh"));
    assert_eq!(plan.files[3].path, format!("{work}/usr/bin/foo"));
    assert!(matches!(&plan.files[3].source, FileSource::Copied(from) if from == "/build/foo"));
    assert_eq!(plan.files[4].path, format!("{work}/usr/share/applications/foo.desktop"));
    assert!(matches!(&plan.files[4].source, FileSource::Rendered(text) if text.contains("Icon=/usr/share/icons/foo-icon")));
    assert_eq!(plan.files[5].path, format!("{work}/usr/share/icons/foo-icon"));
    assert!(matches!(&plan.files[5].source, FileSource::Copied(from) if from == "/art/icon.png"));
    assert!(plan.files.iter().all(|f| !f.executable));

    assert_eq!(plan.command.program, "dpkg-deb");
    assert_eq!(
        plan.command.args,
        vec![
            "--build".to_string(),
            work.to_string(),
            "/home/user/proj/foo_1.0_amd64.deb".to_string(),
        ]
    );
    assert!(plan.command.env.is_empty());
}

#[test]
fn debian_output_name_carries_the_exporter_tag() {
    let meta = meta_for("foo", "1.0");
    let mut debian = enabled_debian();
    debian.name = "server".to_string();
    let mut exporter = Exporter::Debian(debian);
    let plan = exporter.run(&meta).unwrap().unwrap();
    assert_eq!(plan.command.args[2], "/home/user/proj/foo-server_1.0_amd64.deb");
}

#[test]
fn debian_named_output_file_wins() {
    let meta = meta_for("foo", "1.0");
    let mut debian = enabled_debian();
    debian.file = "custom".to_string();
    let mut exporter = Exporter::Debian(debian);
    let plan = exporter.run(&meta).unwrap().unwrap();
    assert_eq!(plan.command.args[2], "/home/user/proj/custom.deb");
}

#[test]
fn app_image_plan_layout() {
    let mut meta = meta_for("foo", "1.0");
    meta.icon = Some("/art/icon.png".to_string());
    let mut app_image = enabled_app_image();
    app_image.binary = "/build/foo".to_string();
    let mut exporter = Exporter::AppImage(app_image);
    let plan = exporter.run(&meta).unwrap().unwrap();

    let work = "boondle_app_image/foo.AppDir";
    assert_eq!(
        plan.dirs,
        vec![
            "boondle_app_image".to_string(),
            work.to_string(),
            format!("{work}/usr/bin"),
        ]
    );

    assert_eq!(plan.files.len(), 4);
    assert_eq!(plan.files[0].path, format!("{work}/AppRun"));
    assert!(plan.files[0].executable);
    assert!(matches!(&plan.files[0].source, FileSource::Rendered(text) if text.starts_with("#!/bin/bash\n")));
    assert_eq!(plan.files[1].path, format!("{work}/foo.desktop"));
    assert!(matches!(&plan.files[1].source, FileSource::Rendered(text) if text.contains("Icon=/foo-icon")));
    assert_eq!(plan.files[2].path, format!("{work}/usr/bin/foo"));
    assert!(matches!(&plan.files[2].source, FileSource::Copied(from) if from == "/build/foo"));
    assert_eq!(plan.files[3].path, format!("{work}/foo-icon.png"));
    assert!(matches!(&plan.files[3].source, FileSource::Copied(from) if from == "/art/icon.png"));

    assert_eq!(plan.command.program, "appimagetool");
    assert_eq!(plan.command.args, vec![work.to_string(), "foo_1.0.AppImage".to_string()]);
}

#[test]
fn app_image_user_script_replaces_app_run() {
    let meta = meta_for("foo", "1.0");
    let mut app_image = enabled_app_image();
    app_image.script = "/scripts/run.sh".to_string();
    app_image.name = "lite".to_string();
    let mut exporter = Exporter::AppImage(app_image);
    let plan = exporter.run(&meta).unwrap().unwrap();
    assert!(matches!(&plan.files[0].source, FileSource::Copied(from) if from == "/scripts/run.sh"));
    assert!(plan.files[0].executable);
    assert_eq!(plan.command.args[1], "foo_1.0_lite.AppImage");
}

#[test]
fn app_image_named_output_file_wins() {
    let meta = meta_for("foo", "1.0");
    let mut app_image = enabled_app_image();
    app_image.file = "bundle".to_string();
    let mut exporter = Exporter::AppImage(app_image);
    let plan = exporter.run(&meta).unwrap().unwrap();
    assert_eq!(plan.command.args[1], "bundle.AppImage");
}

#[test]
fn script_environment_carries_metadata_and_parameters() {
    let mut meta = meta_for("foo", "2.1");
    meta.icon = Some("/art/icon.png".to_string());
    meta.info = "a tool".to_string();
    meta.from = "me".to_string();
    meta.name_generic = "Tool".to_string();
    meta.comment = "does things".to_string();
    meta.category = "Utility".to_string();
    meta.key_word = "tool".to_string();

    let mut script = enabled_script("/bin/pack.sh");
    script.layout = vec![
        Layout::Integer { name: "Count".to_string(), data: 42, remove: false },
        Layout::Text { name: "Greeting".to_string(), data: "hello".to_string(), remove: false },
        Layout::Decimal { name: "Ratio".to_string(), data: "0.5".to_string(), remove: false },
        Layout::Boolean { name: "Fast".to_string(), data: true, remove: false },
        Layout::Boolean { name: "Slow".to_string(), data: false, remove: false },
    ];
    let mut exporter = Exporter::Script(script);
    let plan = exporter.run(&meta).unwrap().unwrap();

    assert!(plan.dirs.is_empty());
    assert!(plan.files.is_empty());
    assert_eq!(plan.command.program, "/bin/pack.sh");
    assert!(plan.command.args.is_empty());

    let env: Vec<(String, String)> = plan
        .command
        .env
        .iter()
        .map(|v| (v.name.clone(), v.value.clone()))
        .collect();
    assert_eq!(
        env,
        vec![
            ("BOONDLE_NAME".to_string(), "foo".to_string()),
            ("BOONDLE_ICON".to_string(), "/art/icon.png".to_string()),
            ("BOONDLE_INFO".to_string(), "a tool".to_string()),
            ("BOONDLE_FROM".to_string(), "me".to_string()),
            ("BOONDLE_VERSION".to_string(), "2.1".to_string()),
            ("BOONDLE_NAME_GENERIC".to_string(), "Tool".to_string()),
            ("BOONDLE_NAME_COMMENT".to_string(), "does things".to_string()),
            ("BOONDLE_NAME_CATEGORY".to_string(), "Utility".to_string()),
            ("BOONDLE_NAME_KEY_WORD".to_string(), "tool".to_string()),
            ("COUNT".to_string(), "42".to_string()),
            ("GREETING".to_string(), "hello".to_string()),
            ("RATIO".to_string(), "0.5".to_string()),
            ("FAST".to_string(), "1".to_string()),
            ("SLOW".to_string(), "0".to_string()),
        ]
    );
}

#[test]
fn script_without_icon_hands_an_empty_variable() {
    let meta = meta_for("foo", "1.0");
    let mut exporter = Exporter::Script(enabled_script("/bin/pack.sh"));
    let plan = exporter.run(&meta).unwrap().unwrap();
    assert_eq!(plan.command.env[1].name, "BOONDLE_ICON");
    assert_eq!(plan.command.env[1].value, "");
}

#[test]
fn run_all_continues_past_a_failing_exporter() {
    // With a name but no version, the Debian exporter fails validation while
    // the AppImage exporter starts.
    let meta = meta_for("foo", "");
    let mut exporters = vec![
        Exporter::Debian(enabled_debian()),
        Exporter::AppImage(enabled_app_image()),
    ];
    let report = run_all(&mut exporters, &meta);

    match exporters[0].get_status() {
        ExportStatus::Failure(message) => {
            assert_eq!(message, "Debian: Project version cannot be empty.");
        }
        _ => panic!("expected the failing exporter to record its failure"),
    }
    assert!(matches!(exporters[1].get_status(), ExportStatus::InProgress));

    assert_eq!(report.launches.len(), 1);
    assert_eq!(report.launches[0].index, 1);
    assert_eq!(report.launches[0].plan.command.program, "appimagetool");

    match report.first_error {
        Some(ExportError::Validation(message)) => {
            assert_eq!(message, "Debian: Project version cannot be empty.");
        }
        _ => panic!("expected the first validation error to be reported"),
    }
}

#[test]
fn run_all_skips_disabled_exporters() {
    let meta = meta_for("foo", "1.0");
    let mut disabled = enabled_debian();
    disabled.enable = false;
    let mut exporters = vec![Exporter::Debian(disabled), Exporter::Debian(enabled_debian())];
    let report = run_all(&mut exporters, &meta);
    assert!(matches!(exporters[0].get_status(), ExportStatus::Idle));
    assert!(matches!(exporters[1].get_status(), ExportStatus::InProgress));
    assert_eq!(report.launches.len(), 1);
    assert_eq!(report.launches[0].index, 1);
    assert!(report.first_error.is_none());
}

#[test]
fn all_settled_is_vacuously_true_of_an_empty_collection() {
    let exporters: Vec<Exporter> = Vec::new();
    assert!(all_settled(&exporters));
}

#[test]
fn all_settled_tracks_polled_outcomes() {
    let meta = meta_for("foo", "1.0");
    let mut exporters = vec![
        Exporter::Debian(enabled_debian()),
        Exporter::AppImage(enabled_app_image()),
    ];
    run_all(&mut exporters, &meta);
    assert!(!all_settled(&exporters));
    apply_outcome_at(&mut exporters, 0, Outcome::Success);
    assert!(!all_settled(&exporters));
    apply_outcome_at(&mut exporters, 1, Outcome::Failure("no tool".to_string()));
    assert!(all_settled(&exporters));
}

#[test]
fn debian_plan_without_optional_files() {
    let meta = meta_for("foo", "1.0");
    let mut exporter = Exporter::Debian(enabled_debian());
    let plan = exporter.run(&meta).unwrap().unwrap();
    // Only the control file and the desktop entry are planned.
    assert_eq!(plan.files.len(), 2);
    assert!(plan.files[0].path.ends_with("/DEBIAN/control"));
    assert!(plan.files[1].path.ends_with("/usr/share/applications/foo.desktop"));
}

#[test]
fn app_image_plan_without_optional_files() {
    let meta = meta_for("foo", "1.0");
    let mut exporter = Exporter::AppImage(enabled_app_image());
    let plan = exporter.run(&meta).unwrap().unwrap();
    // Only the rendered AppRun and the desktop entry are planned.
    assert_eq!(plan.files.len(), 2);
    assert!(plan.files[0].path.ends_with("/AppRun"));
    assert!(plan.files[1].path.ends_with("/foo.desktop"));
}

#[test]
fn run_all_over_an_empty_collection_reports_nothing() {
    let meta = meta_for("foo", "1.0");
    let mut exporters: Vec<Exporter> = Vec::new();
    let report = run_all(&mut exporters, &meta);
    assert!(report.launches.is_empty());
    assert!(report.first_error.is_none());
    assert!(all_settled(&exporters));
}

#[test]
fn remove_marked_filters_and_keeps_order() {
    let mut first = enabled_debian();
    first.name = "one".to_string();
    let mut second = enabled_app_image();
    second.name = "two".to_string();
    second.remove = true;
    let mut third = enabled_script("/bin/x.sh");
    third.name = "three".to_string();
    let mut exporters = vec![
        Exporter::Debian(first),
        Exporter::AppImage(second),
        Exporter::Script(third),
    ];
    remove_marked(&mut exporters);
    assert_eq!(exporters.len(), 2);
    assert!(matches!(&exporters[0], Exporter::Debian(d) if d.name == "one"));
    assert!(matches!(&exporters[1], Exporter::Script(s) if s.name == "three"));
}
