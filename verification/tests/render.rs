use boondle::AppImage;
use boondle::Debian;
use boondle::ExportStatus;
use boondle::Meta;
use boondle::format_tag;
use boondle::format_tag_name;
use boondle::format_tag_present;
use boondle::int_to_text;

fn meta_with(name: &str, version: &str, from: &str, info: &str) -> Meta {
    let mut meta = Meta::default();
    meta.name = name.to_string();
    meta.version = version.to_string();
    meta.from = from.to_string();
    meta.info = info.to_string();
    meta
}

#[test]
fn desktop_file_icon_at_root() {
    let meta = meta_with("App", "1.0", "", "");
    let text = meta.create_desktop_file(true);
    assert_eq!(
        text,
        "[Desktop Entry]\nName=App\nIcon=/App-icon\nExec=/usr/bin/App\nType=Application\nCategories=Utility;\n"
    );
}

#[test]
fn desktop_file_icon_in_shared_directory() {
    let meta = meta_with("App", "1.0", "", "");
    let text = meta.create_desktop_file(false);
    assert_eq!(
        text,
        "[Desktop Entry]\nName=App\nIcon=/usr/share/icons/App-icon\nExec=/usr/bin/App\nType=Application\nCategories=Utility;\n"
    );
}

#[test]
fn desktop_file_empty_name_is_still_well_formed() {
    let meta = Meta::default();
    let text = meta.create_desktop_file(true);
    assert_eq!(
        text,
        "[Desktop Entry]\nName=\nIcon=/-icon\nExec=/usr/bin/\nType=Application\nCategories=Utility;\n"
    );
}

#[test]
fn control_file_field_order_and_values() {
    let meta = meta_with("foo", "1.0", "me", "desc");
    let mut debian = Debian::default();
    debian.architecture = "amd64".to_string();
    let text = debian.file_control(&meta);
    assert_eq!(
        text,
        "Package: foo\nVersion: 1.0\nArchitecture: amd64\nEssential: no\nPriority: optional\nDepends:\nMaintainer: me\nDescription: desc\n"
    );
}

#[test]
fn control_file_substitutes_verbatim() {
    let meta = meta_with("a b", "2:1~3", "Jane <j@example.org>", "line with: colon");
    let mut debian = Debian::default();
    debian.architecture = "all".to_string();
    let text = debian.file_control(&meta);
    assert_eq!(
        text,
        "Package: a b\nVersion: 2:1~3\nArchitecture: all\nEssential: no\nPriority: optional\nDepends:\nMaintainer: Jane <j@example.org>\nDescription: line with: colon\n"
    );
}

#[test]
fn app_run_script_text() {
    let meta = meta_with("App", "1.0", "", "");
    let text = AppImage::file_app_run(&meta);
    assert_eq!(
        text,
        "#!/bin/bash\n\nexport APPDIR=\"$(dirname \"$(readlink -f \"$0\")\")\"\nexport PATH=\"$APPDIR/usr/bin/:$PATH\"\nexport LD_LIBRARY_PATH=\"$APPDIR/usr/lib:$PATH\"\nexport XDG_DATA_DIRS=\"$APPDIR/usr/share/:/usr/share/:$XDG_DATA_DIRS\"\n\n\"$APPDIR\"/usr/bin/App\n"
    );
}

#[test]
fn format_tag_with_and_without_tag() {
    assert_eq!(format_tag("Debian (.deb)", "server"), "Debian (.deb) - (server)");
    assert_eq!(format_tag("Debian (.deb)", ""), "Debian (.deb)");
}

#[test]
fn format_tag_name_with_and_without_tag() {
    assert_eq!(format_tag_name("app", "lite"), "app-lite");
    assert_eq!(format_tag_name("app", ""), "app");
}

#[test]
fn format_tag_present_with_and_without_tag() {
    assert_eq!(format_tag_present("lite"), "_lite");
    assert_eq!(format_tag_present(""), "");
}

#[test]
fn int_to_text_values() {
    assert_eq!(int_to_text(0), "0");
    assert_eq!(int_to_text(42), "42");
    assert_eq!(int_to_text(-7), "-7");
    assert_eq!(int_to_text(1000), "1000");
    assert_eq!(int_to_text(i64::MAX), "9223372036854775807");
    assert_eq!(int_to_text(i64::MIN), "-9223372036854775808");
}

#[test]
fn status_labels() {
    assert_eq!(ExportStatus::Idle.label(), "Idle");
    assert_eq!(ExportStatus::InProgress.label(), "In Progress");
    assert_eq!(ExportStatus::Success.label(), "Success");
    assert_eq!(ExportStatus::Failure("boom".to_string()).label(), "Failure: boom");
}

#[test]
fn status_default_is_idle_and_not_terminal() {
    let status = ExportStatus::default();
    assert!(matches!(status, ExportStatus::Idle));
    assert!(!status.is_terminal());
    assert!(ExportStatus::Success.is_terminal());
    assert!(ExportStatus::Failure("x".to_string()).is_terminal());
    assert!(!ExportStatus::InProgress.is_terminal());
}
