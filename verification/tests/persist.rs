use boondle::Debian;
use boondle::ExportStatus;
use boondle::Exporter;
use boondle::Layout;
use boondle::Meta;
use boondle::Project;
use boondle::Script;
use boondle::Setting;

fn sample_project() -> Project {
    let mut meta = Meta::default();
    meta.path = "/home/user/proj".to_string();
    meta.name = "foo".to_string();
    meta.icon = Some("/art/icon.png".to_string());
    meta.info = "a tool".to_string();
    meta.from = "me".to_string();
    meta.version = "1.0".to_string();
    meta.name_generic = "Tool".to_string();
    meta.comment = "does things".to_string();
    meta.category = "Utility".to_string();
    meta.key_word = "tool".to_string();
    meta.command_line = true;

    let mut debian = Debian::default();
    debian.name = "server".to_string();
    debian.binary = Some("/build/foo".to_string());
    debian.architecture = "amd64".to_string();
    debian.enable = true;
    debian.status = ExportStatus::Failure("left over".to_string());
    debian.remove = true;

    let mut script = Script::default();
    script.script = Some("/bin/pack.sh".to_string());
    script.layout = vec![
        Layout::Integer { name: "Count".to_string(), data: 42, remove: true },
        Layout::Boolean { name: "Fast".to_string(), data: true, remove: false },
    ];
    script.enable = true;
    script.status = ExportStatus::InProgress;

    let mut project = Project::new("/home/user/proj".to_string());
    project.meta = meta;
    project.compile.push(Exporter::Script(script));
    project.package.push(Exporter::Debian(debian));
    project
}

#[test]
fn config_round_trip_keeps_every_configuration_field() {
    let project = sample_project();
    let stored = project.to_config();
    let loaded = Project::from_config(stored);
    let stored_again = loaded.to_config();

    // The reloaded project carries the identical configuration...
    assert_eq!(stored_again.meta.path, "/home/user/proj");
    assert_eq!(stored_again.meta.name, "foo");
    assert_eq!(stored_again.meta.icon, Some("/art/icon.png".to_string()));
    assert_eq!(stored_again.meta.info, "a tool");
    assert_eq!(stored_again.meta.from, "me");
    assert_eq!(stored_again.meta.version, "1.0");
    assert_eq!(stored_again.meta.name_generic, "Tool");
    assert_eq!(stored_again.meta.comment, "does things");
    assert_eq!(stored_again.meta.category, "Utility");
    assert_eq!(stored_again.meta.key_word, "tool");
    assert!(stored_again.meta.command_line);
    assert_eq!(stored_again.compile.len(), 1);
    assert_eq!(stored_again.package.len(), 1);

    match &loaded.compile[0] {
        Exporter::Script(script) => {
            assert_eq!(script.name, "");
            assert_eq!(script.script, Some("/bin/pack.sh".to_string()));
            assert!(script.enable);
            assert_eq!(script.layout.len(), 2);
            assert!(matches!(
                &script.layout[0],
                Layout::Integer { name, data, remove } if name == "Count" && *data == 42 && !remove
            ));
            assert!(matches!(
                &script.layout[1],
                Layout::Boolean { name, data, remove } if name == "Fast" && *data && !remove
            ));
            // ...while the transient run state comes back at its defaults.
            assert!(matches!(script.status, ExportStatus::Idle));
            assert!(!script.remove);
        }
        _ => panic!("expected the script exporter"),
    }
    match &loaded.package[0] {
        Exporter::Debian(debian) => {
            assert_eq!(debian.name, "server");
            assert_eq!(debian.binary, Some("/build/foo".to_string()));
            assert_eq!(debian.architecture, "amd64");
            assert!(debian.enable);
            assert!(matches!(debian.status, ExportStatus::Idle));
            assert!(!debian.remove);
        }
        _ => panic!("expected the Debian exporter"),
    }
}

#[test]
fn project_new_records_the_path_only() {
    let project = Project::new("/tmp/p.json".to_string());
    assert_eq!(project.meta.path, "/tmp/p.json");
    assert_eq!(project.meta.name, "");
    assert!(project.compile.is_empty());
    assert!(project.package.is_empty());
}

#[test]
fn history_add_appends_once() {
    let mut setting = Setting::default();
    setting.history_add("/a.json".to_string());
    setting.history_add("/b.json".to_string());
    setting.history_add("/a.json".to_string());
    assert_eq!(setting.history, vec!["/a.json".to_string(), "/b.json".to_string()]);
}
