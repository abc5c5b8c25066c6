use chezmoi_modify_manager::config::Source;
use chezmoi_modify_manager::paths::{
    data_file_name, is_script_name, resolve_relative_path, source_path, SourceEnv, SourceError,
};

#[test]
fn data_file_names() {
    assert_eq!(data_file_name("modify_a.ini.tmpl"), "a.ini.src.ini");
    assert_eq!(data_file_name("modify_a.ini"), "a.ini.src.ini");
    assert_eq!(data_file_name("a.ini.tmpl"), "a.ini.src.ini");
    assert_eq!(data_file_name("a.ini"), "a.ini.src.ini");
    assert_eq!(data_file_name("modify_"), ".src.ini");
    assert_eq!(data_file_name("modify_.tmpl"), ".src.ini");
    assert_eq!(data_file_name(""), ".src.ini");
    // Only one prefix and one suffix go.
    assert_eq!(
        data_file_name("modify_modify_x.tmpl.tmpl"),
        "modify_x.tmpl.src.ini"
    );
    assert!(is_script_name("modify_x"));
    assert!(is_script_name("modify_"));
    assert!(!is_script_name("modify"));
    assert!(!is_script_name("xmodify_"));
}

#[test]
fn data_file_lies_beside_the_script() {
    assert_eq!(
        resolve_relative_path("/src/dot_config/modify_a.ini.tmpl"),
        Ok("/src/dot_config/a.ini.src.ini".to_string())
    );
    assert_eq!(
        resolve_relative_path("modify_a.ini"),
        Ok("a.ini.src.ini".to_string())
    );
    assert_eq!(resolve_relative_path("/"), Err(SourceError::NoFileName));
    assert_eq!(resolve_relative_path("a/.."), Err(SourceError::NoFileName));
}

#[test]
fn source_is_located_when_asked() {
    let none = SourceEnv {
        source_dir: None,
        source_file: None,
    };
    let env = SourceEnv {
        source_dir: Some("/src".to_string()),
        source_file: Some("dot_config/modify_a.ini.tmpl".to_string()),
    };
    assert_eq!(
        source_path(&Source::Path("/x/y.ini".into()), "/s/modify_a", &none),
        Ok("/x/y.ini".to_string())
    );
    assert_eq!(
        source_path(&Source::AutoPath, "/s/modify_a.tmpl", &none),
        Ok("/s/a.src.ini".to_string())
    );
    assert_eq!(
        source_path(&Source::AutoEnv, "/s/modify_a.tmpl", &env),
        Ok("/src/dot_config/a.ini.src.ini".to_string())
    );
    assert_eq!(
        source_path(&Source::AutoEnv, "/s/modify_a.tmpl", &none),
        Err(SourceError::NoSourceDir)
    );
    let half = SourceEnv {
        source_dir: Some("/src".to_string()),
        source_file: None,
    };
    assert_eq!(
        source_path(&Source::AutoEnv, "/s/modify_a.tmpl", &half),
        Err(SourceError::NoSourceFile)
    );
}
