use plist::{Dictionary, Value};
use td_rs::bundle::{
    build_plan, built_bundle_path, bundle_name, cargo_arguments, cargo_packages, installed_bundle_path, library_name,
    pbxproj_path, plugin_target_dir, runtime_package, static_library_name, static_library_path, template_path,
    xcodebuild_arguments, xcodeproj_dir, PluginType, PLUGIN_HOME, TARGET,
};
use td_rs::project::{set_object_text, write_xcodeproj, BUNDLE_CONFIGURATION_KEY, BUNDLE_KEY, LIB_KEY};

fn object(pairs: &[(&str, &str)]) -> Value {
    let mut fields = Dictionary::new();
    for (key, text) in pairs {
        fields.insert(key.to_string(), Value::String(text.to_string()));
    }
    Value::Dictionary(fields)
}

fn template() -> Value {
    let mut objects = Dictionary::new();
    objects.insert(LIB_KEY.to_string(), object(&[("isa", "PBXFileReference"), ("name", "libold.a"), ("path", "old")]));
    objects.insert(BUNDLE_KEY.to_string(), object(&[("isa", "PBXFileReference"), ("name", "old.plugin")]));
    objects.insert("0000".to_string(), object(&[("name", "other")]));
    objects.insert(BUNDLE_CONFIGURATION_KEY.to_string(), object(&[("name", "old"), ("productName", "old")]));
    let mut root = Dictionary::new();
    root.insert("archiveVersion".to_string(), Value::String("1".to_string()));
    root.insert("objects".to_string(), Value::Dictionary(objects));
    Value::Dictionary(root)
}

fn setting<'a>(project: &'a Value, object: &str, field: &str) -> Option<&'a str> {
    project.as_dictionary()?.get("objects")?.as_dictionary()?.get(object)?.as_dictionary()?.get(field)?.as_string()
}

#[test]
fn template_becomes_the_plugins_project() {
    let mut project = template();
    assert!(write_xcodeproj(&mut project, "aarch64-apple-darwin", "sin_chop"));
    assert_eq!(setting(&project, LIB_KEY, "name"), Some("libsin_chop.a"));
    assert_eq!(setting(&project, LIB_KEY, "path"), Some("target/aarch64-apple-darwin/release/libsin_chop.a"));
    assert_eq!(setting(&project, LIB_KEY, "isa"), Some("PBXFileReference"));
    assert_eq!(setting(&project, BUNDLE_KEY, "name"), Some("sin_chop.plugin"));
    assert_eq!(setting(&project, BUNDLE_CONFIGURATION_KEY, "name"), Some("sin_chop"));
    assert_eq!(setting(&project, BUNDLE_CONFIGURATION_KEY, "productName"), Some("sin_chop"));
    assert_eq!(setting(&project, "0000", "name"), Some("other"));
    assert_eq!(project.as_dictionary().unwrap().get("archiveVersion").unwrap().as_string(), Some("1"));
    let keys: Vec<&String> =
        project.as_dictionary().unwrap().get("objects").unwrap().as_dictionary().unwrap().keys().collect();
    assert_eq!(keys, vec![LIB_KEY, BUNDLE_KEY, "0000", BUNDLE_CONFIGURATION_KEY]);
}

#[test]
fn a_document_without_the_objects_is_no_template() {
    let mut root = Dictionary::new();
    let mut objects = Dictionary::new();
    objects.insert(LIB_KEY.to_string(), object(&[("name", "libold.a")]));
    root.insert("objects".to_string(), Value::Dictionary(objects));
    let mut project = Value::Dictionary(root);
    assert!(!write_xcodeproj(&mut project, TARGET, "p"));
    assert_eq!(setting(&project, LIB_KEY, "name"), Some("libp.a"));
    assert_eq!(setting(&project, LIB_KEY, "path"), Some("target/aarch64-apple-darwin/release/libp.a"));
    assert_eq!(setting(&project, BUNDLE_KEY, "name"), None);

    let mut text = Value::String("no dictionary".to_string());
    assert!(!write_xcodeproj(&mut text, TARGET, "p"));
    assert_eq!(text, Value::String("no dictionary".to_string()));
}

#[test]
fn a_setting_is_set_only_in_an_object_that_is_there() {
    let mut project = template();
    assert!(set_object_text(&mut project, "0000", "name", "changed".to_string()));
    assert_eq!(setting(&project, "0000", "name"), Some("changed"));
    assert!(set_object_text(&mut project, "0000", "added", "new".to_string()));
    assert_eq!(setting(&project, "0000", "added"), Some("new"));

    let before = project.clone();
    assert!(!set_object_text(&mut project, "missing", "name", "x".to_string()));
    assert_eq!(project, before);

    let mut objects_is_text = Dictionary::new();
    objects_is_text.insert("objects".to_string(), Value::String("text".to_string()));
    let mut odd = Value::Dictionary(objects_is_text);
    let odd_before = odd.clone();
    assert!(!set_object_text(&mut odd, "0000", "name", "x".to_string()));
    assert_eq!(odd, odd_before);

    let mut object_is_text = template();
    object_is_text
        .as_dictionary_mut()
        .unwrap()
        .get_mut("objects")
        .unwrap()
        .as_dictionary_mut()
        .unwrap()
        .insert("flat".to_string(), Value::String("text".to_string()));
    let flat_before = object_is_text.clone();
    assert!(!set_object_text(&mut object_is_text, "flat", "name", "x".to_string()));
    assert_eq!(object_is_text, flat_before);
}

#[test]
fn a_setting_replaces_what_stood_there() {
    let mut project = template();
    let nested = object(&[("deep", "value")]);
    project
        .as_dictionary_mut()
        .unwrap()
        .get_mut("objects")
        .unwrap()
        .as_dictionary_mut()
        .unwrap()
        .get_mut("0000")
        .unwrap()
        .as_dictionary_mut()
        .unwrap()
        .insert("name".to_string(), nested);
    assert!(set_object_text(&mut project, "0000", "name", "flat".to_string()));
    assert_eq!(setting(&project, "0000", "name"), Some("flat"));
}

#[test]
fn library_names_turn_dashes_into_underscores() {
    assert_eq!(library_name("sin-chop"), "sin_chop");
    assert_eq!(library_name("a-b-c-"), "a_b_c_");
    assert_eq!(library_name("plain"), "plain");
    assert_eq!(library_name(""), "");
    assert_eq!(library_name("gén-érateur"), "gén_érateur");
}

#[test]
fn project_paths() {
    assert_eq!(xcodeproj_dir("sin_chop"), "sin_chop.xcodeproj");
    assert_eq!(pbxproj_path("sin_chop"), "sin_chop.xcodeproj/project.pbxproj");
    assert_eq!(pbxproj_path(""), ".xcodeproj/project.pbxproj");
    assert_eq!(template_path(PluginType::Chop), "td-rs-xtask/xcode/chop/project.pbxproj");
    assert_eq!(template_path(PluginType::Sop), "td-rs-xtask/xcode/sop/project.pbxproj");
    assert_eq!(template_path(PluginType::Dat), "td-rs-xtask/xcode/dat/project.pbxproj");
    assert_eq!(template_path(PluginType::Top), "td-rs-xtask/xcode/top/project.pbxproj");
}

#[test]
fn build_packages_and_arguments() {
    assert_eq!(runtime_package(PluginType::Chop), "td-rs-chop");
    assert_eq!(runtime_package(PluginType::Sop), "td-rs-sop");
    assert_eq!(runtime_package(PluginType::Dat), "td-rs-dat");
    assert_eq!(runtime_package(PluginType::Top), "td-rs-top");
    assert_eq!(cargo_packages("sin-chop", PluginType::Chop), vec!["sin-chop", "td-rs-chop"]);
    assert_eq!(cargo_arguments(TARGET), vec!["--release", "--target=aarch64-apple-darwin"]);
    assert_eq!(xcodebuild_arguments("sin_chop"), vec!["-project", "./sin_chop.xcodeproj", "clean", "build"]);
}

#[test]
fn bundle_places() {
    assert_eq!(PLUGIN_HOME, "target/plugin");
    assert_eq!(bundle_name("sin_chop"), "sin_chop.plugin");
    assert_eq!(built_bundle_path("sin_chop"), "build/Release/sin_chop.plugin");
    assert_eq!(plugin_target_dir("sin_chop"), "target/plugin/sin_chop");
    assert_eq!(installed_bundle_path("sin_chop"), "target/plugin/sin_chop/sin_chop.plugin");
    assert_eq!(static_library_name("sin_chop"), "libsin_chop.a");
    assert_eq!(static_library_path("x86_64-apple-darwin", "sin_chop"), "target/x86_64-apple-darwin/release/libsin_chop.a");
}

#[test]
fn the_plan_of_a_build_goes_by_the_library_name() {
    let plan = build_plan("sin-chop", PluginType::Chop);
    assert_eq!(plan.packages, vec!["sin-chop", "td-rs-chop"]);
    assert_eq!(plan.cargo_arguments, vec!["--release", "--target=aarch64-apple-darwin"]);
    assert_eq!(plan.library, "sin_chop");
    assert_eq!(plan.template, "td-rs-xtask/xcode/chop/project.pbxproj");
    assert_eq!(plan.project_dir, "sin_chop.xcodeproj");
    assert_eq!(plan.project_file, "sin_chop.xcodeproj/project.pbxproj");
    assert_eq!(plan.xcodebuild_arguments, vec!["-project", "./sin_chop.xcodeproj", "clean", "build"]);
    assert_eq!(plan.built_bundle, "build/Release/sin_chop.plugin");
    assert_eq!(plan.target_dir, "target/plugin/sin_chop");
    assert_eq!(plan.installed_bundle, "target/plugin/sin_chop/sin_chop.plugin");

    let table = build_plan("grid", PluginType::Dat);
    assert_eq!(table.packages, vec!["grid", "td-rs-dat"]);
    assert_eq!(table.library, "grid");
    assert_eq!(table.template, "td-rs-xtask/xcode/dat/project.pbxproj");
}

#[test]
fn values_of_every_other_kind_are_carried_over() {
    let mut project = template();
    let children = Value::Array(vec![Value::String("first".to_string()), object(&[("name", "inside an array")])]);
    {
        let root = project.as_dictionary_mut().unwrap();
        root.insert("objectVersion".to_string(), Value::Integer(56.into()));
        root.insert("classes".to_string(), Value::Array(Vec::new()));
        root.insert("ratio".to_string(), Value::Real(1.5));
        root.insert("signed".to_string(), Value::Boolean(true));
        root.insert("blob".to_string(), Value::Data(vec![1, 2, 3]));
        let objects = root.get_mut("objects").unwrap().as_dictionary_mut().unwrap();
        objects.insert("group".to_string(), children.clone());
        let library = objects.get_mut(LIB_KEY).unwrap().as_dictionary_mut().unwrap();
        library.insert("children".to_string(), children.clone());
        library.insert("includeInIndex".to_string(), Value::Integer(0.into()));
    }
    let before = project.clone();
    assert!(write_xcodeproj(&mut project, "aarch64-apple-darwin", "sin_chop"));

    let root = project.as_dictionary().unwrap();
    let root_before = before.as_dictionary().unwrap();
    for key in ["archiveVersion", "objectVersion", "classes", "ratio", "signed", "blob"] {
        assert_eq!(root.get(key), root_before.get(key));
    }
    assert_eq!(root.len(), root_before.len());
    let objects = root.get("objects").unwrap().as_dictionary().unwrap();
    let objects_before = root_before.get("objects").unwrap().as_dictionary().unwrap();
    assert_eq!(objects.len(), objects_before.len());
    assert_eq!(objects.get("group"), Some(&children));
    assert_eq!(objects.get("0000"), objects_before.get("0000"));
    let library = objects.get(LIB_KEY).unwrap().as_dictionary().unwrap();
    assert_eq!(library.get("children"), Some(&children));
    assert_eq!(library.get("includeInIndex"), Some(&Value::Integer(0.into())));
    assert_eq!(library.get("isa").and_then(Value::as_string), Some("PBXFileReference"));
    assert_eq!(library.get("name").and_then(Value::as_string), Some("libsin_chop.a"));
    assert_eq!(library.len(), 5);

    let mut array = Value::Array(vec![object(&[("objects", "x")])]);
    let array_before = array.clone();
    assert!(!write_xcodeproj(&mut array, TARGET, "p"));
    assert_eq!(array, array_before);

    let mut under_array = template();
    under_array
        .as_dictionary_mut()
        .unwrap()
        .get_mut("objects")
        .unwrap()
        .as_dictionary_mut()
        .unwrap()
        .insert("listed".to_string(), Value::Array(Vec::new()));
    let under_array_before = under_array.clone();
    assert!(!set_object_text(&mut under_array, "listed", "name", "x".to_string()));
    assert_eq!(under_array, under_array_before);
}
