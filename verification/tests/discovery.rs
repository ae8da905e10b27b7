use mdrcp::artifacts::{collect_candidates, find_built_executables, merge_names, require_built};
use mdrcp::manifest::{bin_name, decode_manifest, manifest_bin_names, workspace_members};
use mdrcp::{BuildProfile, DeployError, Platform};

fn strings(items: &[&str]) -> Vec<String> {
    items.iter().map(|item| item.to_string()).collect()
}

fn manifest(text: &str) -> toml::Value {
    decode_manifest(text).unwrap()
}

fn package(name: &str) -> String {
    format!("[package]\nname=\"{}\"\nversion=\"0.1.0\"", name)
}

#[test]
fn decode_manifest_rejects_invalid_toml() {
    assert_eq!(
        decode_manifest("invalid = toml [ content").unwrap_err(),
        DeployError::ManifestInvalid
    );
    assert_eq!(
        decode_manifest("this = is not [ valid").unwrap_err(),
        DeployError::ManifestInvalid
    );
    assert!(decode_manifest("").is_ok());
    assert_eq!(
        decode_manifest("a = 1").unwrap(),
        toml::Value::Table(
            vec![("a".to_string(), toml::Value::Integer(1))].into_iter().collect()
        )
    );
}

#[test]
fn package_name_is_the_sole_candidate_without_bins() {
    assert_eq!(manifest_bin_names(&manifest(&package("demo"))), strings(&["demo"]));
}

#[test]
fn named_bin_comes_before_the_package() {
    let text = "[package]\nname=\"pkg\"\nversion=\"0.1.0\"\n\n[[bin]]\nname=\"toolx\"\npath=\"src/main.rs\"";
    assert_eq!(manifest_bin_names(&manifest(text)), strings(&["toolx", "pkg"]));
}

#[test]
fn bin_without_name_falls_back_to_the_stem_of_its_path() {
    let text = "[[bin]]\npath=\"src/tools/tool.rs\"\n[package]\nname=\"pkg\"\nversion=\"0.1.0\"";
    assert_eq!(manifest_bin_names(&manifest(text)), strings(&["tool", "pkg"]));
}

#[test]
fn bin_without_name_and_path_gives_no_name() {
    let text = "[[bin]]\ntest=false\n[[bin]]\nname=\"x\"\n[package]\nname=\"pkg\"";
    assert_eq!(manifest_bin_names(&manifest(text)), strings(&["x", "pkg"]));
}

#[test]
fn package_name_is_not_repeated() {
    let text = "[package]\nname=\"pkg\"\n[[bin]]\nname=\"pkg\"\n[[bin]]\nname=\"other\"";
    assert_eq!(manifest_bin_names(&manifest(text)), strings(&["pkg", "other"]));
}

#[test]
fn fields_of_the_wrong_type_yield_no_names() {
    assert!(manifest_bin_names(&manifest("bin = 3\n[package]\nname = 7")).is_empty());
    assert!(manifest_bin_names(&manifest("package = \"demo\"")).is_empty());
    assert!(manifest_bin_names(&manifest("")).is_empty());
    assert!(manifest_bin_names(&toml::Value::String("demo".to_string())).is_empty());
    let text = "[[bin]]\nname = 5\npath = \"src/cli.rs\"";
    assert_eq!(manifest_bin_names(&manifest(text)), strings(&["cli"]));
}

#[test]
fn bin_name_prefers_name_over_path() {
    let both = manifest("name=\"n\"\npath=\"src/p.rs\"");
    assert_eq!(bin_name(&both), Some("n".to_string()));
    let path = manifest("path=\"src/p.rs\"");
    assert_eq!(bin_name(&path), Some("p".to_string()));
    let dotted = manifest("path=\"src/a.b.rs\"");
    assert_eq!(bin_name(&dotted), Some("a.b".to_string()));
    let no_stem = manifest("path=\"..\"");
    assert_eq!(bin_name(&no_stem), None);
    assert_eq!(bin_name(&manifest("")), None);
}

#[test]
fn workspace_members_are_listed_verbatim() {
    let text = "[workspace]\nmembers=[\"a\", 42, \"missing\", \"bad\", \"c\"]";
    assert_eq!(
        workspace_members(&manifest(text)),
        strings(&["a", "missing", "bad", "c"])
    );
    assert_eq!(
        workspace_members(&manifest("[workspace]\nmembers=[\"crates/*\", \"./x/\"]")),
        strings(&["crates/*", "./x/"])
    );
    assert!(workspace_members(&manifest(&package("demo"))).is_empty());
    assert!(workspace_members(&manifest("[workspace]\nmembers=\"a\"")).is_empty());
    assert!(workspace_members(&manifest("workspace = 1")).is_empty());
}

#[test]
fn merge_names_adds_each_new_name_once() {
    let mut names = strings(&["a", "b"]);
    merge_names(&mut names, &strings(&["b", "c", "c", "a", "d"]));
    assert_eq!(names, strings(&["a", "b", "c", "d"]));
    merge_names(&mut names, &Vec::new());
    assert_eq!(names, strings(&["a", "b", "c", "d"]));
}

#[test]
fn manifest_without_package_or_bins_has_no_candidates() {
    let result = collect_candidates(&manifest(""), &Vec::new(), &Vec::new());
    assert_eq!(result, Err(DeployError::NoPackagesFound));
    assert!(result
        .unwrap_err()
        .message()
        .contains("No packages or bins found"));
}

#[test]
fn workspace_without_readable_members_has_no_candidates() {
    let root = manifest("[workspace]\nmembers=[\"a\",\"b\"]");
    let members = vec![None, Some("not [ toml".to_string())];
    assert_eq!(
        collect_candidates(&root, &Vec::new(), &members),
        Err(DeployError::NoPackagesFound)
    );
}

#[test]
fn candidates_are_the_union_without_repeats() {
    let root = manifest("[package]\nname=\"root\"\n[workspace]\nmembers=[\"sub\",\"root2\"]");
    let members = vec![Some(package("sub")), Some(package("root"))];
    assert_eq!(
        collect_candidates(&root, &strings(&["Product", "sub"]), &members),
        Ok(strings(&["root", "Product", "sub"]))
    );
}

#[test]
fn extra_names_alone_are_candidates() {
    assert_eq!(
        collect_candidates(&manifest(""), &strings(&["MyApp"]), &Vec::new()),
        Ok(strings(&["MyApp"]))
    );
}

#[test]
fn members_with_invalid_entries_are_passed_over() {
    let root = manifest("[workspace]\nmembers=[\"a\", 42, \"missing\", \"bad\", \"c\"]");
    assert_eq!(workspace_members(&root).len(), 4);
    let members = vec![
        Some(package("a")),
        None,
        Some("this = is not [ valid".to_string()),
        Some(package("c")),
    ];
    let candidates = collect_candidates(&root, &Vec::new(), &members).unwrap();
    assert_eq!(candidates, strings(&["a", "c"]));
    let built = find_built_executables(&candidates, &strings(&["a", "c"]), Platform::Unix);
    assert_eq!(built, strings(&["a", "c"]));
}

#[test]
fn workspace_with_partial_builds_resolves_to_the_built_members() {
    let root = manifest("[workspace]\nmembers=[\"a\",\"b\",\"c\"]");
    let members = vec![Some(package("a")), Some(package("b")), Some(package("c"))];
    let candidates = collect_candidates(&root, &Vec::new(), &members).unwrap();
    assert_eq!(candidates, strings(&["a", "b", "c"]));
    let files = strings(&["c", "a", "a.d", "build"]);
    let built = find_built_executables(&candidates, &files, Platform::Unix);
    assert_eq!(built, strings(&["a", "c"]));
    assert_eq!(require_built(built, BuildProfile::Release), Ok(strings(&["a", "c"])));
}

#[test]
fn built_executables_go_by_the_platform_file_name() {
    let candidates = strings(&["a", "b"]);
    let files = strings(&["a.exe", "b"]);
    assert_eq!(find_built_executables(&candidates, &files, Platform::Windows), strings(&["a"]));
    assert_eq!(find_built_executables(&candidates, &files, Platform::Unix), strings(&["b"]));
    assert!(find_built_executables(&candidates, &Vec::new(), Platform::Unix).is_empty());
    assert!(find_built_executables(&Vec::new(), &files, Platform::Unix).is_empty());
}

#[test]
fn nothing_built_is_its_own_error() {
    let candidates = collect_candidates(
        &manifest(&package("test")),
        &Vec::new(),
        &Vec::new(),
    )
    .unwrap();
    let built = find_built_executables(&candidates, &Vec::new(), Platform::Unix);
    let release = require_built(built.clone(), BuildProfile::Release).unwrap_err();
    assert_eq!(release, DeployError::NoBuiltExecutables(BuildProfile::Release));
    assert!(release.message().contains("No built release executables found"));
    let debug = require_built(built, BuildProfile::Debug).unwrap_err();
    assert!(debug.message().contains("No built debug executables found"));
    assert_ne!(release, DeployError::NoPackagesFound);
}

#[test]
fn missing_manifest_has_its_own_error() {
    let result = mdrcp::manifest::open_manifest(&mdrcp::manifest::ManifestFile::Missing);
    assert!(result.is_err());
    assert!(result
        .unwrap_err()
        .message()
        .contains("No Cargo.toml found"));
}

#[test]
fn invalid_manifest_has_its_own_error() {
    let result = mdrcp::manifest::open_manifest(&mdrcp::manifest::ManifestFile::Text(
        "invalid = toml [ content".to_string(),
    ));
    assert!(result.is_err());
    assert!(result.unwrap_err().message().contains("Failed to parse"));
}

#[test]
fn unreadable_manifest_has_its_own_error() {
    let result = mdrcp::manifest::open_manifest(&mdrcp::manifest::ManifestFile::Unreadable);
    assert_eq!(result.unwrap_err(), DeployError::ManifestUnreadable);
    let opened = mdrcp::manifest::open_manifest(&mdrcp::manifest::ManifestFile::Text(
        package("demo"),
    ));
    assert_eq!(manifest_bin_names(&opened.unwrap()), strings(&["demo"]));
}

#[test]
fn resolved_artifacts_pair_names_with_files() {
    let found = mdrcp::artifacts::resolve_artifacts(
        &strings(&["a", "b"]),
        &strings(&["b.exe", "a"]),
        Platform::Windows,
    );
    assert_eq!(
        found,
        vec![
            mdrcp::artifacts::ResolvedArtifact {
                name: "a".to_string(),
                file_name: "a.exe".to_string(),
                exists: false,
            },
            mdrcp::artifacts::ResolvedArtifact {
                name: "b".to_string(),
                file_name: "b.exe".to_string(),
                exists: true,
            },
        ]
    );
    assert_eq!(mdrcp::artifacts::built_executables(&found), strings(&["b"]));
}

#[test]
fn product_name_is_an_extra_candidate() {
    assert_eq!(
        mdrcp::tauri::extra_names("{\"productName\": \"My Tauri App\"}"),
        strings(&["My Tauri App"])
    );
    assert!(mdrcp::tauri::extra_names("{}").is_empty());
    assert!(mdrcp::tauri::extra_names("{\"productName\": 3}").is_empty());
    assert!(mdrcp::tauri::extra_names("[\"productName\"]").is_empty());
    assert!(mdrcp::tauri::extra_names("\"productName\"").is_empty());
    assert!(mdrcp::tauri::extra_names("{\"productName\": ").is_empty());
    assert!(mdrcp::tauri::extra_names("{\"package\": {\"productName\": \"x\"}}").is_empty());
    let config = serde_json::from_str::<serde_json::Value>("{\"productName\": \"MyApp\"}");
    assert_eq!(mdrcp::tauri::product_name(&config.unwrap()), Some("MyApp".to_string()));
}

#[test]
fn tauri_product_name_is_found_when_only_it_was_built() {
    let root = manifest(&package("tauri-backend"));
    let extra = mdrcp::tauri::extra_names("{\"productName\": \"MyApp\"}");
    let candidates = collect_candidates(&root, &extra, &Vec::new()).unwrap();
    assert_eq!(candidates, strings(&["tauri-backend", "MyApp"]));
    let built = find_built_executables(&candidates, &strings(&["MyApp"]), Platform::Unix);
    assert_eq!(built, strings(&["MyApp"]));
}

#[test]
fn only_a_tauri_application_has_extra_names() {
    let config = "{\"productName\": \"MyApp\"}";
    assert_eq!(
        mdrcp::tauri::packaging_names(mdrcp::ProjectType::Tauri, Some(config)),
        strings(&["MyApp"])
    );
    assert!(mdrcp::tauri::packaging_names(mdrcp::ProjectType::Standard, Some(config)).is_empty());
    assert!(mdrcp::tauri::packaging_names(mdrcp::ProjectType::Tauri, None).is_empty());
    assert!(mdrcp::tauri::packaging_names(mdrcp::ProjectType::Tauri, Some("{}")).is_empty());
}

#[test]
fn discovery_refuses_a_project_without_candidates() {
    let files = strings(&["demo"]);
    assert_eq!(
        mdrcp::artifacts::discover_built_executables(
            &manifest(""),
            &Vec::new(),
            &Vec::new(),
            &files,
            Platform::Unix,
        ),
        Err(DeployError::NoPackagesFound)
    );
    assert_eq!(
        mdrcp::artifacts::discover_built_executables(
            &manifest(&package("demo")),
            &Vec::new(),
            &Vec::new(),
            &Vec::new(),
            Platform::Unix,
        ),
        Ok(Vec::new())
    );
    let root = manifest("[workspace]\nmembers=[\"a\",\"b\",\"c\"]");
    let members = vec![Some(package("a")), Some(package("b")), Some(package("c"))];
    assert_eq!(
        mdrcp::artifacts::discover_built_executables(
            &root,
            &strings(&["extra"]),
            &members,
            &strings(&["c.exe", "a.exe", "extra.exe", "b"]),
            Platform::Windows,
        ),
        Ok(strings(&["extra", "a", "c"]))
    );
}
