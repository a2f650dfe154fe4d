use mrt::archetypes::{get_archetype_by_id, get_archetypes, match_archetype, ArchetypeKind};
use mrt::commands::{CommandResult, ListArgs, ListResult};
use mrt::nodejs_npm::NpmPackageInfoExtractor;
use mrt::package::{DirectoryProbe, FileSnapshot, Package, PackageInfoExtractor, PackageStatus};
use mrt::project::{filter_packages, Project};
use mrt::python_poetry::PoetryPackageInfoExtractor;

fn empty_probe() -> DirectoryProbe {
    DirectoryProbe { package_json: FileSnapshot::Absent, pyproject_toml: FileSnapshot::Absent }
}

fn npm_probe(manifest: &[u8]) -> DirectoryProbe {
    DirectoryProbe {
        package_json: FileSnapshot::Present(manifest.to_vec()),
        pyproject_toml: FileSnapshot::Absent,
    }
}

fn poetry_probe(manifest: &[u8]) -> DirectoryProbe {
    DirectoryProbe {
        package_json: FileSnapshot::Absent,
        pyproject_toml: FileSnapshot::Present(manifest.to_vec()),
    }
}

#[test]
fn test_from_package_path_no_folder_exists() {
    let result = NpmPackageInfoExtractor::from_package_path(&empty_probe());
    assert!(result.is_err());
}

#[test]
fn test_from_package_path_invalid_package_json() {
    let result = NpmPackageInfoExtractor::from_package_path(&npm_probe(b"{ not valid json"));
    assert!(result.is_err());
}

#[test]
fn test_from_package_path_success() {
    let manifest = b"{\"name\":\"node-lib1\",\"version\":\"1.0.0\"}";
    let result = NpmPackageInfoExtractor::from_package_path(&npm_probe(manifest)).unwrap();
    assert_eq!(result.name, "node-lib1");
}

#[test]
fn info_test_from_package_path_no_folder_exists() {
    let result = PoetryPackageInfoExtractor::from_package_path(&empty_probe());
    assert!(result.is_err());
}

#[test]
fn info_test_from_package_path_success() {
    let manifest = b"[tool.poetry]\nname = \"py_lib2\"\nversion = \"0.1.0\"\n";
    let result = PoetryPackageInfoExtractor::from_package_path(&poetry_probe(manifest)).unwrap();
    assert_eq!(result.get_name(), "py_lib2");
}

#[test]
fn npm_classification_reads_manifest_fields() {
    let probe = npm_probe(b"{\"name\":\"foo\",\"version\":\"1.0.0\"}");
    let package = Package::from_package_path(
        String::from("/repo/packages/foo"),
        String::from("/repo"),
        &probe,
    )
    .unwrap();
    assert_eq!(package.archetype_id, "nodejs/npm");
    assert!(matches!(package.status, PackageStatus::Valid));
    assert_eq!(package.name, "foo");
    assert_eq!(package.version, "1.0.0");
    assert_eq!(package.path, "packages/foo");
    assert_eq!(package.absolute_path, "/repo/packages/foo");
}

#[test]
fn poetry_classification_reads_manifest_fields() {
    let probe = poetry_probe(b"[tool.poetry]\nname = \"bar\"\nversion = \"2.0.0\"\n");
    let package = Package::from_package_path(
        String::from("/repo/packages/bar"),
        String::from("/repo"),
        &probe,
    )
    .unwrap();
    assert_eq!(package.archetype_id, "python/poetry");
    assert!(matches!(package.status, PackageStatus::Valid));
    assert_eq!(package.name, "bar");
    assert_eq!(package.version, "2.0.0");
}

#[test]
fn undetected_directory_has_empty_archetype_id() {
    let package = Package::from_package_path(
        String::from("/repo/packages/misc"),
        String::from("/repo"),
        &empty_probe(),
    )
    .unwrap();
    assert!(matches!(package.status, PackageStatus::CannotDetectArchetype));
    assert_eq!(package.archetype_id, "");
    assert_eq!(package.name, "n/a");
    assert_eq!(package.version, "n/a");
}

#[test]
fn unreadable_manifest_is_cannot_read() {
    let probe = DirectoryProbe {
        package_json: FileSnapshot::Unreadable(String::from("permission denied")),
        pyproject_toml: FileSnapshot::Absent,
    };
    let package = Package::from_package_path(
        String::from("/repo/packages/locked"),
        String::from("/repo"),
        &probe,
    )
    .unwrap();
    assert_eq!(package.archetype_id, "nodejs/npm");
    assert!(matches!(package.status, PackageStatus::CannotRead(_)));
    assert_eq!(package.name, "n/a");
    assert_eq!(package.version, "n/a");
}

#[test]
fn package_outside_project_root_is_rejected() {
    let result = Package::from_package_path(
        String::from("/elsewhere/foo"),
        String::from("/repo"),
        &empty_probe(),
    );
    assert!(result.is_err());
}

#[test]
fn npm_detector_wins_registry_order_tie() {
    let both = DirectoryProbe {
        package_json: FileSnapshot::Present(b"{}".to_vec()),
        pyproject_toml: FileSnapshot::Present(b"[tool.poetry]\n".to_vec()),
    };
    let matched = match_archetype(&both).unwrap();
    assert!(matches!(matched, ArchetypeKind::NodeJsNpm(_)));
}

#[test]
fn poetry_detector_requires_marker_section() {
    let with_marker = poetry_probe(b"[tool.poetry]\nname = \"x\"\n");
    assert!(matches!(match_archetype(&with_marker), Some(ArchetypeKind::PythonPoetry(_))));
    let without_marker = poetry_probe(b"[build-system]\nrequires = []\n");
    assert!(match_archetype(&without_marker).is_none());
}

#[test]
fn registry_is_ordered_and_lookup_by_id_works() {
    let archetypes = get_archetypes();
    assert_eq!(archetypes.len(), 2);
    assert!(matches!(archetypes[0], ArchetypeKind::NodeJsNpm(_)));
    assert!(matches!(archetypes[1], ArchetypeKind::PythonPoetry(_)));
    assert!(matches!(get_archetype_by_id("nodejs/npm"), Some(ArchetypeKind::NodeJsNpm(_))));
    assert!(matches!(get_archetype_by_id("python/poetry"), Some(ArchetypeKind::PythonPoetry(_))));
    assert!(get_archetype_by_id("ruby/bundler").is_none());
}

#[test]
fn status_rendering_and_validity() {
    assert!(PackageStatus::Valid.is_valid());
    assert!(!PackageStatus::CannotDetectArchetype.is_valid());
    assert_eq!(PackageStatus::Valid.describe(), "Valid");
    assert_eq!(PackageStatus::CannotRead(String::from("boom")).describe(), "Error: boom");
    assert_eq!(PackageStatus::CannotDetectArchetype.describe(), "Cannot detect archetype");
}

#[test]
fn project_reads_and_filters_packages() {
    let project = Project::from_root_path(String::from("/repo"));
    assert_eq!(project.get_root_path(), "/repo");
    assert_eq!(project.glob_patterns().len(), 2);
    assert_eq!(project.glob_patterns()[0], "./packages/*");
    assert_eq!(project.glob_patterns()[1], "./apps/*");

    let valid = project
        .read_package(
            String::from("/repo/packages/foo"),
            &npm_probe(b"{\"name\":\"foo\",\"version\":\"1.0.0\"}"),
        )
        .unwrap();
    let undetected = project
        .read_package(String::from("/repo/packages/misc"), &empty_probe())
        .unwrap();

    let kept = filter_packages(vec![valid.clone(), undetected.clone()], false);
    assert_eq!(kept.len(), 1);
    assert_eq!(kept[0].name, "foo");

    let all = filter_packages(vec![valid, undetected], true);
    assert_eq!(all.len(), 2);
    assert_eq!(all[1].path, "packages/misc");
}

#[test]
fn manifest_default_patterns() {
    let manifest = mrt::manifest::Manifest::new();
    assert_eq!(manifest.packages, vec![String::from("./packages/*"), String::from("./apps/*")]);
}

#[test]
fn list_args_select_and_wrap_results() {
    let project = Project::from_root_path(String::from("/repo"));
    let valid = project
        .read_package(
            String::from("/repo/packages/foo"),
            &npm_probe(b"{\"name\":\"foo\",\"version\":\"1.0.0\"}"),
        )
        .unwrap();
    let undetected = project
        .read_package(String::from("/repo/packages/misc"), &empty_probe())
        .unwrap();

    let selected = ListArgs { all: false }.select_packages(vec![valid.clone(), undetected.clone()]);
    assert_eq!(selected.len(), 1);
    let everything = ListArgs { all: true }.select_packages(vec![valid, undetected]);
    assert_eq!(everything.len(), 2);

    let result = ListResult { packages: everything };
    assert_eq!(result.get_result().packages.len(), 2);
}
