use uefi_run::error::ErrorKind;
use uefi_run::manifest::Manifest;
use uefi_run::resolve::get_binary_name;
use uefi_run::resolve::resolve_candidates;
use uefi_run::resolve::ManifestTree;
use uefi_run::select::find_binary_name;

#[test]
fn parse_one_bin_pattern() {
    let toml = r#"
        [package]
        name = "hoge"

        [[bin]]
        name = "fuga"
        path = "src/fuga/main.rs"
        "#;

    let names = get_binary_name(toml, Vec::new()).unwrap();
    assert_eq!(names.len(), 1);
    assert_eq!(names[0], "fuga");
}

#[test]
fn parse_multiple_bin_pattern() {
    let toml = r#"
        [package]
        name = "hoge"

        [[bin]]
        name = "hogehoge"
        path = "src/hogehoge/main.rs"

        [[bin]]
        name = "fugafuga"
        path = "src/fugafuga/main.rs"
        "#;

    let names = get_binary_name(toml, Vec::new()).unwrap();
    assert_eq!(names.len(), 2);
    assert_eq!(names[0], "hogehoge");
    assert_eq!(names[1], "fugafuga");
}

#[test]
fn parse_package_pattern() {
    let toml = r#"
        [package]
        name = "hoge"

        [dependencies]
        fuga = "0.1.0"
        "#;

    let names = get_binary_name(toml, Vec::new()).unwrap();
    assert_eq!(names.len(), 1);
    assert_eq!(names[0], "hoge");
}

#[test]
fn parse_error_is_reported() {
    let toml = "this is [not a manifest";
    let err = get_binary_name(toml, Vec::new()).unwrap_err();
    assert_eq!(err.kind(), ErrorKind::ManifestParseError);
}

#[test]
fn bin_entry_without_name_contributes_nothing() {
    let toml = r#"
        [package]
        name = "hoge"

        [[bin]]
        path = "src/unnamed/main.rs"

        [[bin]]
        name = "fuga"
        path = "src/fuga/main.rs"
        "#;

    let names = get_binary_name(toml, Vec::new()).unwrap();
    assert_eq!(names, vec!["fuga".to_string()]);
}

fn leaf_manifest(package: Option<&str>, bins: Vec<Option<&str>>) -> Manifest {
    Manifest {
        package_name: package.map(str::to_owned),
        bin_names: bins.into_iter().map(|b| b.map(str::to_owned)).collect(),
        workspace_members: Vec::new(),
    }
}

fn leaf_tree(package: Option<&str>, bins: Vec<Option<&str>>) -> ManifestTree {
    ManifestTree { manifest: leaf_manifest(package, bins), member_trees: Vec::new() }
}

#[test]
fn workspace_expansion_skips_missing_member() {
    let toml = r#"
        [workspace]
        members = ["a", "b"]
        "#;

    let member_a = leaf_tree(None, vec![Some("a-bin")]);
    let names = get_binary_name(toml, vec![Some(member_a), None]).unwrap();
    assert_eq!(names, vec!["a-bin".to_string()]);
}

#[test]
fn workspace_candidates_take_precedence_over_bins() {
    let toml = r#"
        [package]
        name = "umbrella"

        [workspace]
        members = ["member"]

        [[bin]]
        name = "direct"
        path = "src/direct/main.rs"
        "#;

    let member = leaf_tree(Some("from-member"), Vec::new());
    let names = get_binary_name(toml, vec![Some(member)]).unwrap();
    assert_eq!(names, vec!["from-member".to_string()]);
}

#[test]
fn empty_bin_list_falls_back_to_package_name() {
    let tree = leaf_tree(Some("hoge"), Vec::new());
    let names = resolve_candidates(&tree);
    assert_eq!(names, vec!["hoge".to_string()]);
}

#[test]
fn nameless_bins_fall_back_to_package_name() {
    let tree = leaf_tree(Some("hoge"), vec![None, None]);
    let names = resolve_candidates(&tree);
    assert_eq!(names, vec!["hoge".to_string()]);
}

#[test]
fn no_package_and_no_bins_yield_nothing() {
    let tree = leaf_tree(None, Vec::new());
    let names = resolve_candidates(&tree);
    assert!(names.is_empty());
}

#[test]
fn duplicate_name_across_members_counts_once() {
    let toml = r#"
        [workspace]
        members = ["a", "b"]
        "#;

    let member_a = leaf_tree(None, vec![Some("x")]);
    let member_b = leaf_tree(None, vec![Some("x")]);
    let names = get_binary_name(toml, vec![Some(member_a), None]).unwrap();
    assert_eq!(names, vec!["x".to_string()]);

    let member_a = leaf_tree(None, vec![Some("x")]);
    let names =
        get_binary_name(toml, vec![Some(member_a), Some(member_b)]).unwrap();
    assert_eq!(names, vec!["x".to_string()]);
}

#[test]
fn single_distinct_name_selects_without_request() {
    let toml = r#"
        [workspace]
        members = ["a", "b"]
        "#;

    let member_a = leaf_tree(None, vec![Some("x")]);
    let member_b = leaf_tree(None, vec![Some("x")]);
    let name = find_binary_name(&None, toml, vec![Some(member_a), Some(member_b)]).unwrap();
    assert_eq!(name, "x");
}

#[test]
fn duplicate_bin_names_count_once() {
    let toml = r#"
        [[bin]]
        name = "fuga"
        path = "src/one/main.rs"

        [[bin]]
        name = "fuga"
        path = "src/two/main.rs"
        "#;

    let names = get_binary_name(toml, Vec::new()).unwrap();
    assert_eq!(names, vec!["fuga".to_string()]);
}

#[test]
fn dedup_keeps_first_occurrence_order() {
    let member_one = leaf_tree(None, vec![Some("b"), Some("a")]);
    let member_two = leaf_tree(None, vec![Some("a"), Some("c")]);
    let tree = ManifestTree {
        manifest: Manifest {
            package_name: None,
            bin_names: Vec::new(),
            workspace_members: vec![Some("one".to_string()), Some("two".to_string())],
        },
        member_trees: vec![Some(member_one), Some(member_two)],
    };
    let names = resolve_candidates(&tree);
    assert_eq!(names, vec!["b".to_string(), "a".to_string(), "c".to_string()]);
}

#[test]
fn nested_workspaces_concatenate_in_member_order() {
    let inner_a = leaf_tree(None, vec![Some("inner-a")]);
    let inner_b = leaf_tree(Some("inner-b"), Vec::new());
    let middle = ManifestTree {
        manifest: Manifest {
            package_name: None,
            bin_names: Vec::new(),
            workspace_members: vec![Some("inner-a".to_string()), Some("inner-b".to_string())],
        },
        member_trees: vec![Some(inner_a), Some(inner_b)],
    };
    let outer_leaf = leaf_tree(None, vec![Some("outer-leaf")]);
    let outer = ManifestTree {
        manifest: Manifest {
            package_name: Some("umbrella".to_string()),
            bin_names: Vec::new(),
            workspace_members: vec![Some("middle".to_string()), Some("leaf".to_string())],
        },
        member_trees: vec![Some(middle), Some(outer_leaf)],
    };
    let names = resolve_candidates(&outer);
    assert_eq!(
        names,
        vec!["inner-a".to_string(), "inner-b".to_string(), "outer-leaf".to_string()]
    );
}
