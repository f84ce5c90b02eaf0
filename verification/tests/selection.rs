use uefi_run::error::Error;
use uefi_run::error::ErrorKind;
use uefi_run::select::find_binary_name;
use uefi_run::select::select;
use uefi_run::select::selection_error_to_error;
use uefi_run::select::SelectionError;

fn names(names: &[&str]) -> Vec<String> {
    names.iter().map(|n| n.to_string()).collect()
}

#[test]
fn single_candidate_selected_without_request() {
    let r = select(&names(&["only"]), &None);
    assert_eq!(r.ok(), Some("only".to_string()));
}

#[test]
fn two_candidates_without_request_are_ambiguous() {
    let r = select(&names(&["a", "b"]), &None);
    match r {
        Err(SelectionError::Ambiguous { candidates }) => {
            assert_eq!(candidates, names(&["a", "b"]));
        }
        _ => panic!("expected an ambiguous selection"),
    }
}

#[test]
fn zero_candidates_without_request_are_ambiguous() {
    let r = select(&Vec::new(), &None);
    match r {
        Err(SelectionError::Ambiguous { candidates }) => {
            assert!(candidates.is_empty());
        }
        _ => panic!("expected an ambiguous selection"),
    }
}

#[test]
fn requested_candidate_is_selected() {
    let r = select(&names(&["a", "b"]), &Some("b".to_string()));
    assert_eq!(r.ok(), Some("b".to_string()));
}

#[test]
fn requested_name_outside_candidates_is_not_found() {
    let r = select(&names(&["a", "b"]), &Some("c".to_string()));
    match r {
        Err(SelectionError::NotFound { requested }) => {
            assert_eq!(requested, "c".to_string());
        }
        _ => panic!("expected a not-found selection"),
    }
}

#[test]
fn ambiguous_error_message_lists_all_candidates() {
    let e = selection_error_to_error(SelectionError::Ambiguous {
        candidates: names(&["hogehoge", "fugafuga"]),
    });
    assert_eq!(e.kind(), ErrorKind::AmbiguousTarget);
    assert_eq!(
        e.message().as_str(),
        "cannot determine the binary target, candidates: [hogehoge, fugafuga]"
    );
}

#[test]
fn not_found_error_message_names_the_request() {
    let e = selection_error_to_error(SelectionError::NotFound { requested: "c".to_string() });
    assert_eq!(e.kind(), ErrorKind::TargetNotFound);
    assert_eq!(e.message().as_str(), "binary c is not found");
}

#[test]
fn two_bins_without_request_are_ambiguous_end_to_end() {
    let toml = r#"
        [package]
        name = "hoge"

        [[bin]]
        name = "hogehoge"
        path = "src/hogehoge/main.rs"

        [[bin]]
        name = "fugafuga"
        path = "src/fugafuga/main.rs"
        "#;

    let err = find_binary_name(&None, toml, Vec::new()).unwrap_err();
    assert_eq!(err.kind(), ErrorKind::AmbiguousTarget);
    assert_eq!(
        err.message().as_str(),
        "cannot determine the binary target, candidates: [hogehoge, fugafuga]"
    );
}

#[test]
fn explicit_request_overrides_ambiguity_end_to_end() {
    let toml = r#"
        [[bin]]
        name = "hogehoge"

        [[bin]]
        name = "fugafuga"
        "#;

    let name = find_binary_name(&Some("fugafuga".to_string()), toml, Vec::new()).unwrap();
    assert_eq!(name, "fugafuga");
}

#[test]
fn explicit_request_outside_candidates_end_to_end() {
    let toml = r#"
        [package]
        name = "hoge"
        "#;

    let err = find_binary_name(&Some("piyo".to_string()), toml, Vec::new()).unwrap_err();
    assert_eq!(err.kind(), ErrorKind::TargetNotFound);
    assert_eq!(err.message().as_str(), "binary piyo is not found");
}

#[test]
fn error_carries_kind_and_message() {
    let e = Error::new(ErrorKind::ManifestUnreadable, "failed to read the manifest".to_string());
    assert_eq!(e.kind(), ErrorKind::ManifestUnreadable);
    assert_eq!(e.message().as_str(), "failed to read the manifest");
}
