use golem::version::{
    check_versions, select_outcome, update_warning_text, GolemError, GolemResult, VersionOrder,
};

fn warning(cli: &str, server: &str) -> String {
    format!(
        "Warning: golem-cli {} is older than the targeted Golem servers ({})\nInstall the matching version with:\ncargo install golem-cli@{}\n",
        cli, server, server
    )
}

fn ok_text(r: &Result<GolemResult, GolemError>) -> Option<String> {
    match r {
        Ok(GolemResult::Str(s)) => Some(s.clone()),
        Err(_) => None,
    }
}

fn err_text(r: &Result<GolemResult, GolemError>) -> Option<String> {
    match r {
        Ok(_) => None,
        Err(GolemError(s)) => Some(s.clone()),
    }
}

#[test]
fn same_versions_need_no_update() {
    let r = check_versions("1.2.3", "1.2.3", "1.2.3").unwrap();
    assert_eq!(ok_text(&r), Some("No updates found".to_string()));
}

#[test]
fn newer_cli_needs_no_update() {
    let r = check_versions("2.0.0", "1.0.0", "1.5.0").unwrap();
    assert_eq!(ok_text(&r), Some("No updates found".to_string()));
}

#[test]
fn trailing_zero_parts_compare_equal() {
    let r = check_versions("1.2", "1.2.0", "1.2.0.0").unwrap();
    assert_eq!(ok_text(&r), Some("No updates found".to_string()));
}

#[test]
fn older_than_template_server_names_template_version() {
    let r = check_versions("0.0.1", "0.0.2", "0.0.1").unwrap();
    assert_eq!(err_text(&r), Some(warning("0.0.1", "0.0.2")));
}

#[test]
fn older_than_both_names_the_newer_template_version() {
    let r = check_versions("1.0.0", "1.10.0", "1.9.0").unwrap();
    assert_eq!(err_text(&r), Some(warning("1.0.0", "1.10.0")));
}

#[test]
fn older_than_both_names_the_newer_worker_version() {
    let r = check_versions("1.0.0", "1.1.0", "1.2.0").unwrap();
    assert_eq!(err_text(&r), Some(warning("1.0.0", "1.2.0")));
}

#[test]
fn equal_servers_name_the_worker_version() {
    let r = check_versions("1.0.0", "2.0", "2.0.0").unwrap();
    assert_eq!(err_text(&r), Some(warning("1.0.0", "2.0.0")));
}

#[test]
fn older_than_worker_only_names_worker_version() {
    let r = check_versions("0.9.0", "0.8.0", "0.9.1").unwrap();
    assert_eq!(err_text(&r), Some(warning("0.9.0", "0.9.1")));
}

#[test]
fn unparsable_server_version_gives_none() {
    assert!(check_versions("1.0.0", "abc", "1.0.0").is_none());
    assert!(check_versions("1.0.0", "1.0.0", "beta").is_none());
    assert!(check_versions("x", "1.0.0", "1.0.0").is_none());
}

#[test]
fn select_outcome_follows_comparisons() {
    let r = select_outcome("a", "b", "c", VersionOrder::Less, VersionOrder::Greater, VersionOrder::Greater);
    assert_eq!(err_text(&r), Some(warning("a", "b")));
    let r = select_outcome("a", "b", "c", VersionOrder::Equal, VersionOrder::Less, VersionOrder::Greater);
    assert_eq!(err_text(&r), Some(warning("a", "b")));
    let r = select_outcome("a", "b", "c", VersionOrder::Less, VersionOrder::Less, VersionOrder::Equal);
    assert_eq!(err_text(&r), Some(warning("a", "c")));
    let r = select_outcome("a", "b", "c", VersionOrder::Equal, VersionOrder::Greater, VersionOrder::Less);
    assert_eq!(ok_text(&r), Some("No updates found".to_string()));
}

#[test]
fn update_warning_text_is_exact() {
    assert_eq!(
        update_warning_text("0.0.1", "0.0.2"),
        "Warning: golem-cli 0.0.1 is older than the targeted Golem servers (0.0.2)\nInstall the matching version with:\ncargo install golem-cli@0.0.2\n"
    );
}

#[test]
fn swapping_servers_gives_the_same_outcome() {
    for (a, b) in [("1.2.0", "1.10.0"), ("0.9", "0.9"), ("2.0.0", "0.1.0"), ("1.0.0-rc1", "1.0.0")] {
        let x = check_versions("1.0.0", a, b).unwrap();
        let y = check_versions("1.0.0", b, a).unwrap();
        assert_eq!(ok_text(&x), ok_text(&y));
        assert_eq!(err_text(&x), err_text(&y));
    }
}
