use bspc_client::query::{decimal_string, prog};
use bspc_client::Query;

#[test]
fn dump_args() {
    let mut args = vec![prog()];
    for arg in bspc_client::query::dump_args() {
        args.push(arg)
    }

    assert_eq!(
        args,
        vec!["bspc".to_string(), "wm".to_string(), "-d".to_string()]
    )
}

#[test]
fn query_args() {
    let mut args = vec![prog()];
    for arg in bspc_client::query::query_args() {
        args.push(arg)
    }

    assert_eq!(args, vec!["bspc".to_string(), "query".to_string()])
}

#[test]
fn with_param() {
    let query = Query::new().monitor("testies");
    assert_eq!(
        *query.args(),
        vec!["query".to_string(), "-m".to_string(), "testies".to_string()]
    )
}

#[test]
fn try_many_param() {
    let query = Query::new().monitor("discarded").monitor("testies");
    assert_eq!(
        *query.args(),
        vec!["query".to_string(), "-m".to_string(), "testies".to_string()]
    )
}

#[test]
fn fresh_builder_is_bare_query() {
    let query = Query::new();
    assert_eq!(*query.args(), vec!["query".to_string()])
}

#[test]
fn empty_monitor_name_changes_nothing() {
    let query = Query::new().monitor("");
    assert_eq!(*query.args(), vec!["query".to_string()]);

    let query = Query::new().monitor("kept").monitor("");
    assert_eq!(
        *query.args(),
        vec!["query".to_string(), "-m".to_string(), "kept".to_string()]
    )
}

#[test]
fn desktop_selector_replaces() {
    let query = Query::new().monitor("gone").desktop("three");
    assert_eq!(
        *query.args(),
        vec!["query".to_string(), "-d".to_string(), "three".to_string()]
    )
}

#[test]
fn empty_desktop_name_changes_nothing() {
    let query = Query::new().desktop("kept").desktop("");
    assert_eq!(
        *query.args(),
        vec!["query".to_string(), "-d".to_string(), "kept".to_string()]
    )
}

#[test]
fn node_selector_takes_identifier() {
    let query = Query::new().node(42);
    assert_eq!(
        *query.args(),
        vec!["query".to_string(), "-n".to_string(), "42".to_string()]
    )
}

#[test]
fn tree_args_inject_default_monitor_flag() {
    let mut query = Query::new();
    query.monitor_tree_args();
    assert_eq!(
        *query.args(),
        vec!["query".to_string(), "-m".to_string(), "-T".to_string()]
    )
}

#[test]
fn tree_args_keep_existing_selector() {
    let mut query = Query::new().monitor("primary");
    query.monitor_tree_args();
    assert_eq!(
        *query.args(),
        vec![
            "query".to_string(),
            "-m".to_string(),
            "primary".to_string(),
            "-T".to_string()
        ]
    )
}

#[test]
fn tree_args_inject_default_desktop_flag() {
    let mut query = Query::new();
    query.desktop_tree_args();
    assert_eq!(
        *query.args(),
        vec!["query".to_string(), "-d".to_string(), "-T".to_string()]
    )
}

#[test]
fn tree_args_inject_default_node_flag() {
    let mut query = Query::new();
    query.node_tree_args();
    assert_eq!(
        *query.args(),
        vec!["query".to_string(), "-n".to_string(), "-T".to_string()]
    )
}

#[test]
fn decimal_rendering() {
    assert_eq!(decimal_string(0), "0");
    assert_eq!(decimal_string(7), "7");
    assert_eq!(decimal_string(10), "10");
    assert_eq!(decimal_string(1234567890), "1234567890");
}

#[test]
fn dump_and_query_args_values() {
    assert_eq!(bspc_client::query::dump_args(), vec!["wm".to_string(), "-d".to_string()]);
    assert_eq!(bspc_client::query::query_args(), vec!["query".to_string()]);
}
