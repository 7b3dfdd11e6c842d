//! Tests of directive-string building.

use ts_init::normalize_ident;
use ts_init::package_directive;

#[test]
fn same_package_and_binary() {
    let d = package_directive("info", "my-crate", "my-crate");
    assert_eq!(d, "my_crate=info");
}

#[test]
fn distinct_package_and_binary() {
    let d = package_directive("debug", "my-crate", "my-bin");
    assert_eq!(d, "my_crate=debug,my_bin=debug");
}

#[test]
fn no_hyphens_kept_as_is() {
    let d = package_directive("trace", "server", "server");
    assert_eq!(d, "server=trace");
}

#[test]
fn names_equal_only_after_normalization() {
    let d = package_directive("warn", "my-crate", "my_crate");
    assert_eq!(d, "my_crate=warn");
}

#[test]
fn several_hyphens_all_replaced() {
    let d = package_directive("error", "a-b-c", "a-b-c-d");
    assert_eq!(d, "a_b_c=error,a_b_c_d=error");
}

#[test]
fn normalize_replaces_every_hyphen() {
    assert_eq!(normalize_ident("my-multi-part-name"), "my_multi_part_name");
    assert_eq!(normalize_ident("underscores_kept"), "underscores_kept");
    assert_eq!(normalize_ident(""), "");
}

#[test]
fn empty_names_give_bare_level() {
    let d = package_directive("info", "", "");
    assert_eq!(d, "=info");
}
