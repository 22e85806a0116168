use nix_template::expression::Template;
use nix_template::file_path::{
    ends_with_nix_extension, nix_file_paths, strip_root_prefix, PathError,
};

#[test]
fn test_python() {
    let actual = nix_file_paths(&Template::Python, true, true, false, "", "requests");
    let expected = Ok((
        String::from("pkgs/development/python-modules/requests/default.nix"),
        String::from("../development/python-modules/requests"),
    ));
    assert_eq!(expected, actual);
}

#[test]
fn non_canonical_mode_is_identity_with_empty_reference() {
    for template in [Template::Stdenv, Template::Python, Template::Mkshell] {
        let actual = nix_file_paths(&template, false, true, true, "some/where/file.nix", "pkg");
        assert_eq!(actual, Ok((String::from("some/where/file.nix"), String::new())));
        let actual = nix_file_paths(&template, false, false, false, "other", "pkg");
        assert_eq!(actual, Ok((String::from("other"), String::new())));
    }
}

#[test]
fn missing_pname_is_an_error_in_canonical_mode() {
    let actual = nix_file_paths(&Template::Python, true, false, true, "pkgs/tools/x", "");
    assert_eq!(actual, Err(PathError::MissingPname));
}

#[test]
fn no_default_path_for_non_python_templates() {
    let actual = nix_file_paths(&Template::Stdenv, true, true, false, "", "mypackage");
    assert_eq!(actual, Err(PathError::NoDefaultPath));
    let actual = nix_file_paths(&Template::Mkshell, true, true, false, "", "mypackage");
    assert_eq!(actual, Err(PathError::NoDefaultPath));
}

#[test]
fn requested_path_is_stripped_and_gets_default_file_name() {
    let actual = nix_file_paths(&Template::Stdenv, true, true, true, "pkgs/applications/misc/tool", "tool");
    assert_eq!(
        actual,
        Ok((
            String::from("pkgs/applications/misc/tool/default.nix"),
            String::from("../applications/misc/tool"),
        ))
    );
    let actual = nix_file_paths(&Template::Stdenv, true, true, true, "applications/misc/tool", "tool");
    assert_eq!(
        actual,
        Ok((
            String::from("pkgs/applications/misc/tool/default.nix"),
            String::from("../applications/misc/tool"),
        ))
    );
}

#[test]
fn requested_path_with_extension_gets_no_second_file_name() {
    let actual = nix_file_paths(&Template::Stdenv, true, true, true, "pkgs/tools/misc/tool.nix", "tool");
    assert_eq!(
        actual,
        Ok((String::from("pkgs/tools/misc/tool.nix"), String::from("../tools/misc/tool.nix")))
    );
}

#[test]
fn stripping_the_root_twice_equals_stripping_once() {
    for p in ["pkgs/applications/misc/tool", "applications/misc/tool", "pkgs", "pkgsextra/x"] {
        let once = strip_root_prefix(p);
        let twice = strip_root_prefix(once);
        assert_eq!(once, twice);
    }
    assert_eq!(strip_root_prefix("pkgs/applications/misc/tool"), "applications/misc/tool");
    assert_eq!(strip_root_prefix("pkgs"), "");
    assert_eq!(strip_root_prefix("pkgsextra/x"), "pkgsextra/x");
}

#[test]
fn nix_extension_detection() {
    assert!(ends_with_nix_extension("default.nix"));
    assert!(ends_with_nix_extension("tools/misc/tool.nix"));
    assert!(!ends_with_nix_extension(".nix"));
    assert!(!ends_with_nix_extension("tools/.nix"));
    assert!(!ends_with_nix_extension("tools/tool"));
    assert!(!ends_with_nix_extension("nix"));
}
