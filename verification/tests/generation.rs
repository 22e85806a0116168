use nix_template::expression::{generate_expression, ExpressionInfo, Fetcher, Template};

fn info(template: Template, fetcher: Fetcher) -> ExpressionInfo {
    ExpressionInfo {
        template,
        fetcher,
        pname: String::from("mypackage"),
        version: String::from("1.0.0"),
        license: String::from("mit"),
        maintainer: String::from("alice"),
    }
}

#[test]
fn stdenv_github_exact_output() {
    let out = generate_expression(&info(Template::Stdenv, Fetcher::Github));
    let expected = "{ lib, stdenv, fetchFromGitHub }:\n\nstdenv.mkDerivation rec {\n  pname = \"mypackage\";\n  version = \"1.0.0\";\n\n  src = fetchFromGitHub {\n    owner = \"CHANGE\";\n    repo = pname;\n    rev = \"CHANGE\";\n    sha256 = lib.fakeSha256;\n  };\n\n  buildInputs = [ ];\n\n  meta = with lib; {\n    description = \"CHANGE\";\n    homepage = \"https://github.com/CHANGE/mypackage/\";\n    license = license.mit;\n    maintainer = with maintainers; [ alice ];\n  }\n}\n";
    assert_eq!(out, expected);
}

#[test]
fn python_pypi_exact_output() {
    let req = ExpressionInfo {
        template: Template::Python,
        fetcher: Fetcher::Pypi,
        pname: String::from("requests"),
        version: String::from("2.28.1"),
        license: String::from("asl20"),
        maintainer: String::from("bob"),
    };
    let out = generate_expression(&req);
    let expected = "{ lib, buildPythonPackage, fetchPypi }:\n\nbuildPythonPackage rec {\n  pname = \"requests\";\n  version = \"2.28.1\";\n\n  src = fetchPypi {\n    inherit pname version;\n    sha256 = lib.fakeSha256;\n  };\n\n  propagatedBuildInputs = [ ];\n\n  meta = with lib; {\n    description = \"CHANGE\";\n    homepage = \"https://github.com/CHANGE/requests/\";\n    license = license.asl20;\n    maintainer = with maintainers; [ bob ];\n  }\n}\n";
    assert_eq!(out, expected);
}

#[test]
fn zip_fetcher_keeps_its_own_sentinel_spelling() {
    let out = generate_expression(&info(Template::Stdenv, Fetcher::Zip));
    assert!(out.contains("url = \"CHANAGE\";"));
}

#[test]
fn shell_output_is_constant() {
    let fixed = "with import <nixpkgs> { };\n\nmkShell rec {\n  # include any libraries or programs in buildInputs\n  buildInputs = [\n  ];\n\n  # shell commands to be ran upon entering shell\n  shellHook = ''\n  '';\n}\n";
    let a = generate_expression(&info(Template::Mkshell, Fetcher::Github));
    let mut other = info(Template::Mkshell, Fetcher::Pypi);
    other.pname = String::from("somethingelse");
    other.version = String::from("9.9.9");
    other.license = String::from("gpl3");
    other.maintainer = String::from("carol");
    let b = generate_expression(&other);
    assert_eq!(a, fixed);
    assert_eq!(b, fixed);
}

#[test]
fn braces_balanced_for_every_template_and_fetcher() {
    let templates = [Template::Stdenv, Template::Python];
    let fetchers = [Fetcher::Github, Fetcher::Gitlab, Fetcher::Url, Fetcher::Zip, Fetcher::Pypi];
    for t in templates {
        for f in fetchers {
            let out = generate_expression(&info(t, f));
            let open = out.chars().filter(|c| *c == '{').count();
            let close = out.chars().filter(|c| *c == '}').count();
            assert_eq!(open, close);
            assert_eq!(open, 4);
        }
    }
}

#[test]
fn output_embeds_pname_and_version() {
    let templates = [Template::Stdenv, Template::Python];
    let fetchers = [Fetcher::Github, Fetcher::Gitlab, Fetcher::Url, Fetcher::Zip, Fetcher::Pypi];
    for t in templates {
        for f in fetchers {
            let out = generate_expression(&info(t, f));
            assert!(out.contains("pname = \"mypackage\";"));
            assert!(out.contains("version = \"1.0.0\";"));
        }
    }
}
