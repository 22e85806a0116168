//! Assembly of Nix expression skeletons from a template kind, a fetcher kind
//! and the user-supplied package metadata. Pure string construction: the
//! output is pinned down exactly by spec-level sequences of characters.

use vstd::prelude::*;
use crate::counting::count_char;
use crate::counting::count_char_upto;
use crate::counting::lemma_count_char_absent;
use crate::counting::lemma_count_char_concat;
use crate::counting::occurs_at;

verus! {

/// The overall shape of the generated skeleton.
#[derive(Clone, Copy, Debug, PartialEq, Eq, Structural)]
pub enum Template {
    /// A generic `stdenv.mkDerivation` build.
    Stdenv,
    /// A Python package built with `buildPythonPackage`.
    Python,
    /// An interactive development shell (`mkShell`).
    Mkshell,
}

/// The strategy used to retrieve upstream sources, embedded as a
/// `src = ...` block in the skeleton.
#[derive(Clone, Copy, Debug, PartialEq, Eq, Structural)]
pub enum Fetcher {
    Github,
    Gitlab,
    Url,
    Zip,
    Pypi,
}

/// The command-line name of each template.
pub open spec fn spec_template_name(template: Template) -> Seq<char> {
    match template {
        Template::Stdenv => "stdenv"@,
        Template::Python => "python"@,
        Template::Mkshell => "mkshell"@,
    }
}

impl Template {
    /// The name under which this template is selected on the command line,
    /// used when reporting it back to the user.
    pub fn name(&self) -> (r: &'static str)
        ensures
            r@ == spec_template_name(*self),
    {
        match self {
            Template::Stdenv => "stdenv",
            Template::Python => "python",
            Template::Mkshell => "mkshell",
        }
    }
}

/// Everything the generator needs: the two kinds and the literal strings the
/// user supplied. The string fields are embedded verbatim; the caller is
/// responsible for supplying syntax-safe identifiers.
pub struct ExpressionInfo {
    pub template: Template,
    pub fetcher: Fetcher,
    pub pname: String,
    pub version: String,
    pub license: String,
    pub maintainer: String,
}

/// The header symbol and the invocation symbol of the derivation helper for
/// each template.
pub open spec fn spec_derivation_helper(template: Template) -> (Seq<char>, Seq<char>) {
    match template {
        Template::Stdenv => ("stdenv"@, "stdenv.mkDerivation"@),
        Template::Python => ("buildPythonPackage"@, "buildPythonPackage"@),
        Template::Mkshell => ("pkgs ? import <nixpkgs> {}"@, "with pkgs;\n\nmkShell"@),
    }
}

/// The import symbol and the `src` block for each fetcher.
pub open spec fn spec_fetch_block(fetcher: Fetcher) -> (Seq<char>, Seq<char>) {
    match fetcher {
        Fetcher::Github => (
            "fetchFromGitHub"@,
            "  src = fetchFromGitHub {\n    owner = \"CHANGE\";\n    repo = pname;\n    rev = \"CHANGE\";\n    sha256 = lib.fakeSha256;\n  };"@,
        ),
        Fetcher::Gitlab => (
            "fetchFromGitLab"@,
            "  src = fetchFromGitLab {\n    owner = \"CHANGE\";\n    repo = pname;\n    rev = \"CHANGE\";\n    sha256 = lib.fakeSha256;\n  };"@,
        ),
        Fetcher::Url => (
            "fetchurl"@,
            "  src = fetchurl {\n    url = \"CHANGE\";\n    sha256 = lib.fakeSha256;\n  };"@,
        ),
        Fetcher::Zip => (
            "fetchzip"@,
            "  src = fetchzip {\n    url = \"CHANAGE\";\n    sha256 = lib.fakeSha256;\n  };"@,
        ),
        Fetcher::Pypi => (
            "fetchPypi"@,
            "  src = fetchPypi {\n    inherit pname version;\n    sha256 = lib.fakeSha256;\n  };"@,
        ),
    }
}

/// The dependency-list line for each template.
pub open spec fn spec_build_inputs(template: Template) -> Seq<char> {
    match template {
        Template::Python => "  propagatedBuildInputs = [ ];"@,
        _ => "  buildInputs = [ ];"@,
    }
}

/// The metadata block: description, homepage, license and maintainer.
pub open spec fn spec_meta(pname: Seq<char>, license: Seq<char>, maintainer: Seq<char>) -> Seq<char> {
    "  meta = with lib; {\n    description = \"CHANGE\";\n    homepage = \"https://github.com/CHANGE/"@
        + pname + "/\";\n    license = license."@ + license
        + ";\n    maintainer = with maintainers; [ "@ + maintainer + " ];\n  }"@
}

/// The fixed skeleton returned for the development-shell template.
pub open spec fn spec_shell_expression() -> Seq<char> {
    "with import <nixpkgs> { };\n\nmkShell rec {\n  # include any libraries or programs in buildInputs\n  buildInputs = [\n  ];\n\n  # shell commands to be ran upon entering shell\n  shellHook = ''\n  '';\n}\n"@
}

/// The import header line `{ lib, <helper>, <fetcher> }:`.
pub open spec fn spec_header(template: Template, fetcher: Fetcher) -> Seq<char> {
    "{ "@ + "lib"@ + ", "@ + spec_derivation_helper(template).0 + ", "@
        + spec_fetch_block(fetcher).0 + " }:"@
}

/// The whole generated expression, character for character.
pub open spec fn spec_generate(info: ExpressionInfo) -> Seq<char> {
    if info.template == Template::Mkshell {
        spec_shell_expression()
    } else {
        spec_header(info.template, info.fetcher) + "\n\n"@
            + spec_derivation_helper(info.template).1 + " rec {\n  pname = \""@
            + info.pname@ + "\";\n  version = \""@ + info.version@ + "\";\n\n"@
            + spec_fetch_block(info.fetcher).1 + "\n\n"@
            + spec_build_inputs(info.template) + "\n\n"@
            + spec_meta(info.pname@, info.license@, info.maintainer@) + "\n}\n"@
    }
}

/// The executable counterpart of `spec_derivation_helper`.
pub fn derivation_helper(template: &Template) -> (r: (&'static str, &'static str))
    ensures
        r.0@ == spec_derivation_helper(*template).0,
        r.1@ == spec_derivation_helper(*template).1,
{
    match template {
        Template::Stdenv => ("stdenv", "stdenv.mkDerivation"),
        Template::Python => ("buildPythonPackage", "buildPythonPackage"),
        Template::Mkshell => ("pkgs ? import <nixpkgs> {}", "with pkgs;\n\nmkShell"),
    }
}

/// The executable counterpart of `spec_fetch_block`.
pub fn fetch_block(fetcher: &Fetcher) -> (r: (&'static str, &'static str))
    ensures
        r.0@ == spec_fetch_block(*fetcher).0,
        r.1@ == spec_fetch_block(*fetcher).1,
{
    match fetcher {
        Fetcher::Github => (
            "fetchFromGitHub",
            "  src = fetchFromGitHub {\n    owner = \"CHANGE\";\n    repo = pname;\n    rev = \"CHANGE\";\n    sha256 = lib.fakeSha256;\n  };",
        ),
        Fetcher::Gitlab => (
            "fetchFromGitLab",
            "  src = fetchFromGitLab {\n    owner = \"CHANGE\";\n    repo = pname;\n    rev = \"CHANGE\";\n    sha256 = lib.fakeSha256;\n  };",
        ),
        Fetcher::Url => (
            "fetchurl",
            "  src = fetchurl {\n    url = \"CHANGE\";\n    sha256 = lib.fakeSha256;\n  };",
        ),
        Fetcher::Zip => (
            "fetchzip",
            "  src = fetchzip {\n    url = \"CHANAGE\";\n    sha256 = lib.fakeSha256;\n  };",
        ),
        Fetcher::Pypi => (
            "fetchPypi",
            "  src = fetchPypi {\n    inherit pname version;\n    sha256 = lib.fakeSha256;\n  };",
        ),
    }
}

/// The executable counterpart of `spec_build_inputs`.
pub fn build_inputs(template: &Template) -> (r: &'static str)
    ensures
        r@ == spec_build_inputs(*template),
{
    match template {
        Template::Python => "  propagatedBuildInputs = [ ];",
        _ => "  buildInputs = [ ];",
    }
}

/// Renders the metadata block for the given package name, license identifier
/// and maintainer identifier.
pub fn meta(pname: &str, license: &str, maintainer: &str) -> (r: String)
    ensures
        r@ == spec_meta(pname@, license@, maintainer@),
{
    let mut out = String::new();
    out.append("  meta = with lib; {\n    description = \"CHANGE\";\n    homepage = \"https://github.com/CHANGE/");
    out.append(pname);
    out.append("/\";\n    license = license.");
    out.append(license);
    out.append(";\n    maintainer = with maintainers; [ ");
    out.append(maintainer);
    out.append(" ];\n  }");
    proof {
        assert(out@ =~= spec_meta(pname@, license@, maintainer@));
    }
    out
}

/// Generates the full Nix expression skeleton described by `info`.
pub fn generate_expression(info: &ExpressionInfo) -> (r: String)
    ensures
        r@ == spec_generate(*info),
{
    match &info.template {
        Template::Mkshell => {
            let out = String::from_str(
                "with import <nixpkgs> { };\n\nmkShell rec {\n  # include any libraries or programs in buildInputs\n  buildInputs = [\n  ];\n\n  # shell commands to be ran upon entering shell\n  shellHook = ''\n  '';\n}\n",
            );
            proof {
                assert(out@ =~= spec_generate(*info));
            }
            out
        },
        _ => {
            let (dh_input, dh_block) = derivation_helper(&info.template);
            let (f_input, f_block) = fetch_block(&info.fetcher);
            let mut out = String::new();
            out.append("{ ");
            out.append("lib");
            out.append(", ");
            out.append(dh_input);
            out.append(", ");
            out.append(f_input);
            out.append(" }:");
            out.append("\n\n");
            out.append(dh_block);
            out.append(" rec {\n  pname = \"");
            out.append(info.pname.as_str());
            out.append("\";\n  version = \"");
            out.append(info.version.as_str());
            out.append("\";\n\n");
            out.append(f_block);
            out.append("\n\n");
            out.append(build_inputs(&info.template));
            out.append("\n\n");
            let meta_block = meta(info.pname.as_str(), info.license.as_str(), info.maintainer.as_str());
            out.append(meta_block.as_str());
            out.append("\n}\n");
            proof {
                assert(out@ =~= spec_generate(*info));
            }
            out
        },
    }
}

proof fn lemma_count_braces_concat(a: Seq<char>, b: Seq<char>)
    ensures
        count_char(a + b, '{') == count_char(a, '{') + count_char(b, '{'),
        count_char(a + b, '}') == count_char(a, '}') + count_char(b, '}'),
{
    lemma_count_char_concat(a, b, '{');
    lemma_count_char_concat(a, b, '}');
}

proof fn lemma_header_brace_counts(template: Template, fetcher: Fetcher)
    requires
        template != Template::Mkshell,
    ensures
        count_char(spec_header(template, fetcher), '{') == 1,
        count_char(spec_header(template, fetcher), '}') == 1,
{
    reveal_strlit("{ ");
    reveal_strlit("lib");
    reveal_strlit(", ");
    reveal_strlit(" }:");
    reveal_strlit("stdenv");
    reveal_strlit("buildPythonPackage");
    reveal_strlit("fetchFromGitHub");
    reveal_strlit("fetchFromGitLab");
    reveal_strlit("fetchurl");
    reveal_strlit("fetchzip");
    reveal_strlit("fetchPypi");
    reveal_with_fuel(count_char_upto, 45);
    let dh = spec_derivation_helper(template).0;
    let fe = spec_fetch_block(fetcher).0;
    assert(count_char(dh, '{') == 0 && count_char(dh, '}') == 0);
    assert(count_char(fe, '{') == 0 && count_char(fe, '}') == 0);
    let p1 = "{ "@ + "lib"@;
    let p2 = p1 + ", "@;
    let p3 = p2 + dh;
    let p4 = p3 + ", "@;
    let p5 = p4 + fe;
    lemma_count_braces_concat("{ "@, "lib"@);
    lemma_count_braces_concat(p1, ", "@);
    lemma_count_braces_concat(p2, dh);
    lemma_count_braces_concat(p3, ", "@);
    lemma_count_braces_concat(p4, fe);
    lemma_count_braces_concat(p5, " }:"@);
}

proof fn lemma_dh_block_brace_counts(template: Template)
    requires
        template != Template::Mkshell,
    ensures
        count_char(spec_derivation_helper(template).1, '{') == 0,
        count_char(spec_derivation_helper(template).1, '}') == 0,
{
    reveal_strlit("stdenv.mkDerivation");
    reveal_strlit("buildPythonPackage");
    reveal_with_fuel(count_char_upto, 45);
}

#[verifier::rlimit(100)]
proof fn lemma_fetch_block_brace_counts(fetcher: Fetcher)
    ensures
        count_char(spec_fetch_block(fetcher).1, '{') == 1,
        count_char(spec_fetch_block(fetcher).1, '}') == 1,
{
    reveal_with_fuel(count_char_upto, 45);
    match fetcher {
        Fetcher::Github => {
            reveal_strlit(
                "  src = fetchFromGitHub {\n    owner = \"CHANGE\";\n    repo = pname;\n    rev = \"CHANGE\";\n    sha256 = lib.fakeSha256;\n  };",
            );
            reveal_strlit("  src = fetchFromGitHub {\n    owner = \"");
            reveal_strlit("CHANGE\";\n    repo = pname;\n    rev = \"");
            reveal_strlit("CHANGE\";\n    sha256 = lib.fakeSha256;\n  };");
            let a = "  src = fetchFromGitHub {\n    owner = \""@;
            let b = "CHANGE\";\n    repo = pname;\n    rev = \""@;
            let c = "CHANGE\";\n    sha256 = lib.fakeSha256;\n  };"@;
            assert(spec_fetch_block(fetcher).1 =~= (a + b) + c);
            lemma_count_braces_concat(a, b);
            lemma_count_braces_concat(a + b, c);
        },
        Fetcher::Gitlab => {
            reveal_strlit(
                "  src = fetchFromGitLab {\n    owner = \"CHANGE\";\n    repo = pname;\n    rev = \"CHANGE\";\n    sha256 = lib.fakeSha256;\n  };",
            );
            reveal_strlit("  src = fetchFromGitLab {\n    owner = \"");
            reveal_strlit("CHANGE\";\n    repo = pname;\n    rev = \"");
            reveal_strlit("CHANGE\";\n    sha256 = lib.fakeSha256;\n  };");
            let a = "  src = fetchFromGitLab {\n    owner = \""@;
            let b = "CHANGE\";\n    repo = pname;\n    rev = \""@;
            let c = "CHANGE\";\n    sha256 = lib.fakeSha256;\n  };"@;
            assert(spec_fetch_block(fetcher).1 =~= (a + b) + c);
            lemma_count_braces_concat(a, b);
            lemma_count_braces_concat(a + b, c);
        },
        Fetcher::Url => {
            reveal_strlit(
                "  src = fetchurl {\n    url = \"CHANGE\";\n    sha256 = lib.fakeSha256;\n  };",
            );
            reveal_strlit("  src = fetchurl {\n    url = \"CHANGE\";\n");
            reveal_strlit("    sha256 = lib.fakeSha256;\n  };");
            let a = "  src = fetchurl {\n    url = \"CHANGE\";\n"@;
            let b = "    sha256 = lib.fakeSha256;\n  };"@;
            assert(spec_fetch_block(fetcher).1 =~= a + b);
            lemma_count_braces_concat(a, b);
        },
        Fetcher::Zip => {
            reveal_strlit(
                "  src = fetchzip {\n    url = \"CHANAGE\";\n    sha256 = lib.fakeSha256;\n  };",
            );
            reveal_strlit("  src = fetchzip {\n    url = \"CHANAGE\";\n");
            reveal_strlit("    sha256 = lib.fakeSha256;\n  };");
            let a = "  src = fetchzip {\n    url = \"CHANAGE\";\n"@;
            let b = "    sha256 = lib.fakeSha256;\n  };"@;
            assert(spec_fetch_block(fetcher).1 =~= a + b);
            lemma_count_braces_concat(a, b);
        },
        Fetcher::Pypi => {
            reveal_strlit(
                "  src = fetchPypi {\n    inherit pname version;\n    sha256 = lib.fakeSha256;\n  };",
            );
            reveal_strlit("  src = fetchPypi {\n");
            reveal_strlit("    inherit pname version;\n");
            reveal_strlit("    sha256 = lib.fakeSha256;\n  };");
            let a = "  src = fetchPypi {\n"@;
            let b = "    inherit pname version;\n"@;
            let c = "    sha256 = lib.fakeSha256;\n  };"@;
            assert(spec_fetch_block(fetcher).1 =~= (a + b) + c);
            lemma_count_braces_concat(a, b);
            lemma_count_braces_concat(a + b, c);
        },
    }
}

proof fn lemma_build_inputs_brace_counts(template: Template)
    ensures
        count_char(spec_build_inputs(template), '{') == 0,
        count_char(spec_build_inputs(template), '}') == 0,
{
    reveal_strlit("  propagatedBuildInputs = [ ];");
    reveal_strlit("  buildInputs = [ ];");
    reveal_with_fuel(count_char_upto, 45);
}

proof fn lemma_meta_brace_counts(pname: Seq<char>, license: Seq<char>, maintainer: Seq<char>)
    requires
        forall|i: int| 0 <= i < pname.len() ==> pname[i] != '{' && pname[i] != '}',
        forall|i: int| 0 <= i < license.len() ==> license[i] != '{' && license[i] != '}',
        forall|i: int| 0 <= i < maintainer.len() ==> maintainer[i] != '{' && maintainer[i] != '}',
    ensures
        count_char(spec_meta(pname, license, maintainer), '{') == 1,
        count_char(spec_meta(pname, license, maintainer), '}') == 1,
{
    reveal_strlit(
        "  meta = with lib; {\n    description = \"CHANGE\";\n    homepage = \"https://github.com/CHANGE/",
    );
    reveal_strlit("  meta = with lib; {\n");
    reveal_strlit("    description = \"CHANGE\";\n");
    reveal_strlit("    homepage = \"https://github.com/CHANGE/");
    reveal_strlit("/\";\n    license = license.");
    reveal_strlit(";\n    maintainer = with maintainers; [ ");
    reveal_strlit(" ];\n  }");
    reveal_with_fuel(count_char_upto, 45);
    let m1 =
        "  meta = with lib; {\n    description = \"CHANGE\";\n    homepage = \"https://github.com/CHANGE/"@;
    let m1a = "  meta = with lib; {\n"@;
    let m1b = "    description = \"CHANGE\";\n"@;
    let m1c = "    homepage = \"https://github.com/CHANGE/"@;
    assert(m1 =~= (m1a + m1b) + m1c);
    lemma_count_braces_concat(m1a, m1b);
    lemma_count_braces_concat(m1a + m1b, m1c);
    assert(count_char(m1, '{') == 1 && count_char(m1, '}') == 0);
    lemma_count_char_absent(pname, '{');
    lemma_count_char_absent(pname, '}');
    lemma_count_char_absent(license, '{');
    lemma_count_char_absent(license, '}');
    lemma_count_char_absent(maintainer, '{');
    lemma_count_char_absent(maintainer, '}');
    let m2 = "/\";\n    license = license."@;
    let m3 = ";\n    maintainer = with maintainers; [ "@;
    let m4 = " ];\n  }"@;
    let p1 = m1 + pname;
    let p2 = p1 + m2;
    let p3 = p2 + license;
    let p4 = p3 + m3;
    let p5 = p4 + maintainer;
    lemma_count_braces_concat(m1, pname);
    lemma_count_braces_concat(p1, m2);
    lemma_count_braces_concat(p2, license);
    lemma_count_braces_concat(p3, m3);
    lemma_count_braces_concat(p4, maintainer);
    lemma_count_braces_concat(p5, m4);
}

/// For every template other than the development shell and every fetcher,
/// the generated expression is brace-balanced: it holds exactly as many `{`
/// characters as `}` characters (four of each), provided the user-supplied
/// fields themselves contain no braces.
#[verifier::rlimit(100)]
pub proof fn lemma_generate_braces_balanced(info: ExpressionInfo)
    requires
        info.template != Template::Mkshell,
        forall|i: int|
            0 <= i < info.pname@.len() ==> info.pname@[i] != '{' && info.pname@[i] != '}',
        forall|i: int|
            0 <= i < info.version@.len() ==> info.version@[i] != '{' && info.version@[i] != '}',
        forall|i: int|
            0 <= i < info.license@.len() ==> info.license@[i] != '{' && info.license@[i] != '}',
        forall|i: int|
            0 <= i < info.maintainer@.len() ==> info.maintainer@[i] != '{' && info.maintainer@[i]
                != '}',
    ensures
        count_char(spec_generate(info), '{') == count_char(spec_generate(info), '}'),
        count_char(spec_generate(info), '{') == 4,
{
    reveal_strlit("\n\n");
    reveal_strlit(" rec {\n  pname = \"");
    reveal_strlit("\";\n  version = \"");
    reveal_strlit("\";\n\n");
    reveal_strlit("\n}\n");
    reveal_with_fuel(count_char_upto, 45);
    let h = spec_header(info.template, info.fetcher);
    let dh1 = spec_derivation_helper(info.template).1;
    let fb = spec_fetch_block(info.fetcher).1;
    let bi = spec_build_inputs(info.template);
    let m = spec_meta(info.pname@, info.license@, info.maintainer@);
    lemma_header_brace_counts(info.template, info.fetcher);
    lemma_dh_block_brace_counts(info.template);
    lemma_fetch_block_brace_counts(info.fetcher);
    lemma_build_inputs_brace_counts(info.template);
    lemma_meta_brace_counts(info.pname@, info.license@, info.maintainer@);
    lemma_count_char_absent(info.pname@, '{');
    lemma_count_char_absent(info.pname@, '}');
    lemma_count_char_absent(info.version@, '{');
    lemma_count_char_absent(info.version@, '}');
    let p1 = h + "\n\n"@;
    let p2 = p1 + dh1;
    let p3 = p2 + " rec {\n  pname = \""@;
    let p4 = p3 + info.pname@;
    let p5 = p4 + "\";\n  version = \""@;
    let p6 = p5 + info.version@;
    let p7 = p6 + "\";\n\n"@;
    let p8 = p7 + fb;
    let p9 = p8 + "\n\n"@;
    let p10 = p9 + bi;
    let p11 = p10 + "\n\n"@;
    let p12 = p11 + m;
    let p13 = p12 + "\n}\n"@;
    assert(spec_generate(info) == p13);
    lemma_count_braces_concat(h, "\n\n"@);
    lemma_count_braces_concat(p1, dh1);
    lemma_count_braces_concat(p2, " rec {\n  pname = \""@);
    lemma_count_braces_concat(p3, info.pname@);
    lemma_count_braces_concat(p4, "\";\n  version = \""@);
    lemma_count_braces_concat(p5, info.version@);
    lemma_count_braces_concat(p6, "\";\n\n"@);
    lemma_count_braces_concat(p7, fb);
    lemma_count_braces_concat(p8, "\n\n"@);
    lemma_count_braces_concat(p9, bi);
    lemma_count_braces_concat(p10, "\n\n"@);
    lemma_count_braces_concat(p11, m);
    lemma_count_braces_concat(p12, "\n}\n"@);
}

/// Every expression generated for a template other than the development
/// shell embeds the package name and the version string.
pub proof fn lemma_generate_embeds_name_and_version(info: ExpressionInfo)
    requires
        info.template != Template::Mkshell,
    ensures
        exists|i: int| occurs_at(spec_generate(info), info.pname@, i),
        exists|i: int| occurs_at(spec_generate(info), info.version@, i),
{
    let h = spec_header(info.template, info.fetcher);
    let dh1 = spec_derivation_helper(info.template).1;
    let p1 = h + "\n\n"@;
    let p2 = p1 + dh1;
    let p3 = p2 + " rec {\n  pname = \""@;
    let p4 = p3 + info.pname@;
    let p5 = p4 + "\";\n  version = \""@;
    let out = spec_generate(info);
    let i1 = p3.len() as int;
    assert(out.subrange(i1, i1 + info.pname@.len() as int) =~= info.pname@);
    assert(occurs_at(out, info.pname@, i1));
    let i2 = p5.len() as int;
    assert(out.subrange(i2, i2 + info.version@.len() as int) =~= info.version@);
    assert(occurs_at(out, info.version@, i2));
}

/// The development-shell skeleton is one fixed text: for that template the
/// generator ignores the fetcher and every user-supplied field.
pub proof fn lemma_shell_output_constant(a: ExpressionInfo, b: ExpressionInfo)
    requires
        a.template == Template::Mkshell,
        b.template == Template::Mkshell,
    ensures
        spec_generate(a) == spec_generate(b),
{
}

} // verus!
