//! Resolution of the conventional on-disk path for a generated expression
//! when working inside the canonical nixpkgs tree: where to write the file,
//! and what path to reference from a top-level index file.

use vstd::prelude::*;
use crate::expression::Template;

verus! {

/// The two user-input errors the resolver can report. Both are fatal to the
/// enclosing operation; the caller prints a message and stops.
#[derive(Clone, Copy, Debug, PartialEq, Eq, Structural)]
pub enum PathError {
    /// The canonical-tree flag was given without a package name.
    MissingPname,
    /// No default sub-path convention exists for the requested template, and
    /// no explicit path was given.
    NoDefaultPath,
}

/// True when the path is exactly the canonical root segment `pkgs`.
pub open spec fn is_root_alone(p: Seq<char>) -> bool {
    p.len() == 4 && p[0] == 'p' && p[1] == 'k' && p[2] == 'g' && p[3] == 's'
}

/// True when the path begins with the canonical root segment `pkgs/`.
pub open spec fn has_root_prefix(p: Seq<char>) -> bool {
    p.len() >= 5 && p[0] == 'p' && p[1] == 'k' && p[2] == 'g' && p[3] == 's' && p[4] == '/'
}

/// Strips one leading canonical root segment, if present; otherwise the
/// identity.
pub open spec fn strip_root(p: Seq<char>) -> Seq<char> {
    if is_root_alone(p) {
        Seq::<char>::empty()
    } else if has_root_prefix(p) {
        p.skip(5)
    } else {
        p
    }
}

/// True when the final path segment already carries the canonical `.nix`
/// file extension (with a non-empty stem, so a segment that is nothing but
/// `.nix` does not count).
pub open spec fn has_nix_extension(p: Seq<char>) -> bool {
    p.len() >= 5 && p[p.len() - 4] == '.' && p[p.len() - 3] == 'n' && p[p.len() - 2] == 'i'
        && p[p.len() - 1] == 'x' && p[p.len() - 5] != '/'
}

/// The write-path for an explicitly requested path in canonical-tree mode:
/// the stripped path below the root, with the default file name appended
/// unless the path already names a `.nix` file.
pub open spec fn spec_write_path(stripped: Seq<char>) -> Seq<char> {
    if has_nix_extension(stripped) {
        "pkgs/"@ + stripped
    } else {
        "pkgs/"@ + stripped + "/default.nix"@
    }
}

/// The reference-path for canonical-tree mode: one parent-directory segment,
/// then the stripped path.
pub open spec fn spec_reference_path(stripped: Seq<char>) -> Seq<char> {
    "../"@ + stripped
}

/// The default sub-path below the root for a Python package.
pub open spec fn spec_python_radix(pname: Seq<char>) -> Seq<char> {
    "development/python-modules/"@ + pname
}

/// Returns the requested path with one leading canonical root segment
/// removed; a path that does not begin with the root segment comes back
/// unchanged.
pub fn strip_root_prefix<'a>(path: &'a str) -> (r: &'a str)
    ensures
        r@ == strip_root(path@),
{
    let n = path.unicode_len();
    if n == 4 && path.get_char(0) == 'p' && path.get_char(1) == 'k' && path.get_char(2) == 'g'
        && path.get_char(3) == 's' {
        let empty = "";
        proof {
            reveal_strlit("");
            assert(empty@ =~= strip_root(path@));
        }
        empty
    } else if n >= 5 && path.get_char(0) == 'p' && path.get_char(1) == 'k'
        && path.get_char(2) == 'g' && path.get_char(3) == 's' && path.get_char(4) == '/' {
        let rest = path.substring_char(5, n);
        proof {
            assert(rest@ =~= strip_root(path@));
        }
        rest
    } else {
        path
    }
}

/// Reports whether the path's final segment already names a `.nix` file.
pub fn ends_with_nix_extension(path: &str) -> (r: bool)
    ensures
        r == has_nix_extension(path@),
{
    let n = path.unicode_len();
    n >= 5 && path.get_char(n - 4) == '.' && path.get_char(n - 3) == 'n'
        && path.get_char(n - 2) == 'i' && path.get_char(n - 1) == 'x'
        && path.get_char(n - 5) != '/'
}

/// Determines where the generated file should be written and which path a
/// top-level index file should reference.
///
/// Outside canonical-tree mode the requested path is taken as it is and the
/// reference path is empty. In canonical-tree mode a package name is
/// required; a requested path is placed below the tree root after stripping
/// a redundant root segment, with the default file name appended unless the
/// path already names a `.nix` file; without a requested path only the
/// Python template has a known default sub-path, and every other template is
/// a user-input error.
pub fn nix_file_paths(
    template: &Template,
    nixpkgs: bool,
    pname_given: bool,
    path_given: bool,
    path: &str,
    pname: &str,
) -> (r: Result<(String, String), PathError>)
    ensures
        !nixpkgs ==> (r matches Ok(v) && v.0@ == path@ && v.1@ == Seq::<char>::empty()),
        nixpkgs && !pname_given ==> r == Err::<(String, String), PathError>(PathError::MissingPname),
        nixpkgs && pname_given && !path_given && *template == Template::Python ==> (r matches Ok(v)
            && v.0@ == "pkgs/"@ + spec_python_radix(pname@) + "/default.nix"@
            && v.1@ == "../"@ + spec_python_radix(pname@)),
        nixpkgs && pname_given && !path_given && *template != Template::Python ==> r == Err::<(
            String,
            String,
        ), PathError>(PathError::NoDefaultPath),
        nixpkgs && pname_given && path_given ==> (r matches Ok(v) && v.0@ == spec_write_path(
            strip_root(path@),
        ) && v.1@ == spec_reference_path(strip_root(path@))),
{
    if nixpkgs {
        if !pname_given {
            return Err(PathError::MissingPname);
        }
        if !path_given {
            if *template == Template::Python {
                let mut file_path = String::from_str("pkgs/");
                file_path.append("development/python-modules/");
                file_path.append(pname);
                file_path.append("/default.nix");
                let mut nix_path = String::from_str("../");
                nix_path.append("development/python-modules/");
                nix_path.append(pname);
                proof {
                    assert(file_path@ =~= "pkgs/"@ + spec_python_radix(pname@) + "/default.nix"@);
                    assert(nix_path@ =~= "../"@ + spec_python_radix(pname@));
                }
                Ok((file_path, nix_path))
            } else {
                Err(PathError::NoDefaultPath)
            }
        } else {
            let stripped = strip_root_prefix(path);
            let mut file_path = String::from_str("pkgs/");
            file_path.append(stripped);
            if !ends_with_nix_extension(stripped) {
                file_path.append("/default.nix");
            }
            let mut nix_path = String::from_str("../");
            nix_path.append(stripped);
            proof {
                assert(file_path@ =~= spec_write_path(strip_root(path@)));
                assert(nix_path@ =~= spec_reference_path(strip_root(path@)));
            }
            Ok((file_path, nix_path))
        }
    } else {
        let write_path = String::from_str(path);
        Ok((write_path, String::new()))
    }
}

/// Stripping the canonical root is idempotent: once the root segment is
/// gone, stripping again changes nothing. The premise excludes paths whose
/// remainder after one strip itself begins with the root segment (such
/// paths lose one root segment per strip, by design).
pub proof fn lemma_strip_root_idempotent(p: Seq<char>)
    requires
        !is_root_alone(strip_root(p)),
        !has_root_prefix(strip_root(p)),
    ensures
        strip_root(strip_root(p)) == strip_root(p),
{
}

} // verus!
