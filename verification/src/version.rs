//! The application version banner attached to every external-endpoint
//! response.

use vstd::prelude::*;

verus! {

/// The banner is the semantic package version prefixed with `v`, followed by
/// the source-revision tag in parentheses.
pub open spec fn version_banner(pkg: Seq<char>, rev: Seq<char>) -> Seq<char> {
    "v"@ + pkg + " ("@ + rev + ")"@
}

/// Compose the version banner from the package version and the source
/// revision tag, e.g. `v0.5.3 (git:1a2b3c)`.
pub fn app_version(pkg_version: &str, git_rev: &str) -> (r: String)
    ensures
        r@ == version_banner(pkg_version@, git_rev@),
{
    let mut s = String::from_str("v");
    s.append(pkg_version);
    s.append(" (");
    s.append(git_rev);
    s.append(")");
    s
}

} // verus!
