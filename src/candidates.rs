//! The fixed, ordered list of places where the server bundle may live.
use vstd::prelude::*;
use vstd::string::StringExecFns;

verus! {

/// The bundle's location relative to a project root, in the development layout.
pub open spec fn dev_bundle_rel() -> Seq<char> {
    "vscode-extension/dist/lsp/server.bundle.js"@
}

/// The bundle's location relative to the working directory, in the packaged layout.
pub open spec fn packaged_bundle() -> Seq<char> {
    "server.bundle.js"@
}

/// The absolute fallback location used by some sandboxed deployments.
pub open spec fn root_bundle() -> Seq<char> {
    "/server.bundle.js"@
}

/// The path that `std::path::Path::join` makes of `base` and `rel`.
pub uninterp spec fn joined_path(base: Seq<char>, rel: Seq<char>) -> Seq<char>;

/// The candidate bundle paths for a project root, highest priority first.
pub open spec fn bundle_candidates(root: Seq<char>) -> Seq<Seq<char>> {
    seq![joined_path(root, dev_bundle_rel()), packaged_bundle(), root_bundle()]
}

/// Relies on `std::path::Path::join` (and `to_string_lossy`, which is exact
/// on paths built from UTF-8 text): the result depends on the two paths alone.
#[verifier::external_body]
fn join_path(base: &str, rel: &str) -> (r: String)
    ensures
        r@ == joined_path(base@, rel@),
{
    std::path::Path::new(base).join(rel).to_string_lossy().into_owned()
}

/// The text that `Debug` formatting of `std::path::Path` gives for a path:
/// the path in double quotes, with special characters escaped.
pub uninterp spec fn path_debug(p: Seq<char>) -> Seq<char>;

/// Relies on the `Debug` impl of `std::path::Path` (through `format!`): the
/// result depends on the path alone.
#[verifier::external_body]
pub(crate) fn debug_path(p: &str) -> (r: String)
    ensures
        r@ == path_debug(p@),
{
    format!("{:?}", std::path::Path::new(p))
}

/// Builds the candidate bundle paths for `root`, in the order in which they
/// are to be tried.
pub fn candidate_paths(root: &str) -> (r: Vec<String>)
    ensures
        r.deep_view() == bundle_candidates(root@),
{
    let mut r: Vec<String> = Vec::new();
    r.push(join_path(root, "vscode-extension/dist/lsp/server.bundle.js"));
    r.push(String::from_str("server.bundle.js"));
    r.push(String::from_str("/server.bundle.js"));
    assert(r.deep_view() =~= bundle_candidates(root@));
    r
}

} // verus!
