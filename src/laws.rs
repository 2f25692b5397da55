//! Properties of resolution as a whole, stated over the model in
//! [`crate::resolver`].
use vstd::prelude::*;
use crate::candidates::{
    bundle_candidates, dev_bundle_rel, joined_path, packaged_bundle, path_debug, root_bundle,
};
use crate::resolver::{
    action_of, initial, interpreter_missing_message, bundle_missing_message, launch_of, outcome,
    resolution, skip, stdio_flag, ActionModel, ResolverModel,
};

verus! {

/// `needle` stands somewhere in `hay` as a contiguous piece.
pub open spec fn occurs_in(needle: Seq<char>, hay: Seq<char>) -> bool {
    exists|k: int|
        0 <= k && k + needle.len() <= hay.len() && #[trigger] hay.subrange(k, k + needle.len())
            == needle
}

/// Each report to the machine moves resolution on without changing where it
/// ends: from a state that asks for a probe, resolution ends in the launch of
/// the probed path if it is present and goes on from the next candidate if it
/// is not; from any other state it ends in the action that the state calls for.
pub proof fn lemma_step_follows_outcome(m: ResolverModel, present: Seq<bool>)
    requires
        m.candidates.len() == 3,
        m.next <= 3,
        present.len() == 3,
    ensures
        action_of(m) is Probe ==> outcome(m, present) == (if present[m.next as int] {
            launch_of(m.interpreter->Some_0, m.candidates[m.next as int])
        } else {
            outcome(skip(m), present)
        }),
        !(action_of(m) is Probe) ==> outcome(m, present) == action_of(m),
{
}

/// The development-layout bundle under the project root wins whenever it
/// exists, whatever else exists.
pub proof fn lemma_dev_bundle_has_priority(interpreter: Seq<char>, root: Seq<char>, present: Seq<bool>)
    requires
        present.len() == 3,
        present[0],
    ensures
        resolution(Some(interpreter), root, present) == launch_of(
            interpreter,
            joined_path(root, dev_bundle_rel()),
        ),
{
}

/// Without the development-layout bundle, the packaged bundle in the working
/// directory is launched when it exists.
pub proof fn lemma_packaged_bundle_next(interpreter: Seq<char>, root: Seq<char>, present: Seq<bool>)
    requires
        present.len() == 3,
        !present[0],
        present[1],
    ensures
        resolution(Some(interpreter), root, present) == launch_of(interpreter, packaged_bundle()),
{
    let m0 = initial(Some(interpreter), root);
    assert(outcome(m0, present) == outcome(skip(m0), present));
}

/// When only the absolute fallback exists, it is launched.
pub proof fn lemma_root_bundle_last(interpreter: Seq<char>, root: Seq<char>, present: Seq<bool>)
    requires
        present.len() == 3,
        !present[0],
        !present[1],
        present[2],
    ensures
        resolution(Some(interpreter), root, present) == launch_of(interpreter, root_bundle()),
{
    let m0 = initial(Some(interpreter), root);
    assert(outcome(m0, present) == outcome(skip(m0), present));
    assert(outcome(skip(m0), present) == outcome(skip(skip(m0)), present));
}

/// When no candidate exists, resolution fails with the message that lists the
/// three checked paths: the first in its quoted `Debug` form, the other two
/// as they are.
pub proof fn lemma_no_bundle_fails(interpreter: Seq<char>, root: Seq<char>, present: Seq<bool>)
    requires
        present.len() == 3,
        !present[0],
        !present[1],
        !present[2],
    ensures
        resolution(Some(interpreter), root, present) == ActionModel::Fail(
            bundle_missing_message(bundle_candidates(root)),
        ),
        occurs_in(
            path_debug(bundle_candidates(root)[0]),
            bundle_missing_message(bundle_candidates(root)),
        ),
        occurs_in(bundle_candidates(root)[1], bundle_missing_message(bundle_candidates(root))),
        occurs_in(bundle_candidates(root)[2], bundle_missing_message(bundle_candidates(root))),
{
    let m0 = initial(Some(interpreter), root);
    assert(outcome(m0, present) == outcome(skip(m0), present));
    assert(outcome(skip(m0), present) == outcome(skip(skip(m0)), present));
    assert(outcome(skip(skip(m0)), present) == outcome(skip(skip(skip(m0))), present));
    let c = bundle_candidates(root);
    let s0 = "Trigger System LSP not found.\nSearched in:\n1. "@;
    let s1 = "\n2. "@;
    let s2 = "\n3. "@;
    let s3 = "\n\nEnsure 'bun run build:lsp' was run and the bundle is in the extension folder."@;
    let msg = bundle_missing_message(c);
    let d0 = path_debug(c[0]);
    assert(msg == s0 + d0 + s1 + c[1] + s2 + c[2] + s3);
    let k0 = s0.len() as int;
    let k1 = k0 + d0.len() + s1.len();
    let k2 = k1 + c[1].len() + s2.len();
    assert(msg.subrange(k0, k0 + d0.len()) =~= d0);
    assert(msg.subrange(k1, k1 + c[1].len()) =~= c[1]);
    assert(msg.subrange(k2, k2 + c[2].len()) =~= c[2]);
    assert(occurs_in(d0, msg));
    assert(occurs_in(c[1], msg));
    assert(occurs_in(c[2], msg));
}

/// A missing interpreter fails resolution with its own message before any
/// bundle is probed, whatever bundles exist.
pub proof fn lemma_interpreter_checked_first(root: Seq<char>, present: Seq<bool>)
    ensures
        action_of(initial(None, root)) == ActionModel::Fail(interpreter_missing_message()),
        resolution(None, root, present) == ActionModel::Fail(interpreter_missing_message()),
{
}

/// A successful resolution launches a candidate that is present, under the
/// interpreter that was found, with exactly the bundle path and the stdio
/// flag as arguments and no extra environment.
pub proof fn lemma_launch_args_exact(interpreter: Option<Seq<char>>, root: Seq<char>, present: Seq<bool>)
    requires
        present.len() == 3,
        resolution(interpreter, root, present) is Launch,
    ensures
        interpreter is Some,
        exists|i: int|
            0 <= i < 3 && present[i] && resolution(interpreter, root, present) == launch_of(
                interpreter->Some_0,
                bundle_candidates(root)[i],
            ),
        resolution(interpreter, root, present)->Launch_args == seq![
            resolution(interpreter, root, present)->Launch_args[0],
            stdio_flag(),
        ],
        resolution(interpreter, root, present)->Launch_env.len() == 0,
{
    // Resolution passes the candidates in turn until one is present.
    let m0 = initial(interpreter, root);
    let m1 = skip(m0);
    let m2 = skip(m1);
    let m3 = skip(m2);
    assert(outcome(m0, present) == outcome(m1, present) || present[0]);
    assert(outcome(m1, present) == outcome(m2, present) || present[1]);
    assert(outcome(m2, present) == outcome(m3, present) || present[2]);
    assert(outcome(m3, present) == action_of(m3));
}

} // verus!
