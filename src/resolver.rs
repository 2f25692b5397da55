//! The launch decision as a small state machine.
//!
//! The caller first looks up the interpreter and builds a [`Resolver`]. It
//! then asks for the next [`Action`]: while the action is a probe, the caller
//! checks whether that path exists and reports the answer with
//! [`Resolver::observe`]. The machine ends in a launch or a failure message.
//! Candidates are probed in priority order and the first one present wins.
use vstd::prelude::*;
use vstd::string::StringExecFns;
use crate::candidates::{bundle_candidates, candidate_paths, debug_path, path_debug};

verus! {

/// A command line for the host to spawn: executable, arguments and extra
/// environment variables.
#[derive(Clone, Debug)]
pub struct LaunchCommand {
    pub command: String,
    pub args: Vec<String>,
    pub env: Vec<(String, String)>,
}

/// What the caller has to do next.
#[derive(Clone, Debug)]
pub enum Action {
    /// Check whether this path exists and report the answer.
    Probe(String),
    /// Resolution succeeded: spawn this command.
    Launch(LaunchCommand),
    /// Resolution failed: show this message to the user.
    Fail(String),
}

/// The mathematical form of an [`Action`].
pub enum ActionModel {
    Probe(Seq<char>),
    Launch { command: Seq<char>, args: Seq<Seq<char>>, env: Seq<(Seq<char>, Seq<char>)> },
    Fail(Seq<char>),
}

/// The mathematical form of a [`Resolver`]'s state.
pub struct ResolverModel {
    pub interpreter: Option<Seq<char>>,
    pub candidates: Seq<Seq<char>>,
    pub next: nat,
}

impl LaunchCommand {
    pub open spec fn model(&self) -> ActionModel {
        ActionModel::Launch {
            command: self.command@,
            args: self.args.deep_view(),
            env: self.env.deep_view(),
        }
    }
}

impl Action {
    pub open spec fn model(&self) -> ActionModel {
        match self {
            Action::Probe(p) => ActionModel::Probe(p@),
            Action::Launch(c) => c.model(),
            Action::Fail(m) => ActionModel::Fail(m@),
        }
    }
}

/// The flag that makes the server speak the language server protocol over
/// standard input and output.
pub open spec fn stdio_flag() -> Seq<char> {
    "--stdio"@
}

/// The message shown when no interpreter is on the search path.
pub open spec fn interpreter_missing_message() -> Seq<char> {
    "node executable not found in PATH. Please install Node.js."@
}

/// The message shown when no candidate bundle exists: it lists every path
/// that was checked (the first in its quoted `Debug` form) and how to
/// produce the bundle.
pub open spec fn bundle_missing_message(c: Seq<Seq<char>>) -> Seq<char> {
    "Trigger System LSP not found.\nSearched in:\n1. "@ + path_debug(c[0]) + "\n2. "@ + c[1] + "\n3. "@
        + c[2]
        + "\n\nEnsure 'bun run build:lsp' was run and the bundle is in the extension folder."@
}

/// The launch of `bundle` under `interpreter`: the bundle path and the stdio
/// flag, nothing else, and no extra environment.
pub open spec fn launch_of(interpreter: Seq<char>, bundle: Seq<char>) -> ActionModel {
    ActionModel::Launch {
        command: interpreter,
        args: seq![bundle, stdio_flag()],
        env: Seq::empty(),
    }
}

/// What an interpreter lookup found, as text.
pub open spec fn found_model(o: Option<String>) -> Option<Seq<char>> {
    match o {
        Some(s) => Some(s@),
        None => None,
    }
}

/// The state in which resolution starts.
pub open spec fn initial(interpreter: Option<Seq<char>>, root: Seq<char>) -> ResolverModel {
    ResolverModel { interpreter, candidates: bundle_candidates(root), next: 0 }
}

/// The action that a state calls for. A missing interpreter fails before
/// any bundle is probed.
pub open spec fn action_of(m: ResolverModel) -> ActionModel {
    match m.interpreter {
        None => ActionModel::Fail(interpreter_missing_message()),
        Some(_) => if m.next < m.candidates.len() {
            ActionModel::Probe(m.candidates[m.next as int])
        } else {
            ActionModel::Fail(bundle_missing_message(m.candidates))
        },
    }
}

/// The state after the probed candidate was reported absent.
pub open spec fn skip(m: ResolverModel) -> ResolverModel {
    ResolverModel { next: m.next + 1, ..m }
}

/// Where resolution from state `m` ends when candidate `i` exists exactly
/// when `present[i]` holds.
pub open spec fn outcome(m: ResolverModel, present: Seq<bool>) -> ActionModel
    decreases m.candidates.len() - m.next,
{
    if m.interpreter is Some && m.next < m.candidates.len() {
        if m.next < present.len() && present[m.next as int] {
            launch_of(m.interpreter->Some_0, m.candidates[m.next as int])
        } else {
            outcome(skip(m), present)
        }
    } else {
        action_of(m)
    }
}

/// Where resolution ends for a given interpreter lookup, project root and
/// presence of each candidate bundle.
pub open spec fn resolution(
    interpreter: Option<Seq<char>>,
    root: Seq<char>,
    present: Seq<bool>,
) -> ActionModel {
    outcome(initial(interpreter, root), present)
}

/// Resolution state: the interpreter lookup's result, the candidate bundle
/// paths, and how many of them were found absent so far.
pub struct Resolver {
    interpreter: Option<String>,
    candidates: Vec<String>,
    next: usize,
}

impl View for Resolver {
    type V = ResolverModel;

    closed spec fn view(&self) -> ResolverModel {
        ResolverModel {
            interpreter: found_model(self.interpreter),
            candidates: self.candidates.deep_view(),
            next: self.next as nat,
        }
    }
}

impl Resolver {
    /// Holds of every state the machine can reach: three candidates, of which
    /// at most all have been probed.
    pub open spec fn wf(&self) -> bool {
        &&& self@.candidates.len() == 3
        &&& self@.next <= 3
    }

    /// Starts resolution for `root`, given what the interpreter lookup found.
    pub fn new(interpreter: Option<String>, root: &str) -> (r: Resolver)
        ensures
            r.wf(),
            r@ == initial(found_model(interpreter), root@),
    {
        Resolver { interpreter, candidates: candidate_paths(root), next: 0 }
    }

    /// The action that the current state calls for.
    pub fn action(&self) -> (r: Action)
        requires
            self.wf(),
        ensures
            r.model() == action_of(self@),
    {
        match &self.interpreter {
            None => Action::Fail(String::from_str(
                "node executable not found in PATH. Please install Node.js.",
            )),
            Some(_) => if self.next < self.candidates.len() {
                Action::Probe(self.candidates[self.next].clone())
            } else {
                Action::Fail(self.missing_bundle_message())
            },
        }
    }

    /// The failure message that lists every candidate path.
    fn missing_bundle_message(&self) -> (r: String)
        requires
            self.wf(),
        ensures
            r@ == bundle_missing_message(self@.candidates),
    {
        let mut m = String::from_str("Trigger System LSP not found.\nSearched in:\n1. ");
        let first = debug_path(self.candidates[0].as_str());
        m.append(first.as_str());
        m.append("\n2. ");
        m.append(self.candidates[1].as_str());
        m.append("\n3. ");
        m.append(self.candidates[2].as_str());
        m.append(
            "\n\nEnsure 'bun run build:lsp' was run and the bundle is in the extension folder.",
        );
        m
    }

    /// Takes the answer to the pending probe: whether the probed path exists.
    /// A present bundle is launched; an absent one moves on to the next
    /// candidate, or to the failure once all were absent.
    pub fn observe(&mut self, present: bool) -> (r: Action)
        requires
            old(self).wf(),
            action_of(old(self)@) is Probe,
        ensures
            final(self).wf(),
            present ==> final(self)@ == old(self)@ && r.model() == launch_of(
                old(self)@.interpreter->Some_0,
                old(self)@.candidates[old(self)@.next as int],
            ),
            !present ==> final(self)@ == skip(old(self)@) && r.model() == action_of(final(self)@),
    {
        if present {
            // A probe is pending only when an interpreter was found.
            let command = match &self.interpreter {
                Some(s) => s.clone(),
                None => String::new(),
            };
            let mut args: Vec<String> = Vec::new();
            args.push(self.candidates[self.next].clone());
            args.push(String::from_str("--stdio"));
            let env: Vec<(String, String)> = Vec::new();
            proof {
                assert(args.deep_view() =~= seq![
                    old(self)@.candidates[old(self)@.next as int],
                    stdio_flag(),
                ]);
                assert(env.deep_view() =~= Seq::<(Seq<char>, Seq<char>)>::empty());
            }
            Action::Launch(LaunchCommand { command, args, env })
        } else {
            self.next = self.next + 1;
            proof {
                assert(self@ =~= skip(old(self)@));
            }
            self.action()
        }
    }
}

} // verus!
