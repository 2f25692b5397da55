use trigger_system_extension::candidates::candidate_paths;
use trigger_system_extension::resolver::{Action, LaunchCommand, Resolver};

const NODE: &str = "/usr/bin/node";
const DEV: &str = "/proj/vscode-extension/dist/lsp/server.bundle.js";
const MISSING: &str = "Trigger System LSP not found.\nSearched in:\n1. \"/proj/vscode-extension/dist/lsp/server.bundle.js\"\n2. server.bundle.js\n3. /server.bundle.js\n\nEnsure 'bun run build:lsp' was run and the bundle is in the extension folder.";

fn probe_path(a: Action) -> String {
    match a {
        Action::Probe(p) => p,
        other => panic!("expected a probe, got {:?}", other),
    }
}

fn launch(a: Action) -> LaunchCommand {
    match a {
        Action::Launch(c) => c,
        other => panic!("expected a launch, got {:?}", other),
    }
}

fn failure(a: Action) -> String {
    match a {
        Action::Fail(m) => m,
        other => panic!("expected a failure, got {:?}", other),
    }
}

/// Drives a resolver over `/proj`, answering each probe from `present`, and
/// returns the final action and the paths probed.
fn drive(interpreter: Option<&str>, present: [bool; 3]) -> (Action, Vec<String>) {
    let mut r = Resolver::new(interpreter.map(|s| s.to_string()), "/proj");
    let mut probed: Vec<String> = Vec::new();
    let mut a = r.action();
    loop {
        match a {
            Action::Probe(p) => {
                let i = probed.len();
                probed.push(p);
                a = r.observe(present[i]);
            }
            other => return (other, probed),
        }
    }
}

#[test]
fn candidates_in_priority_order() {
    let c = candidate_paths("/proj");
    assert_eq!(c, vec![DEV.to_string(), "server.bundle.js".to_string(), "/server.bundle.js".to_string()]);
}

#[test]
fn candidate_join_handles_trailing_separator() {
    let c = candidate_paths("/home/me/trigger/");
    assert_eq!(c[0], "/home/me/trigger/vscode-extension/dist/lsp/server.bundle.js");
    let d = candidate_paths("relative/root");
    assert_eq!(d[0], "relative/root/vscode-extension/dist/lsp/server.bundle.js");
}

#[test]
fn dev_bundle_wins_when_all_exist() {
    let (a, probed) = drive(Some(NODE), [true, true, true]);
    let c = launch(a);
    assert_eq!(c.command, NODE);
    assert_eq!(c.args, vec![DEV.to_string(), "--stdio".to_string()]);
    assert!(c.env.is_empty());
    assert_eq!(probed, vec![DEV.to_string()]);
}

#[test]
fn dev_bundle_wins_over_root_bundle() {
    let (a, _) = drive(Some(NODE), [true, false, true]);
    assert_eq!(launch(a).args[0], DEV);
}

#[test]
fn packaged_bundle_when_only_it_exists() {
    let (a, probed) = drive(Some(NODE), [false, true, false]);
    let c = launch(a);
    assert_eq!(c.command, NODE);
    assert_eq!(c.args, vec!["server.bundle.js".to_string(), "--stdio".to_string()]);
    assert_eq!(probed, vec![DEV.to_string(), "server.bundle.js".to_string()]);
}

#[test]
fn root_bundle_when_only_it_exists() {
    let (a, probed) = drive(Some(NODE), [false, false, true]);
    let c = launch(a);
    assert_eq!(c.args, vec!["/server.bundle.js".to_string(), "--stdio".to_string()]);
    assert_eq!(probed.len(), 3);
}

#[test]
fn no_bundle_lists_all_candidates() {
    let (a, probed) = drive(Some(NODE), [false, false, false]);
    let m = failure(a);
    assert_eq!(m, MISSING);
    assert!(m.contains(&format!("{:?}", std::path::Path::new(DEV))));
    assert!(m.contains("\n1. \"/proj/vscode-extension/dist/lsp/server.bundle.js\"\n"));
    assert!(m.contains("\n2. server.bundle.js"));
    assert!(m.contains("\n3. /server.bundle.js"));
    assert_eq!(probed, vec![DEV.to_string(), "server.bundle.js".to_string(), "/server.bundle.js".to_string()]);
}

#[test]
fn missing_interpreter_fails_before_probing() {
    for present in [[true, true, true], [false, false, false], [false, true, false]] {
        let (a, probed) = drive(None, present);
        assert_eq!(failure(a), "node executable not found in PATH. Please install Node.js.");
        assert!(probed.is_empty());
    }
}

#[test]
fn first_action_probes_dev_bundle() {
    let r = Resolver::new(Some(NODE.to_string()), "/proj");
    assert_eq!(probe_path(r.action()), DEV);
}

#[test]
fn launch_arguments_are_exactly_bundle_and_stdio() {
    for present in [[true, false, false], [false, true, true], [false, false, true]] {
        let (a, probed) = drive(Some(NODE), present);
        let c = launch(a);
        assert_eq!(c.args.len(), 2);
        assert_eq!(&c.args[0], probed.last().unwrap());
        assert_eq!(c.args[1], "--stdio");
    }
}

#[test]
fn missing_message_escapes_first_path() {
    let mut r = Resolver::new(Some(NODE.to_string()), "/my \"proj\"");
    let mut a = r.action();
    while let Action::Probe(_) = a {
        a = r.observe(false);
    }
    let m = failure(a);
    assert!(m.contains("\n1. \"/my \\\"proj\\\"/vscode-extension/dist/lsp/server.bundle.js\"\n"));
}
