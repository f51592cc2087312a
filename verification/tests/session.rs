use std::collections::BTreeMap;
use yew_cli::plan::{Mode, Plan, Toolchain};
use yew_cli::session::{Action, Event, Failure, Outcome, Phase, Session, SkipReason};
use yew_cli::tools::{Tool, ToolCommand};

const TEMPLATE: &str = "<!-- entry point -->";

fn plan(dirs: &[&str]) -> Plan {
    Plan {
        mode: Mode::Build,
        release: false,
        toolchain: Toolchain::Packaging,
        strict: false,
        workspace: "/work".to_string(),
        template: TEMPLATE.to_string(),
        project_dirs: dirs.iter().map(|d| d.to_string()).collect(),
    }
}

/// A file system and a set of tools that exist in memory only.
struct World {
    /// The files that exist, with their contents.
    files: BTreeMap<String, String>,
    /// The directories that cannot be resolved.
    unresolvable: Vec<String>,
    /// The outcome of a tool in a project directory; success where none is set.
    outcomes: BTreeMap<(String, String), Outcome>,
    /// What was started, in order.
    started: Vec<ToolCommand>,
    /// How many tools run at this moment.
    running: usize,
}

impl World {
    fn new() -> World {
        World {
            files: BTreeMap::new(),
            unresolvable: Vec::new(),
            outcomes: BTreeMap::new(),
            started: Vec::new(),
            running: 0,
        }
    }

    fn with_file(mut self, path: &str, contents: &str) -> World {
        self.files.insert(path.to_string(), contents.to_string());
        self
    }

    fn with_outcome(mut self, tool: Tool, project: &str, outcome: Outcome) -> World {
        self.outcomes.insert((tool.program().to_string(), project.to_string()), outcome);
        self
    }

    fn without_dir(mut self, dir: &str) -> World {
        self.unresolvable.push(dir.to_string());
        self
    }

    fn perform(&mut self, action: &Action) -> Option<Event> {
        match action {
            Action::Resolve { dir, .. } => {
                if self.unresolvable.contains(dir) {
                    Some(Event::Unresolvable)
                } else {
                    Some(Event::Resolved { path: format!("/work/{}", dir), name: dir.clone() })
                }
            }
            Action::CheckManifest { path, .. } | Action::CheckIndex { path, .. } => {
                Some(Event::Exists { present: self.files.contains_key(path) })
            }
            Action::Skip { .. } | Action::Serve => Some(Event::Done),
            Action::Run { command, .. } => {
                assert_eq!(self.running, 0);
                self.running += 1;
                self.started.push(command.clone());
                let key = (command.tool.program().to_string(), command.working_dir.clone());
                let outcome = self.outcomes.get(&key).copied().unwrap_or(Outcome::Succeeded);
                self.running -= 1;
                Some(Event::ToolExited { outcome })
            }
            Action::WriteIndex { path, contents, .. } => {
                assert!(!self.files.contains_key(path));
                self.files.insert(path.clone(), contents.clone());
                Some(Event::Done)
            }
            Action::Finish | Action::Abort { .. } => None,
        }
    }
}

fn run(plan: Plan, world: &mut World) -> (Vec<Action>, Session) {
    let mut session = Session::new(plan);
    let mut actions = Vec::new();
    let mut event = Event::Begin;
    loop {
        let action = session.step(event);
        let answer = world.perform(&action);
        actions.push(action);
        match answer {
            Some(next) => event = next,
            None => return (actions, session),
        }
    }
}

fn built_projects(actions: &[Action]) -> Vec<usize> {
    let mut built = Vec::new();
    for action in actions {
        if let Action::Run { project, command } = action {
            if command.tool != Tool::WasmBindgen {
                built.push(*project);
            }
        }
    }
    built
}

fn skipped_projects(actions: &[Action]) -> Vec<usize> {
    let mut skipped = Vec::new();
    for action in actions {
        if let Action::Skip { project, .. } = action {
            skipped.push(*project);
        }
    }
    skipped
}

#[test]
fn new_session_waits_for_begin() {
    let session = Session::new(plan(&["proj_a"]));
    assert_eq!(session.phase(), Phase::Idle);
    assert_eq!(session.cursor(), 0);
    assert!(!session.is_over());
}

#[test]
fn begin_asks_for_the_first_directory() {
    let mut session = Session::new(plan(&["proj_a", "proj_b"]));
    let action = session.step(Event::Begin);
    assert_eq!(action, Action::Resolve { project: 0, dir: "proj_a".to_string() });
    assert_eq!(session.phase(), Phase::Resolving);
}

#[test]
fn resolved_directory_is_checked_for_its_manifest() {
    let mut session = Session::new(plan(&["proj_a"]));
    session.step(Event::Begin);
    let action = session
        .step(Event::Resolved { path: "/work/proj_a".to_string(), name: "proj_a".to_string() });
    assert_eq!(
        action,
        Action::CheckManifest { project: 0, path: "/work/proj_a/Cargo.toml".to_string() }
    );
    assert_eq!(session.phase(), Phase::Validating);
}

#[test]
fn extended_length_marker_is_stripped_from_a_resolved_path() {
    let mut session = Session::new(plan(&["counter"]));
    session.step(Event::Begin);
    let action = session.step(Event::Resolved {
        path: "\\\\?\\C:\\work\\counter".to_string(),
        name: "counter".to_string(),
    });
    assert_eq!(
        action,
        Action::CheckManifest { project: 0, path: "C:\\work\\counter/Cargo.toml".to_string() }
    );
    let action = session.step(Event::Exists { present: true });
    match action {
        Action::Run { command, .. } => assert_eq!(command.working_dir, "C:\\work\\counter"),
        other => panic!("unexpected action {:?}", other),
    }
}

#[test]
fn skip_then_build_scenario() {
    let mut world = World::new().with_file("/work/proj_b/Cargo.toml", "[package]");
    let (actions, session) = run(plan(&["proj_a", "proj_b"]), &mut world);
    assert_eq!(
        actions,
        vec![
            Action::Resolve { project: 0, dir: "proj_a".to_string() },
            Action::CheckManifest { project: 0, path: "/work/proj_a/Cargo.toml".to_string() },
            Action::Skip {
                project: 0,
                path: "/work/proj_a".to_string(),
                reason: SkipReason::MissingManifest
            },
            Action::Resolve { project: 1, dir: "proj_b".to_string() },
            Action::CheckManifest { project: 1, path: "/work/proj_b/Cargo.toml".to_string() },
            Action::Run { project: 1, command: ToolCommand::packaging(false, "/work/proj_b") },
            Action::CheckIndex { project: 1, path: "/work/proj_b/static/index.html".to_string() },
            Action::WriteIndex {
                project: 1,
                path: "/work/proj_b/static/index.html".to_string(),
                contents: TEMPLATE.to_string()
            },
            Action::Finish,
        ]
    );
    assert_eq!(session.phase(), Phase::Completed);
    assert!(session.is_over());
    assert_eq!(world.started.len(), 1);
    assert_eq!(world.started[0].working_dir, "/work/proj_b");
    assert_eq!(world.files.get("/work/proj_b/static/index.html").unwrap(), TEMPLATE);
    assert!(!world.files.contains_key("/work/proj_a/static/index.html"));
}

#[test]
fn skip_then_build_scenario_with_existing_index() {
    let mut world = World::new()
        .with_file("/work/proj_b/Cargo.toml", "[package]")
        .with_file("/work/proj_b/static/index.html", "mine");
    let (actions, _) = run(plan(&["proj_a", "proj_b"]), &mut world);
    assert!(actions.iter().all(|a| !matches!(a, Action::WriteIndex { .. })));
    assert_eq!(world.files.get("/work/proj_b/static/index.html").unwrap(), "mine");
    assert_eq!(built_projects(&actions), vec![1]);
    assert_eq!(skipped_projects(&actions), vec![0]);
}

#[test]
fn release_flag_reaches_the_tool() {
    let mut release = plan(&["proj_b"]);
    release.release = true;
    let mut world = World::new().with_file("/work/proj_b/Cargo.toml", "");
    run(release, &mut world);
    let mut other = World::new().with_file("/work/proj_b/Cargo.toml", "");
    run(plan(&["proj_b"]), &mut other);
    assert_eq!(
        world.started[0].args,
        vec!["build", "--release", "--target", "web", "--out-name", "wasm", "--out-dir", "./static"]
    );
    assert_eq!(
        other.started[0].args,
        vec!["build", "--dev", "--target", "web", "--out-name", "wasm", "--out-dir", "./static"]
    );
    assert_eq!(world.started[0].working_dir, other.started[0].working_dir);
    assert_eq!(world.started[0].tool, other.started[0].tool);
}

#[test]
fn project_without_manifest_is_skipped_and_not_built() {
    let mut world = World::new();
    let (actions, session) = run(plan(&["a", "b", "c"]), &mut world);
    assert!(world.started.is_empty());
    assert_eq!(skipped_projects(&actions), vec![0, 1, 2]);
    assert_eq!(session.phase(), Phase::Completed);
    assert!(world.files.is_empty());
}

#[test]
fn strict_run_ends_at_a_missing_manifest() {
    let mut strict = plan(&["proj_a", "proj_b"]);
    strict.strict = true;
    let mut world = World::new().with_file("/work/proj_b/Cargo.toml", "");
    let (actions, session) = run(strict, &mut world);
    assert_eq!(
        actions.last().unwrap(),
        &Action::Abort {
            failure: Failure::MissingManifest { project: "/work/proj_a".to_string() }
        }
    );
    assert_eq!(actions.len(), 3);
    assert!(world.started.is_empty());
    assert_eq!(session.phase(), Phase::Aborted);
    assert!(session.is_over());
}

#[test]
fn existing_index_is_left_alone() {
    let mut world = World::new()
        .with_file("/work/counter/Cargo.toml", "")
        .with_file("/work/counter/static/index.html", "<p>hand written</p>");
    let (actions, _) = run(plan(&["counter"]), &mut world);
    assert_eq!(
        actions,
        vec![
            Action::Resolve { project: 0, dir: "counter".to_string() },
            Action::CheckManifest { project: 0, path: "/work/counter/Cargo.toml".to_string() },
            Action::Run { project: 0, command: ToolCommand::packaging(false, "/work/counter") },
            Action::CheckIndex { project: 0, path: "/work/counter/static/index.html".to_string() },
            Action::Finish,
        ]
    );
    assert_eq!(
        world.files.get("/work/counter/static/index.html").unwrap(),
        "<p>hand written</p>"
    );
}

#[test]
fn second_run_does_not_write_again() {
    let mut world = World::new().with_file("/work/counter/Cargo.toml", "");
    let (first, _) = run(plan(&["counter"]), &mut world);
    assert_eq!(first.iter().filter(|a| matches!(a, Action::WriteIndex { .. })).count(), 1);
    let (second, _) = run(plan(&["counter"]), &mut world);
    assert_eq!(second.iter().filter(|a| matches!(a, Action::WriteIndex { .. })).count(), 0);
    assert_eq!(world.files.get("/work/counter/static/index.html").unwrap(), TEMPLATE);
}

#[test]
fn missing_index_is_written_once_with_the_template() {
    let mut world = World::new()
        .with_file("/work/a/Cargo.toml", "")
        .with_file("/work/b/Cargo.toml", "")
        .with_file("/work/b/static/index.html", "kept");
    let (actions, _) = run(plan(&["a", "b"]), &mut world);
    let writes: Vec<&Action> =
        actions.iter().filter(|a| matches!(a, Action::WriteIndex { .. })).collect();
    assert_eq!(
        writes,
        vec![&Action::WriteIndex {
            project: 0,
            path: "/work/a/static/index.html".to_string(),
            contents: TEMPLATE.to_string()
        }]
    );
    assert_eq!(world.files.get("/work/a/static/index.html").unwrap(), TEMPLATE);
    assert_eq!(world.files.get("/work/b/static/index.html").unwrap(), "kept");
    assert_eq!(world.files.len(), 4);
}

#[test]
fn builds_run_in_input_order_once_each() {
    let mut world = World::new()
        .with_file("/work/c/Cargo.toml", "")
        .with_file("/work/a/Cargo.toml", "")
        .with_file("/work/d/Cargo.toml", "");
    let (actions, session) = run(plan(&["c", "a", "b", "d"]), &mut world);
    assert_eq!(built_projects(&actions), vec![0, 1, 3]);
    assert_eq!(skipped_projects(&actions), vec![2]);
    let dirs: Vec<&str> = world.started.iter().map(|c| c.working_dir.as_str()).collect();
    assert_eq!(dirs, vec!["/work/c", "/work/a", "/work/d"]);
    assert_eq!(built_projects(&actions).len(), 4 - skipped_projects(&actions).len());
    assert_eq!(session.phase(), Phase::Completed);
    assert_eq!(session.cursor(), 4);
}

#[test]
fn same_directory_given_twice_is_built_twice() {
    let mut world = World::new().with_file("/work/a/Cargo.toml", "");
    let (actions, _) = run(plan(&["a", "a"]), &mut world);
    assert_eq!(built_projects(&actions), vec![0, 1]);
    assert_eq!(actions.iter().filter(|a| matches!(a, Action::WriteIndex { .. })).count(), 1);
}

#[test]
fn unresolvable_directory_ends_the_run() {
    let mut world =
        World::new().with_file("/work/b/Cargo.toml", "").without_dir("missing");
    let (actions, session) = run(plan(&["missing", "b"]), &mut world);
    assert_eq!(
        actions,
        vec![
            Action::Resolve { project: 0, dir: "missing".to_string() },
            Action::Abort { failure: Failure::Unresolvable { dir: "missing".to_string() } },
        ]
    );
    assert!(world.started.is_empty());
    assert_eq!(session.phase(), Phase::Aborted);
}

#[test]
fn failed_build_ends_the_run_with_project_and_code() {
    let mut world = World::new()
        .with_file("/work/a/Cargo.toml", "")
        .with_file("/work/b/Cargo.toml", "")
        .with_outcome(Tool::WasmPack, "/work/a", Outcome::Failed { code: Some(101) });
    let (actions, session) = run(plan(&["a", "b"]), &mut world);
    assert_eq!(
        actions.last().unwrap(),
        &Action::Abort {
            failure: Failure::BuildFailed {
                project: "/work/a".to_string(),
                tool: Tool::WasmPack,
                code: Some(101)
            }
        }
    );
    assert_eq!(world.started.len(), 1);
    assert!(world.files.get("/work/a/static/index.html").is_none());
    assert_eq!(session.phase(), Phase::Aborted);
}

#[test]
fn tool_that_cannot_be_started_ends_the_run() {
    let mut world = World::new()
        .with_file("/work/a/Cargo.toml", "")
        .with_outcome(Tool::WasmPack, "/work/a", Outcome::NotStarted);
    let (actions, _) = run(plan(&["a", "b"]), &mut world);
    assert_eq!(
        actions.last().unwrap(),
        &Action::Abort {
            failure: Failure::NotStarted { project: "/work/a".to_string(), tool: Tool::WasmPack }
        }
    );
    assert_eq!(actions.len(), 4);
}

#[test]
fn build_then_run_serves_after_the_last_project() {
    let mut serving = plan(&["a"]);
    serving.mode = Mode::BuildThenRun;
    let mut world = World::new()
        .with_file("/work/a/Cargo.toml", "")
        .with_file("/work/a/static/index.html", "x");
    let (actions, session) = run(serving, &mut world);
    assert_eq!(actions[actions.len() - 2], Action::Serve);
    assert_eq!(actions[actions.len() - 1], Action::Finish);
    assert_eq!(actions.iter().filter(|a| **a == Action::Serve).count(), 1);
    assert_eq!(session.phase(), Phase::Completed);
}

#[test]
fn plain_build_does_not_serve() {
    let mut world = World::new().with_file("/work/a/Cargo.toml", "");
    let (actions, _) = run(plan(&["a"]), &mut world);
    assert!(!actions.contains(&Action::Serve));
}

#[test]
fn run_without_projects_ends_at_once() {
    let mut session = Session::new(plan(&[]));
    assert_eq!(session.step(Event::Begin), Action::Finish);
    assert_eq!(session.phase(), Phase::Completed);
}

fn native(dirs: &[&str]) -> Plan {
    let mut native = plan(dirs);
    native.toolchain = Toolchain::Native;
    native
}

#[test]
fn native_build_compiles_then_binds() {
    let mut world = World::new().with_file("/work/counter/Cargo.toml", "");
    let (actions, _) = run(native(&["counter"]), &mut world);
    assert_eq!(
        actions,
        vec![
            Action::Resolve { project: 0, dir: "counter".to_string() },
            Action::CheckManifest { project: 0, path: "/work/counter/Cargo.toml".to_string() },
            Action::Run { project: 0, command: ToolCommand::compilation(false, "/work/counter") },
            Action::Run {
                project: 0,
                command: ToolCommand::binding("/work", "counter", "/work/counter")
            },
            Action::CheckIndex { project: 0, path: "/work/counter/static/index.html".to_string() },
            Action::WriteIndex {
                project: 0,
                path: "/work/counter/static/index.html".to_string(),
                contents: TEMPLATE.to_string()
            },
            Action::Finish,
        ]
    );
    assert_eq!(world.started[0].args, vec!["build", "--target", "wasm32-unknown-unknown"]);
    assert_eq!(
        world.started[1].args.last().unwrap(),
        "/work/target/wasm32-unknown-unknown/counter.wasm"
    );
    assert_eq!(built_projects(&actions), vec![0]);
}

#[test]
fn native_release_build_passes_the_flag_to_the_build_tool_only() {
    let mut release = native(&["counter"]);
    release.release = true;
    let mut world = World::new().with_file("/work/counter/Cargo.toml", "");
    run(release, &mut world);
    assert_eq!(
        world.started[0].args,
        vec!["build", "--release", "--target", "wasm32-unknown-unknown"]
    );
    assert!(!world.started[1].args.contains(&"--release".to_string()));
}

#[test]
fn native_build_leaves_out_excluded_directories() {
    let mut world = World::new()
        .with_file("/work/counter_wp/Cargo.toml", "")
        .with_file("/work/multi_thread/Cargo.toml", "")
        .with_file("/work/counter/Cargo.toml", "");
    let (actions, _) = run(native(&["counter_wp", "multi_thread", "counter"]), &mut world);
    assert_eq!(skipped_projects(&actions), vec![0, 1]);
    assert_eq!(built_projects(&actions), vec![2]);
    assert!(actions.contains(&Action::Skip {
        project: 0,
        path: "/work/counter_wp".to_string(),
        reason: SkipReason::Excluded
    }));
    assert!(actions.contains(&Action::Skip {
        project: 1,
        path: "/work/multi_thread".to_string(),
        reason: SkipReason::Excluded
    }));
    assert!(world.started.iter().all(|c| c.working_dir == "/work/counter"));
    assert!(!world.files.contains_key("/work/counter_wp/static/index.html"));
}

#[test]
fn packaging_builds_directories_that_the_native_build_leaves_out() {
    let mut world = World::new().with_file("/work/counter_wp/Cargo.toml", "");
    let (actions, _) = run(plan(&["counter_wp"]), &mut world);
    assert_eq!(built_projects(&actions), vec![0]);
    assert!(skipped_projects(&actions).is_empty());
}

#[test]
fn excluded_directory_without_manifest_is_skipped_for_the_manifest() {
    let mut world = World::new();
    let (actions, _) = run(native(&["counter_wp"]), &mut world);
    assert!(actions.contains(&Action::Skip {
        project: 0,
        path: "/work/counter_wp".to_string(),
        reason: SkipReason::MissingManifest
    }));
}

#[test]
fn failed_native_build_does_not_generate_bindings() {
    let mut world = World::new()
        .with_file("/work/counter/Cargo.toml", "")
        .with_outcome(Tool::Cargo, "/work/counter", Outcome::Failed { code: Some(1) });
    let (actions, _) = run(native(&["counter"]), &mut world);
    assert_eq!(world.started.len(), 1);
    assert_eq!(
        actions.last().unwrap(),
        &Action::Abort {
            failure: Failure::BuildFailed {
                project: "/work/counter".to_string(),
                tool: Tool::Cargo,
                code: Some(1)
            }
        }
    );
}

#[test]
fn failed_bindings_end_the_run_before_the_entry_point() {
    let mut world = World::new()
        .with_file("/work/counter/Cargo.toml", "")
        .with_outcome(Tool::WasmBindgen, "/work/counter", Outcome::Failed { code: None });
    let (actions, _) = run(native(&["counter"]), &mut world);
    assert_eq!(world.started.len(), 2);
    assert_eq!(
        actions.last().unwrap(),
        &Action::Abort {
            failure: Failure::BuildFailed {
                project: "/work/counter".to_string(),
                tool: Tool::WasmBindgen,
                code: None
            }
        }
    );
    assert!(world.files.get("/work/counter/static/index.html").is_none());
}

#[test]
fn report_out_of_turn_ends_the_run() {
    let mut session = Session::new(plan(&["a"]));
    assert_eq!(session.step(Event::Done), Action::Abort { failure: Failure::OutOfTurn });
    assert_eq!(session.phase(), Phase::Aborted);
}

#[test]
fn only_the_tool_end_is_accepted_while_a_tool_runs() {
    let events = vec![
        Event::Begin,
        Event::Resolved { path: "/work/b".to_string(), name: "b".to_string() },
        Event::Unresolvable,
        Event::Exists { present: true },
        Event::Exists { present: false },
        Event::Done,
    ];
    for event in events {
        let mut session = Session::new(plan(&["a", "b"]));
        session.step(Event::Begin);
        session.step(Event::Resolved { path: "/work/a".to_string(), name: "a".to_string() });
        let action = session.step(Event::Exists { present: true });
        assert!(matches!(action, Action::Run { .. }));
        assert_eq!(session.phase(), Phase::Packaging);
        assert_eq!(session.step(event), Action::Abort { failure: Failure::OutOfTurn });
    }
}

#[test]
fn nothing_is_asked_after_the_end() {
    let mut world = World::new();
    let (_, mut session) = run(plan(&["a"]), &mut world);
    assert_eq!(session.phase(), Phase::Completed);
    assert_eq!(session.step(Event::Begin), Action::Abort { failure: Failure::OutOfTurn });
    assert_eq!(session.step(Event::Done), Action::Abort { failure: Failure::OutOfTurn });
    assert_eq!(
        session.step(Event::ToolExited { outcome: Outcome::Succeeded }),
        Action::Abort { failure: Failure::OutOfTurn }
    );
    assert_eq!(session.phase(), Phase::Aborted);
}

#[test]
fn tool_end_after_success_with_code_zero() {
    let mut session = Session::new(plan(&["a"]));
    session.step(Event::Begin);
    session.step(Event::Resolved { path: "/work/a".to_string(), name: "a".to_string() });
    session.step(Event::Exists { present: true });
    let action = session.step(Event::ToolExited { outcome: Outcome::from_exit_code(Some(0)) });
    assert_eq!(
        action,
        Action::CheckIndex { project: 0, path: "/work/a/static/index.html".to_string() }
    );
    assert_eq!(session.phase(), Phase::Probing);
}
