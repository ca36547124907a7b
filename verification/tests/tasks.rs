//! Tests of task derivation, ordering and execution, and of the pipeline
//! stage machine.
use bleur::error::BleurError;
use bleur::stage::Stage;
use bleur::store::VariableStore;
use bleur::task::Change;
use bleur::task::Move;
use bleur::task::Task;
use bleur::task::TaskAction;
use bleur::task::TaskInput;
use bleur::task::ToTask;
use bleur::task::Variable;
use bleur::template::Executor;
use bleur::template::Project;
use bleur::template::Template;
use bleur::text::join_path;
use bleur::Protocol;

fn variable(name: &str, default: &str) -> Variable {
    Variable {
        variable: name.to_string(),
        default: default.to_string(),
        message: format!("Value for {}?", name),
    }
}

fn change(placeholder: &str, source: &str, value: &str, apply: &str) -> Change {
    Change {
        placeholder: placeholder.to_string(),
        source: source.to_string(),
        value: value.to_string(),
        apply: apply.to_string(),
    }
}

fn movement(from: &str, to: &str, apply: &str) -> Move {
    Move { from: from.to_string(), to: to.to_string(), apply: apply.to_string() }
}

fn template(variable: Vec<Variable>, change: Vec<Change>, replace: Vec<Move>) -> Template {
    Template {
        project: Project { name: "demo-project".to_string() },
        variable,
        change,
        replace,
        path: "/work".to_string(),
    }
}

#[test]
fn to_tasks_yields_three_blocks_in_declaration_order() {
    let t = template(
        vec![variable("one", "1"), variable("two", "2")],
        vec![change("A", "a.txt", "@one@", ""), change("B", "b.txt", "@two@", "")],
        vec![movement("x.txt", "y.txt", ""), movement("p.txt", "q.txt", "")],
    );
    let tasks = t.to_tasks();
    assert_eq!(tasks.len(), 6);
    let indices: Vec<u8> = tasks.iter().map(|t| t.index()).collect();
    assert_eq!(indices, vec![1, 1, 2, 2, 3, 3]);
    match (&tasks[0], &tasks[1]) {
        (Task::Variable(a), Task::Variable(b)) => {
            assert_eq!(a.variable, "one");
            assert_eq!(b.variable, "two");
        },
        other => panic!("variables out of place: {:?}", other),
    }
    match (&tasks[2], &tasks[3]) {
        (Task::Change(a), Task::Change(b)) => {
            assert_eq!(a.placeholder, "A");
            assert_eq!(b.placeholder, "B");
        },
        other => panic!("changes out of place: {:?}", other),
    }
    match (&tasks[4], &tasks[5]) {
        (Task::Move(a), Task::Move(b)) => {
            assert_eq!(a.from, "/work/x.txt");
            assert_eq!(b.from, "/work/p.txt");
        },
        other => panic!("moves out of place: {:?}", other),
    }
}

#[test]
fn to_tasks_rebases_relative_paths() {
    let t = template(
        vec![],
        vec![change("P", "src/main.rs", "v", "")],
        vec![movement("old.txt", "sub/new.txt", "")],
    );
    let tasks = t.to_tasks();
    match &tasks[0] {
        Task::Change(c) => assert_eq!(c.source, "/work/src/main.rs"),
        other => panic!("expected a change task, got {:?}", other),
    }
    match &tasks[1] {
        Task::Move(m) => {
            assert_eq!(m.from, "/work/old.txt");
            assert_eq!(m.to, "/work/sub/new.txt");
        },
        other => panic!("expected a move task, got {:?}", other),
    }
}

#[test]
fn join_path_keeps_absolute_children_and_single_separators() {
    assert_eq!(join_path("/work", "a.txt"), "/work/a.txt");
    assert_eq!(join_path("/work/", "a.txt"), "/work/a.txt");
    assert_eq!(join_path("/work", "/abs/a.txt"), "/abs/a.txt");
    assert_eq!(join_path("", "a.txt"), "a.txt");
    assert_eq!(join_path("/work", ""), "/work/");
}

#[test]
fn with_path_sets_only_the_working_copy_path() {
    let t = template(vec![variable("pkg", "demo")], vec![], vec![]);
    let t = t.with_path("/elsewhere".to_string());
    assert_eq!(t.path(), "/elsewhere");
    assert_eq!(t.variable.len(), 1);
    assert_eq!(t.project.name, "demo-project");
}

#[test]
fn computable_wraps_the_derived_tasks() {
    let t = template(vec![variable("pkg", "demo")], vec![], vec![]);
    let direct = t.clone().to_tasks();
    let ex: Executor = t.computable();
    assert_eq!(ex.tasks, direct);
}

#[test]
fn variable_task_records_the_reply() {
    let mut store = VariableStore::new();
    let v = variable("pkg", "demo");
    let got = v.execute(&mut store, "entered");
    assert_eq!(got, Ok(TaskAction::StoreUpdated));
    assert_eq!(store.get("pkg"), Some("entered".to_string()));
}

#[test]
fn change_task_substitutes_transforms_and_replaces() {
    let mut store = VariableStore::new();
    store.insert("pkg".to_string(), "demo".to_string());
    let c = change("__PKG__", "/work/file.txt", "@pkg@", "uppercase");
    let got = c.execute(&store, "fn __PKG__() { __PKG__ }").unwrap();
    assert_eq!(
        got,
        TaskAction::WriteBack {
            path: "/work/file.txt".to_string(),
            contents: "fn DEMO() { DEMO }".to_string(),
        }
    );
}

#[test]
fn change_task_with_undeclared_name_always_fails_with_substitution_error() {
    let store = VariableStore::new();
    for apply in ["", "uppercase", "lowercase", "garbage"] {
        let c = change("__PKG__", "/work/file.txt", "@undeclared@", apply);
        let got = c.execute(&store, "body __PKG__");
        assert_eq!(got, Err(BleurError::NoSuchVariable("undeclared".to_string())));
    }
}

#[test]
fn move_task_resolves_and_transforms_the_destination() {
    let mut store = VariableStore::new();
    store.insert("pkg".to_string(), "DeMo".to_string());
    let m = movement("/work/old.txt", "/work/@pkg@.txt", "lowercase");
    let got = m.execute(&store).unwrap();
    assert_eq!(
        got,
        TaskAction::Rename { from: "/work/old.txt".to_string(), to: "/work/demo.txt".to_string() }
    );
}

#[test]
fn move_task_with_undeclared_name_fails_with_substitution_error() {
    let store = VariableStore::new();
    let m = movement("/work/old.txt", "/work/@missing@.txt", "");
    assert_eq!(
        m.execute(&store),
        Err(BleurError::NoSuchVariable("missing".to_string()))
    );
}

#[test]
fn end_to_end_scenario_accepting_the_default() {
    let t = template(
        vec![variable("pkg", "demo")],
        vec![change("__PKG__", "file.txt", "@pkg@", "uppercase")],
        vec![movement("old.txt", "@pkg@.txt", "lowercase")],
    );
    let tasks = t.to_tasks();
    assert_eq!(tasks.len(), 3);
    let mut store = VariableStore::new();

    // The user accepts the default, so the prompt hands back "demo".
    let first = tasks[0]
        .execute(&mut store, TaskInput::PromptReply("demo".to_string()))
        .unwrap();
    assert_eq!(first, TaskAction::StoreUpdated);

    let second = tasks[1]
        .execute(&mut store, TaskInput::FileContents("print(\"__PKG__\")".to_string()))
        .unwrap();
    match second {
        TaskAction::WriteBack { path, contents } => {
            assert_eq!(path, "/work/file.txt");
            assert_eq!(contents, "print(\"DEMO\")");
            assert!(contents.contains("DEMO"));
            assert!(!contents.contains("__PKG__"));
        },
        other => panic!("expected a write-back, got {:?}", other),
    }

    let third = tasks[2].execute(&mut store, TaskInput::NoInput).unwrap();
    assert_eq!(
        third,
        TaskAction::Rename {
            from: "/work/old.txt".to_string(),
            to: "/work/demo.txt".to_string(),
        }
    );
}

#[test]
fn task_index_orders_the_three_kinds() {
    let v = Task::Variable(variable("a", "b"));
    let c = Task::Change(change("p", "s", "v", ""));
    let m = Task::Move(movement("f", "t", ""));
    assert_eq!(v.index(), 1);
    assert_eq!(c.index(), 2);
    assert_eq!(m.index(), 3);
}

#[test]
fn to_task_wraps_each_declaration_kind() {
    let v = variable("a", "b").to_task("/root");
    assert!(matches!(v, Task::Variable(_)));
    let c = change("p", "s.txt", "v", "").to_task("/root");
    match c {
        Task::Change(c) => assert_eq!(c.source, "/root/s.txt"),
        other => panic!("expected a change task, got {:?}", other),
    }
    let m = movement("f.txt", "t.txt", "").to_task("/root");
    match m {
        Task::Move(m) => {
            assert_eq!(m.from, "/root/f.txt");
            assert_eq!(m.to, "/root/t.txt");
        },
        other => panic!("expected a move task, got {:?}", other),
    }
}

#[test]
fn stage_machine_admits_only_the_successor() {
    assert_eq!(Stage::Created.advance_to(Stage::Acquired), Ok(Stage::Acquired));
    assert_eq!(Stage::Acquired.advance_to(Stage::Parsed), Ok(Stage::Parsed));
    assert_eq!(Stage::Parsed.advance_to(Stage::Evaluated), Ok(Stage::Evaluated));
    assert_eq!(Stage::Evaluated.advance_to(Stage::Copied), Ok(Stage::Copied));
    assert_eq!(
        Stage::Created.advance_to(Stage::Parsed),
        Err(BleurError::InsufficientArgumentsToDecide)
    );
    assert_eq!(
        Stage::Parsed.advance_to(Stage::Acquired),
        Err(BleurError::InsufficientArgumentsToDecide)
    );
    assert_eq!(
        Stage::Copied.advance_to(Stage::Copied),
        Err(BleurError::InsufficientArgumentsToDecide)
    );
}

#[test]
fn protocol_labels() {
    assert_eq!(Protocol::Git.label(), "git");
    assert_eq!(Protocol::Http.label(), "http");
}
