use line_bridge::bridge::{Action, Bridge, BridgeError, ErrorKind, Event, Request, Stage};
use line_bridge::table::{Column, Table};

const PATH: &str = ".venv/lib/python3.12/site-packages/";

fn request() -> Request {
    let table = Table::new(vec![
        Column::text(
            "Date".to_string(),
            vec!["2024-10-01".to_string(), "2024-10-02".to_string(), "2024-10-03".to_string()],
        ),
        Column::int32("Value".to_string(), vec![1, 2, 4]),
    ])
    .unwrap();
    Request {
        table,
        x_column: "Date".to_string(),
        y_column: "Value".to_string(),
        package_path: PATH.to_string(),
        source: "def line_graph(df, x, y):\n    return 'ok'\n".to_string(),
    }
}

fn step(b: &mut Bridge, e: Event<String>) -> Action<String> {
    assert!(b.expects(&e));
    b.on_event(e)
}

fn released(a: Action<String>) -> Result<String, BridgeError> {
    match a {
        Action::Release { result } => result,
        other => panic!("expected a release, got {:?}", other),
    }
}

/// Runs one call up to the call step and checks each action on the way.
fn run_to_call(b: &mut Bridge) {
    assert!(matches!(b.begin::<String>(request()), Ok(Action::AcquireSession)));
    match step(b, Event::SessionAcquired) {
        Action::InsertSearchPath { path } => assert_eq!(path, PATH),
        other => panic!("{:?}", other),
    }
    match step(b, Event::PathInserted) {
        Action::LoadModule { source, module_name, file_name } => {
            assert!(source.starts_with("def line_graph"));
            assert_eq!(module_name, "hello");
            assert_eq!(file_name, "hello.py");
        }
        other => panic!("{:?}", other),
    }
    match step(b, Event::ModuleLoaded) {
        Action::ResolveAttribute { name } => assert_eq!(name, "line_graph"),
        other => panic!("{:?}", other),
    }
    match step(b, Event::AttributeResolved) {
        Action::Call { table, x_column, y_column } => {
            assert_eq!(table.width(), 2);
            assert_eq!(table.height(), 3);
            assert_eq!(x_column, "Date");
            assert_eq!(y_column, "Value");
        }
        other => panic!("{:?}", other),
    }
}

#[test]
fn successful_call_returns_callable_value() {
    let mut b = Bridge::new();
    run_to_call(&mut b);
    assert_eq!(b.current_stage(), Stage::Calling);
    let r = released(step(&mut b, Event::Returned("ok".to_string())));
    assert_eq!(r.unwrap(), "ok");
    assert_eq!(b.current_stage(), Stage::Idle);
}

#[test]
fn load_failure_ends_call() {
    let mut b = Bridge::new();
    assert!(b.begin::<String>(request()).is_ok());
    step(&mut b, Event::SessionAcquired);
    step(&mut b, Event::PathInserted);
    let e = released(step(&mut b, Event::Failed("SyntaxError: invalid syntax".to_string())))
        .unwrap_err();
    assert_eq!(e.kind, ErrorKind::ModuleLoad);
    assert_eq!(e.message, "SyntaxError: invalid syntax");
    assert_eq!(b.current_stage(), Stage::Idle);
    assert!(!b.expects(&Event::<String>::AttributeResolved));
    assert!(!b.expects(&Event::<String>::Returned("ok".to_string())));
}

#[test]
fn missing_attribute_ends_call() {
    let mut b = Bridge::new();
    assert!(b.begin::<String>(request()).is_ok());
    step(&mut b, Event::SessionAcquired);
    step(&mut b, Event::PathInserted);
    step(&mut b, Event::ModuleLoaded);
    let e = released(step(&mut b, Event::Failed("AttributeError: line_graph".to_string())))
        .unwrap_err();
    assert_eq!(e.kind, ErrorKind::AttributeResolution);
    assert!(!b.expects(&Event::<String>::AttributeResolved));
    assert!(!b.expects(&Event::<String>::Returned("ok".to_string())));
}

#[test]
fn raised_error_is_invocation_failure() {
    let mut b = Bridge::new();
    run_to_call(&mut b);
    let e = released(step(&mut b, Event::Failed("ValueError".to_string()))).unwrap_err();
    assert_eq!(e.kind, ErrorKind::Invocation);
    assert_eq!(e.message, "ValueError");
}

#[test]
fn search_path_failure() {
    let mut b = Bridge::new();
    assert!(b.begin::<String>(request()).is_ok());
    step(&mut b, Event::SessionAcquired);
    let e = released(step(&mut b, Event::Failed("TypeError".to_string()))).unwrap_err();
    assert_eq!(e.kind, ErrorKind::SearchPath);
    assert!(b.inserted_paths().is_empty());
}

#[test]
fn each_call_inserts_path_again() {
    let mut b = Bridge::new();
    for n in 1..=3usize {
        run_to_call(&mut b);
        released(step(&mut b, Event::Returned("ok".to_string()))).unwrap();
        assert_eq!(b.inserted_paths().len(), n);
    }
    assert!(b.inserted_paths().iter().all(|p| p == PATH));
}

#[test]
fn failed_call_still_leaves_path() {
    let mut b = Bridge::new();
    assert!(b.begin::<String>(request()).is_ok());
    step(&mut b, Event::SessionAcquired);
    step(&mut b, Event::PathInserted);
    released(step(&mut b, Event::Failed("SyntaxError".to_string()))).unwrap_err();
    assert_eq!(b.inserted_paths(), &vec![PATH.to_string()]);
}

#[test]
fn second_call_waits_for_first() {
    let mut b = Bridge::new();
    assert!(b.begin::<String>(request()).is_ok());
    step(&mut b, Event::SessionAcquired);
    let back = b.begin::<String>(request());
    assert!(back.is_err());
    assert_eq!(b.current_stage(), Stage::InsertingPath);
    step(&mut b, Event::PathInserted);
    step(&mut b, Event::ModuleLoaded);
    step(&mut b, Event::AttributeResolved);
    released(step(&mut b, Event::Returned("ok".to_string()))).unwrap();
    assert!(matches!(b.begin::<String>(back.unwrap_err()), Ok(Action::AcquireSession)));
}

#[test]
fn events_out_of_order_are_not_expected() {
    let mut b = Bridge::new();
    assert!(!b.expects(&Event::<String>::SessionAcquired));
    assert!(!b.expects(&Event::<String>::Failed("x".to_string())));
    assert!(b.begin::<String>(request()).is_ok());
    assert!(b.expects(&Event::<String>::SessionAcquired));
    assert!(!b.expects(&Event::<String>::ModuleLoaded));
    assert!(!b.expects(&Event::<String>::Failed("x".to_string())));
}
