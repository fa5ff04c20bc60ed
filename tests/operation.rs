use nix_scaffold::language::Language;
use nix_scaffold::operation::{handle_operation, init_project, write_outcome, CreationError, Operation};
use nix_scaffold::template::create_nix_shell;

fn parts(op: &Operation) -> (String, String) {
    match op {
        Operation::CreateFile(p, c) => (p.clone(), c.clone()),
    }
}

/// Carries out `ops` against a directory held as a list of (path, content).
fn run(ops: Vec<Operation>, dir: &mut Vec<(String, String)>) -> Vec<Result<(), CreationError>> {
    let mut results = Vec::new();
    for op in ops {
        let (path, _) = parts(&op);
        let exists = dir.iter().any(|(p, _)| *p == path);
        let result = match handle_operation(op, exists) {
            Err(e) => Err(e),
            Ok((p, c)) => {
                dir.push((p.clone(), c));
                write_outcome(p, true)
            }
        };
        results.push(result);
    }
    results
}

#[test]
fn project_has_descriptor_then_stub() {
    let ops = init_project(&Language::Java);
    assert_eq!(ops.len(), 2);
    assert_eq!(parts(&ops[0]), ("shell.nix".to_string(), create_nix_shell(&Language::Java)));
    assert_eq!(parts(&ops[1]), (".envrc".to_string(), "use nix".to_string()));
}

#[test]
fn existing_path_is_refused() {
    let op = Operation::CreateFile("shell.nix".to_string(), "new".to_string());
    match handle_operation(op, true) {
        Err(CreationError::AlreadyExists(p)) => assert_eq!(p, "shell.nix"),
        other => panic!("unexpected {:?}", other),
    }
}

#[test]
fn fresh_path_gets_exact_content() {
    let content = "line one\n  line two\n".to_string();
    let op = Operation::CreateFile("notes".to_string(), content.clone());
    match handle_operation(op, false) {
        Ok((p, c)) => {
            assert_eq!(p, "notes");
            assert_eq!(c, content);
        }
        other => panic!("unexpected {:?}", other),
    }
}

#[test]
fn failed_write_names_its_file() {
    assert!(write_outcome(".envrc".to_string(), true).is_ok());
    match write_outcome(".envrc".to_string(), false) {
        Err(CreationError::WriteFailed(p)) => assert_eq!(p, ".envrc"),
        other => panic!("unexpected {:?}", other),
    }
}

#[test]
fn error_messages_name_the_file() {
    assert_eq!(
        CreationError::AlreadyExists("shell.nix".to_string()).message(),
        "File shell.nix already exists"
    );
    assert_eq!(CreationError::WriteFailed(".envrc".to_string()).message(), "Failed to create file .envrc");
}

#[test]
fn go_project_in_empty_directory_then_again() {
    let mut dir: Vec<(String, String)> = Vec::new();
    let first = run(init_project(&Language::Go), &mut dir);
    assert!(first.iter().all(|r| r.is_ok()));
    assert_eq!(dir.len(), 2);
    assert_eq!(dir[0].0, "shell.nix");
    assert!(dir[0].1.contains("go"));
    assert_eq!(dir[1], (".envrc".to_string(), "use nix".to_string()));

    let before = dir.clone();
    let second = run(init_project(&Language::Go), &mut dir);
    assert_eq!(second.len(), 2);
    assert!(matches!(&second[0], Err(CreationError::AlreadyExists(p)) if p == "shell.nix"));
    assert!(matches!(&second[1], Err(CreationError::AlreadyExists(p)) if p == ".envrc"));
    assert_eq!(dir, before);
}
