use coursework::file_ops::{
    command_for, launch_failure_message, outcome_message, parse_choice, FileOperation, MenuChoice,
};

#[test]
fn menu_choices() {
    assert_eq!(parse_choice("1"), MenuChoice::List);
    assert_eq!(parse_choice("2"), MenuChoice::Display);
    assert_eq!(parse_choice("3"), MenuChoice::Create);
    assert_eq!(parse_choice("4"), MenuChoice::Remove);
    assert_eq!(parse_choice("5"), MenuChoice::Pwd);
    assert_eq!(parse_choice("0"), MenuChoice::Exit);
    assert_eq!(parse_choice("6"), MenuChoice::Invalid);
    assert_eq!(parse_choice(""), MenuChoice::Invalid);
    assert_eq!(parse_choice("10"), MenuChoice::Invalid);
    assert_eq!(parse_choice("x"), MenuChoice::Invalid);
}

fn args(op: &FileOperation) -> (String, Vec<String>) {
    let cmd = command_for(op);
    (cmd.program, cmd.args)
}

#[test]
fn commands_for_each_operation() {
    assert_eq!(
        args(&FileOperation::List("/tmp".to_string())),
        ("ls".to_string(), vec!["/tmp".to_string()])
    );
    assert_eq!(
        args(&FileOperation::Display("notes.txt".to_string())),
        ("cat".to_string(), vec!["notes.txt".to_string()])
    );
    assert_eq!(
        args(&FileOperation::Create("a.txt".to_string(), "hello world".to_string())),
        ("sh".to_string(), vec!["-c".to_string(), "echo 'hello world' > a.txt".to_string()])
    );
    assert_eq!(
        args(&FileOperation::Remove("a.txt".to_string())),
        ("rm".to_string(), vec!["a.txt".to_string()])
    );
    assert_eq!(args(&FileOperation::Pwd), ("pwd".to_string(), Vec::<String>::new()));
}

#[test]
fn outcome_messages() {
    let list = FileOperation::List("d".to_string());
    assert_eq!(outcome_message(&list, true), None);
    assert_eq!(outcome_message(&list, false), Some("Error listing directory".to_string()));
    let display = FileOperation::Display("f".to_string());
    assert_eq!(outcome_message(&display, true), None);
    assert_eq!(outcome_message(&display, false), Some("Error displaying file".to_string()));
    let create = FileOperation::Create("a.txt".to_string(), "x".to_string());
    assert_eq!(
        outcome_message(&create, true),
        Some("File 'a.txt' created successfully.".to_string())
    );
    assert_eq!(outcome_message(&create, false), Some("Failed to create file".to_string()));
    let remove = FileOperation::Remove("a.txt".to_string());
    assert_eq!(
        outcome_message(&remove, true),
        Some("File 'a.txt' removed successfully".to_string())
    );
    assert_eq!(outcome_message(&remove, false), Some("Failed to remove file".to_string()));
    assert_eq!(outcome_message(&FileOperation::Pwd, true), None);
    assert_eq!(outcome_message(&FileOperation::Pwd, false), Some("Error executing pwd".to_string()));
}

#[test]
fn launch_failure_messages() {
    assert_eq!(launch_failure_message(&FileOperation::List("d".to_string())), "Failed to execute ls");
    assert_eq!(launch_failure_message(&FileOperation::Display("f".to_string())), "Failed to execute cat");
    assert_eq!(
        launch_failure_message(&FileOperation::Create("f".to_string(), "c".to_string())),
        "Failed to create file"
    );
    assert_eq!(launch_failure_message(&FileOperation::Remove("f".to_string())), "Failed to remove file");
    assert_eq!(launch_failure_message(&FileOperation::Pwd), "Failed to execute pwd");
}
