use vstd::prelude::*;

verus! {

/// A request from the file-operations menu.
#[derive(Debug)]
pub enum FileOperation {
    List(String),
    Display(String),
    Create(String, String),
    Remove(String),
    Pwd,
}

/// The menu entry that a line of input selects.
#[derive(Clone, Copy, Debug, PartialEq, Eq, Structural)]
pub enum MenuChoice {
    List,
    Display,
    Create,
    Remove,
    Pwd,
    Exit,
    Invalid,
}

/// The entry selected by the (already trimmed) input `s`: the digits `1` to
/// `5` pick an operation, `0` exits, anything else is invalid.
pub open spec fn menu_choice_of(s: Seq<char>) -> MenuChoice {
    if s.len() != 1 {
        MenuChoice::Invalid
    } else if s[0] == '1' {
        MenuChoice::List
    } else if s[0] == '2' {
        MenuChoice::Display
    } else if s[0] == '3' {
        MenuChoice::Create
    } else if s[0] == '4' {
        MenuChoice::Remove
    } else if s[0] == '5' {
        MenuChoice::Pwd
    } else if s[0] == '0' {
        MenuChoice::Exit
    } else {
        MenuChoice::Invalid
    }
}

/// Reads a menu selection.
pub fn parse_choice(choice: &str) -> (selected: MenuChoice)
    ensures
        selected == menu_choice_of(choice@),
{
    if choice.unicode_len() != 1 {
        return MenuChoice::Invalid;
    }
    match choice.get_char(0) {
        '1' => MenuChoice::List,
        '2' => MenuChoice::Display,
        '3' => MenuChoice::Create,
        '4' => MenuChoice::Remove,
        '5' => MenuChoice::Pwd,
        '0' => MenuChoice::Exit,
        _ => MenuChoice::Invalid,
    }
}

/// A program to run with its arguments.
pub struct ShellCommand {
    pub program: String,
    pub args: Vec<String>,
}

/// The text of each argument.
pub open spec fn arg_texts(args: Seq<String>) -> Seq<Seq<char>> {
    args.map_values(|a: String| a@)
}

/// The program that carries out `op`.
pub open spec fn program_for(op: FileOperation) -> Seq<char> {
    match op {
        FileOperation::List(_) => "ls"@,
        FileOperation::Display(_) => "cat"@,
        FileOperation::Create(_, _) => "sh"@,
        FileOperation::Remove(_) => "rm"@,
        FileOperation::Pwd => "pwd"@,
    }
}

/// The shell line that writes `content` into `path`.
pub open spec fn create_line(path: Seq<char>, content: Seq<char>) -> Seq<char> {
    "echo '"@ + content + "' > "@ + path
}

/// The arguments that `program_for(op)` gets.
pub open spec fn args_for(op: FileOperation) -> Seq<Seq<char>> {
    match op {
        FileOperation::List(dir) => seq![dir@],
        FileOperation::Display(path) => seq![path@],
        FileOperation::Create(path, content) => seq!["-c"@, create_line(path@, content@)],
        FileOperation::Remove(path) => seq![path@],
        FileOperation::Pwd => Seq::empty(),
    }
}

/// The command that carries out `op`: `ls` on the directory, `cat` on the
/// file, `sh -c` with an `echo` redirected into the file, `rm` on the file,
/// or `pwd`.
pub fn command_for(op: &FileOperation) -> (cmd: ShellCommand)
    ensures
        cmd.program@ == program_for(*op),
        arg_texts(cmd.args@) == args_for(*op),
{
    match op {
        FileOperation::List(dir) => {
            let mut args: Vec<String> = Vec::new();
            args.push(dir.clone());
            let cmd = ShellCommand { program: String::from_str("ls"), args };
            assert(arg_texts(cmd.args@) =~= args_for(*op));
            cmd
        },
        FileOperation::Display(path) => {
            let mut args: Vec<String> = Vec::new();
            args.push(path.clone());
            let cmd = ShellCommand { program: String::from_str("cat"), args };
            assert(arg_texts(cmd.args@) =~= args_for(*op));
            cmd
        },
        FileOperation::Create(path, content) => {
            let line = String::from_str("echo '").concat(content.as_str()).concat("' > ").concat(
                path.as_str(),
            );
            let mut args: Vec<String> = Vec::new();
            args.push(String::from_str("-c"));
            args.push(line);
            let cmd = ShellCommand { program: String::from_str("sh"), args };
            assert(arg_texts(cmd.args@) =~= args_for(*op));
            cmd
        },
        FileOperation::Remove(path) => {
            let mut args: Vec<String> = Vec::new();
            args.push(path.clone());
            let cmd = ShellCommand { program: String::from_str("rm"), args };
            assert(arg_texts(cmd.args@) =~= args_for(*op));
            cmd
        },
        FileOperation::Pwd => {
            let args: Vec<String> = Vec::new();
            let cmd = ShellCommand { program: String::from_str("pwd"), args };
            assert(arg_texts(cmd.args@) =~= args_for(*op));
            cmd
        },
    }
}

/// What is reported once the command for `op` has run, given whether it
/// succeeded; `None` when nothing is reported.
pub open spec fn outcome_message_spec(op: FileOperation, success: bool) -> Option<Seq<char>> {
    match op {
        FileOperation::List(_) => if success {
            None
        } else {
            Some("Error listing directory"@)
        },
        FileOperation::Display(_) => if success {
            None
        } else {
            Some("Error displaying file"@)
        },
        FileOperation::Create(path, _) => if success {
            Some("File '"@ + path@ + "' created successfully."@)
        } else {
            Some("Failed to create file"@)
        },
        FileOperation::Remove(path) => if success {
            Some("File '"@ + path@ + "' removed successfully"@)
        } else {
            Some("Failed to remove file"@)
        },
        FileOperation::Pwd => if success {
            None
        } else {
            Some("Error executing pwd"@)
        },
    }
}

/// The report for `op` after its command ran: failures are always reported,
/// successes only for creating and removing a file.
pub fn outcome_message(op: &FileOperation, success: bool) -> (msg: Option<String>)
    ensures
        match msg {
            Some(m) => outcome_message_spec(*op, success) == Some(m@),
            None => outcome_message_spec(*op, success) is None,
        },
{
    match op {
        FileOperation::List(_) => if success {
            None
        } else {
            Some(String::from_str("Error listing directory"))
        },
        FileOperation::Display(_) => if success {
            None
        } else {
            Some(String::from_str("Error displaying file"))
        },
        FileOperation::Create(path, _) => if success {
            Some(
                String::from_str("File '").concat(path.as_str()).concat("' created successfully."),
            )
        } else {
            Some(String::from_str("Failed to create file"))
        },
        FileOperation::Remove(path) => if success {
            Some(String::from_str("File '").concat(path.as_str()).concat("' removed successfully"))
        } else {
            Some(String::from_str("Failed to remove file"))
        },
        FileOperation::Pwd => if success {
            None
        } else {
            Some(String::from_str("Error executing pwd"))
        },
    }
}

/// The text of the panic raised when the command for `op` cannot be started
/// at all.
pub open spec fn launch_failure_spec(op: FileOperation) -> Seq<char> {
    match op {
        FileOperation::List(_) => "Failed to execute ls"@,
        FileOperation::Display(_) => "Failed to execute cat"@,
        FileOperation::Create(_, _) => "Failed to create file"@,
        FileOperation::Remove(_) => "Failed to remove file"@,
        FileOperation::Pwd => "Failed to execute pwd"@,
    }
}

/// The text of the panic raised when the command for `op` cannot be started
/// at all.
pub fn launch_failure_message(op: &FileOperation) -> (msg: &'static str)
    ensures
        msg@ == launch_failure_spec(*op),
{
    match op {
        FileOperation::List(_) => "Failed to execute ls",
        FileOperation::Display(_) => "Failed to execute cat",
        FileOperation::Create(_, _) => "Failed to create file",
        FileOperation::Remove(_) => "Failed to remove file",
        FileOperation::Pwd => "Failed to execute pwd",
    }
}

} // verus!
