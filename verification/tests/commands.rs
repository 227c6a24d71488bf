use yastr::commands::{db_init, is_utf8, parse_and_run, serve, Action, Command, DbCommand, GlobalOptions, ServeCommand, DEFAULT_DB_FILE};

fn options(path: &[u8]) -> GlobalOptions {
    GlobalOptions { db_file: path.to_vec() }
}

fn init(path: &[u8]) -> Command {
    Command::Db { command: DbCommand::Init { options: options(path) } }
}

#[test]
fn a_new_database_is_created() {
    assert_eq!(
        parse_and_run(init("dätä.sqlite3".as_bytes()), false),
        Ok(Action::InitDb { db_file: "dätä.sqlite3".to_string() })
    );
}

#[test]
fn an_existing_file_is_left_alone() {
    assert_eq!(parse_and_run(init(b"yastr.sqlite3"), true), Err("File already exists".to_string()));
    assert_eq!(db_init(options(b"\xff"), true), Err("File already exists".to_string()));
}

#[test]
fn a_database_is_served() {
    let command = ServeCommand { global: options(b"yastr\xff.sqlite3") };
    let action = Action::Serve { db_file: b"yastr\xff.sqlite3".to_vec(), bind: "127.0.0.1:8095" };
    assert_eq!(parse_and_run(Command::Serve(command.clone()), true), Ok(action.clone()));
    assert_eq!(parse_and_run(Command::Serve(command.clone()), false), Ok(action.clone()));
    assert_eq!(serve(command), action);
}

#[test]
fn paths_may_not_be_text() {
    assert!(is_utf8(&b"plain".to_vec()));
    assert!(is_utf8(&"dätä".as_bytes().to_vec()));
    assert!(!is_utf8(&b"\xff".to_vec()));
    assert_eq!(DEFAULT_DB_FILE, "yastr.sqlite3");
}
