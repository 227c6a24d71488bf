//! What the program does, by its command line.

use vstd::prelude::*;
use vstd::utf8::{decode_utf8, valid_utf8};

verus! {

/// The database file where the command line names none.
pub const DEFAULT_DB_FILE: &'static str = "yastr.sqlite3";

/// The address that the relay listens on.
pub const BIND: &'static str = "127.0.0.1:8095";

/// A command line.
#[derive(Clone, Debug, PartialEq, Eq)]
pub enum Command {
    Db { command: DbCommand },
    Serve(ServeCommand),
}

/// Runs the relay.
#[derive(Clone, Debug, PartialEq, Eq)]
pub struct ServeCommand {
    pub global: GlobalOptions,
}

/// What every command takes.
#[derive(Clone, Debug, PartialEq, Eq)]
pub struct GlobalOptions {
    /// The path of the database file, as the operating system spells it.
    pub db_file: Vec<u8>,
}

/// What can be done with a database.
#[derive(Clone, Debug, PartialEq, Eq)]
pub enum DbCommand {
    Init { options: GlobalOptions },
}

/// What the program sets out to do.
#[derive(Clone, Debug, PartialEq, Eq)]
pub enum Action {
    /// Create a database in this file.
    InitDb { db_file: String },
    /// Serve the database in this file at this address.
    Serve { db_file: Vec<u8>, bind: &'static str },
}

/// `String::from_utf8`: the text that bytes encode, where they are valid
/// UTF-8.
#[verifier::external_body]
fn utf8_text(bytes: Vec<u8>) -> (text: Option<String>)
    ensures
        text is Some <==> valid_utf8(bytes@),
        text is Some ==> text->0@ == decode_utf8(bytes@),
{
    String::from_utf8(bytes).ok()
}

/// Whether bytes are valid UTF-8, as the path of a new database has to be.
pub fn is_utf8(bytes: &Vec<u8>) -> (valid: bool)
    ensures
        valid == valid_utf8(bytes@),
{
    utf8_text(bytes.clone()).is_some()
}

/// The options of a command.
pub open spec fn options_of(cmd: Command) -> GlobalOptions {
    match cmd {
        Command::Db { command: DbCommand::Init { options } } => options,
        Command::Serve(serve) => serve.global,
    }
}

/// Sets out to do what a command line says. `db_file_exists` is whether there
/// is something under the path that it names.
pub fn parse_and_run(cmd: Command, db_file_exists: bool) -> (action: Result<Action, String>)
    requires
        cmd is Db && !db_file_exists ==> valid_utf8(options_of(cmd).db_file@),
    ensures
        action is Err <==> cmd is Db && db_file_exists,
        action is Err ==> action->Err_0@ == "File already exists"@,
        action is Ok && cmd is Db ==> {
            &&& action->Ok_0 is InitDb
            &&& action->Ok_0->InitDb_db_file@ == decode_utf8(options_of(cmd).db_file@)
        },
        action is Ok && cmd is Serve ==> {
            &&& action->Ok_0 is Serve
            &&& action->Ok_0->Serve_db_file@ == options_of(cmd).db_file@
            &&& action->Ok_0->bind@ == BIND@
            &&& action->Ok_0->bind@ == "127.0.0.1:8095"@
        },
{
    match cmd {
        Command::Db { command: DbCommand::Init { options } } => db_init(options, db_file_exists),
        Command::Serve(command) => Ok(serve(command)),
    }
}

/// Creates a database, in a file that is not there yet.
pub fn db_init(options: GlobalOptions, db_file_exists: bool) -> (action: Result<Action, String>)
    requires
        !db_file_exists ==> valid_utf8(options.db_file@),
    ensures
        action is Err <==> db_file_exists,
        action is Err ==> action->Err_0@ == "File already exists"@,
        action is Ok ==> {
            &&& action->Ok_0 is InitDb
            &&& action->Ok_0->InitDb_db_file@ == decode_utf8(options.db_file@)
        },
{
    if db_file_exists {
        return Err("File already exists".to_owned());
    }
    Ok(Action::InitDb { db_file: utf8_text(options.db_file).unwrap() })
}

/// Serves a database.
pub fn serve(command: ServeCommand) -> (action: Action)
    ensures
        action is Serve,
        action->Serve_db_file@ == command.global.db_file@,
        action->bind@ == BIND@,
        action->bind@ == "127.0.0.1:8095"@,
{
    Action::Serve { db_file: command.global.db_file, bind: BIND }
}

/// Every command goes by its own options.
pub proof fn commands_keep_their_options(options: GlobalOptions)
    ensures
        options_of(Command::Db { command: DbCommand::Init { options } }) == options,
        options_of(Command::Serve(ServeCommand { global: options })) == options,
{
}

} // verus!
