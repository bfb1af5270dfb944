//! The command-line model: the commands and their arguments, the errors of
//! the commands, and the configuration.
use vstd::prelude::*;

verus! {

/// A parsed command line.
#[derive(Debug, PartialEq, Eq)]
pub struct Cli {
    pub command: Commands,
}

/// All commands of the tool.
#[derive(Debug, PartialEq, Eq)]
pub enum Commands {
    /// Open the interactive editor.
    Interactive,
    /// Print the value of a variable.
    Get(GetArgs),
    /// Set a variable and optionally run a process.
    SetVar(SetArgs),
    /// Append to the value of a variable and optionally run a process.
    Add(AddArgs),
    /// Delete a variable and optionally run a process.
    Delete(DeleteArgs),
    /// Load variables from a dotenv file and optionally run a process.
    Load(LoadArgs),
    /// Print all variables.
    Print(PrintArgs),
    /// Write the default configuration file.
    InitConfig,
    /// Export variables to a dotenv file.
    Export(ExportArgs),
}

#[derive(Debug, PartialEq, Eq)]
pub struct PrintArgs {
    /// Output format; `{name}` and `{value}` stand for each variable's parts.
    pub format: Option<String>,
}

#[derive(Debug, PartialEq, Eq)]
pub struct GetArgs {
    pub key: String,
    /// Do not suggest similar names when the variable is missing.
    pub no_similar_names: bool,
}

#[derive(Debug, PartialEq, Eq)]
pub struct LoadArgs {
    pub global: bool,
    /// Process to start; required unless `global`.
    pub process: Option<String>,
    /// Path of the dotenv file.
    pub file: String,
}

#[derive(Debug, PartialEq, Eq)]
pub struct SetArgs {
    pub key: String,
    pub value: String,
    pub global: bool,
    /// Process to start; required unless `global`.
    pub process: Option<String>,
}

#[derive(Debug, PartialEq, Eq)]
pub struct AddArgs {
    pub key: String,
    /// Text appended to the current value.
    pub value: String,
    pub global: bool,
    /// Process to start; required unless `global`.
    pub process: Option<String>,
}

#[derive(Debug, PartialEq, Eq)]
pub struct DeleteArgs {
    pub key: String,
    pub global: bool,
    /// Process to start; required unless `global`.
    pub process: Option<String>,
}

#[derive(Debug, PartialEq, Eq)]
pub struct ExportArgs {
    pub file_name: String,
    pub keys: Vec<String>,
}

/// The configuration file's content.
#[derive(Debug, PartialEq, Eq)]
pub struct Config {
    /// Format used by the print command when none is given.
    pub print_format: Option<String>,
}

} // verus!

verus! {

/// Errors of the tool's commands.
#[derive(Debug, PartialEq, Eq)]
pub enum ErrorKind {
    StartingProcessError,
    CannotSetVariableGlobally(String),
    CannotDeleteVariableGlobally(String),
    ParsingError(String),
    FileError(String),
    /// The variable's name, and whether suggestions of similar names are off.
    CannotFindVariable(String, bool),
    NameValidationError(String),
}

/// The text that describes an error of a command.
pub open spec fn error_text(e: ErrorKind) -> Seq<char> {
    match e {
        ErrorKind::StartingProcessError => "Can't start process"@,
        ErrorKind::CannotSetVariableGlobally(s) =>
            "Can't set variable globally (try running with sudo or administrative privileges): "@
                + s@,
        ErrorKind::CannotDeleteVariableGlobally(s) =>
            "Can't delete variable globally (try running with sudo or administrative privileges): "@
                + s@,
        ErrorKind::ParsingError(s) => "Parsing error: "@ + s@,
        ErrorKind::FileError(s) => "File error: "@ + s@,
        ErrorKind::CannotFindVariable(name, _) => "Can't find variable: "@ + name@,
        ErrorKind::NameValidationError(s) => "Name validation error: "@ + s@,
    }
}

/// `prefix` followed by `rest`.
fn joined(prefix: &str, rest: &String) -> (r: String)
    ensures
        r@ == prefix@ + rest@,
{
    let mut r = String::from_str(prefix);
    r.append(rest.as_str());
    r
}

impl ErrorKind {
    /// The text that describes the error.
    pub fn message(&self) -> (r: String)
        ensures
            r@ == error_text(*self),
    {
        match self {
            ErrorKind::StartingProcessError => String::from_str("Can't start process"),
            ErrorKind::CannotSetVariableGlobally(s) => joined(
                "Can't set variable globally (try running with sudo or administrative privileges): ",
                s,
            ),
            ErrorKind::CannotDeleteVariableGlobally(s) => joined(
                "Can't delete variable globally (try running with sudo or administrative privileges): ",
                s,
            ),
            ErrorKind::ParsingError(s) => joined("Parsing error: ", s),
            ErrorKind::FileError(s) => joined("File error: ", s),
            ErrorKind::CannotFindVariable(name, _) => joined("Can't find variable: ", name),
            ErrorKind::NameValidationError(s) => joined("Name validation error: ", s),
        }
    }
}

/// Errors of reading the configuration file.
#[derive(Debug, PartialEq, Eq)]
pub enum ConfigParsingError {
    FSError(String),
    ParsingError(String),
    FileDoesntExists,
}

/// The text that describes an error of reading the configuration.
pub open spec fn config_error_text(e: ConfigParsingError) -> Seq<char> {
    match e {
        ConfigParsingError::FSError(s) => "Error while reading file: "@ + s@,
        ConfigParsingError::ParsingError(s) => "Error while parsing file: "@ + s@,
        ConfigParsingError::FileDoesntExists => "Config file doesn't exists"@,
    }
}

impl ConfigParsingError {
    /// The text that describes the error.
    pub fn message(&self) -> (r: String)
        ensures
            r@ == config_error_text(*self),
    {
        match self {
            ConfigParsingError::FSError(s) => joined("Error while reading file: ", s),
            ConfigParsingError::ParsingError(s) => joined("Error while parsing file: ", s),
            ConfigParsingError::FileDoesntExists => String::from_str("Config file doesn't exists"),
        }
    }
}

} // verus!
