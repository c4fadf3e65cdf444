//! The configuration that the program is started with, and what it asks for.

use crate::db::{connect_to_db, ssl_mode_for, ConnectionSettings};
use vstd::prelude::*;
use vstd::string::*;

verus! {

/// What the program is to do instead of reading commands from the terminal.
#[derive(Clone, Debug, PartialEq, Eq)]
pub enum Commands {
    /// Run one SQL statement and leave.
    Exec { sql: String },
    /// Run the statements of a script, given by a path or a URL, and leave.
    ExecFrom { source: String },
}

/// The configuration as it is given on the command line.
#[derive(Clone, Debug, PartialEq, Eq)]
pub struct Cli {
    pub host: Option<String>,
    pub port: Option<u16>,
    pub user: Option<String>,
    pub password: Option<String>,
    pub dbname: Option<String>,
    pub use_tls: bool,
    pub allow_invalid_cert: bool,
    pub format: String,
    pub history_file: String,
    pub command: Option<Commands>,
}

/// What the program does once it is connected.
#[derive(Clone, Debug, PartialEq, Eq)]
pub enum Mode {
    /// Run this statement and leave.
    Statement(String),
    /// Run the script found at this path or URL and leave.
    Script(String),
    /// Read commands from the terminal.
    Interactive,
}

/// A `Mode` as the contracts speak of it, with texts as sequences of
/// characters.
pub enum ModeView {
    Statement(Seq<char>),
    Script(Seq<char>),
    Interactive,
}

impl DeepView for Mode {
    type V = ModeView;

    open spec fn deep_view(&self) -> ModeView {
        match self {
            Mode::Statement(sql) => ModeView::Statement(sql@),
            Mode::Script(source) => ModeView::Script(source@),
            Mode::Interactive => ModeView::Interactive,
        }
    }
}

/// The port on which the server listens unless another is given.
pub const DEFAULT_PORT: u16 = 8812;

/// The text of an option, or `fallback` where the option was not given.
pub open spec fn text_or(given: Option<String>, fallback: Seq<char>) -> Seq<char> {
    match given {
        Some(text) => text@,
        None => fallback,
    }
}

/// The text of an option, or `fallback` where the option was not given.
pub fn or_default(given: &Option<String>, fallback: &str) -> (r: String)
    ensures
        r@ == text_or(*given, fallback@),
{
    match given {
        Some(text) => text.clone(),
        None => String::from_str(fallback),
    }
}

impl Cli {
    /// The mode that the configuration asks for.
    pub open spec fn spec_mode(&self) -> ModeView {
        match self.command {
            Some(Commands::Exec { sql }) => ModeView::Statement(sql@),
            Some(Commands::ExecFrom { source }) => ModeView::Script(source@),
            None => ModeView::Interactive,
        }
    }

    /// The connection that the configuration asks for, with the defaults
    /// filled in: host `localhost`, port 8812, user `admin`, password `quest`,
    /// database `qdb`.
    pub fn settings(&self) -> (r: ConnectionSettings)
        ensures
            r.host@ == text_or(self.host, "localhost"@),
            r.port == match self.port {
                Some(port) => port,
                None => DEFAULT_PORT,
            },
            r.user@ == text_or(self.user, "admin"@),
            r.password@ == text_or(self.password, "quest"@),
            r.dbname@ == text_or(self.dbname, "qdb"@),
            r.ssl_mode == ssl_mode_for(self.use_tls),
            r.allow_invalid_cert == self.allow_invalid_cert,
    {
        let host = or_default(&self.host, "localhost");
        let port = match self.port {
            Some(port) => port,
            None => DEFAULT_PORT,
        };
        let user = or_default(&self.user, "admin");
        let password = or_default(&self.password, "quest");
        let dbname = or_default(&self.dbname, "qdb");
        connect_to_db(
            host.as_str(),
            port,
            user.as_str(),
            password.as_str(),
            dbname.as_str(),
            self.use_tls,
            self.allow_invalid_cert,
        )
    }

    /// What the program does once it is connected: the one statement or the
    /// script that was asked for, or else the interactive session.
    pub fn mode(&self) -> (r: Mode)
        ensures
            r.deep_view() == self.spec_mode(),
    {
        match &self.command {
            Some(Commands::Exec { sql }) => Mode::Statement(sql.clone()),
            Some(Commands::ExecFrom { source }) => Mode::Script(source.clone()),
            None => Mode::Interactive,
        }
    }
}

} // verus!
