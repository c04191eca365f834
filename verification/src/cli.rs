//! The command line as plain data, and what its options mean.
use vstd::prelude::*;

verus! {

/// The whole command line.
#[derive(Debug)]
pub struct Cli {
    pub global: GlobalOpts,
    pub command: Command,
}

/// The options that every command takes.
#[derive(Debug)]
pub struct GlobalOpts {
    /// How many times `-v` was given.
    pub verbose: u8,
    /// Whether to address the main network.
    pub ic: bool,
    /// The name of the identity to act as.
    pub identity: String,
}

/// The commands.
#[derive(Debug)]
pub enum Command {
    /// Say hello.
    Greet { name: String },
    /// Deploy a new memory.
    Create(CreateArgs),
    /// List the memories.
    List(ListArgs),
    /// Insert a text into a memory.
    Insert(InsertArgs),
}

/// What `create` takes.
#[derive(Debug)]
pub struct CreateArgs {
    pub name: String,
    pub description: String,
}

/// What `list` takes: nothing.
#[derive(Debug)]
pub struct ListArgs {}

/// What `insert` takes.
#[derive(Debug)]
pub struct InsertArgs {
    /// The canister id of the memory.
    pub memory_id: String,
    pub text: String,
}

/// How much is logged.
#[derive(Debug, Clone, Copy, PartialEq, Eq)]
pub enum LogLevel {
    Info,
    Debug,
    Trace,
}

/// The log level for a number of `-v`: info, then debug, then trace.
pub open spec fn level_of(verbose: u8) -> LogLevel {
    if verbose == 0 {
        LogLevel::Info
    } else if verbose == 1 {
        LogLevel::Debug
    } else {
        LogLevel::Trace
    }
}

impl GlobalOpts {
    /// The log level that the options ask for.
    pub fn log_level(&self) -> (level: LogLevel)
        ensures
            level == level_of(self.verbose),
    {
        if self.verbose == 0 {
            LogLevel::Info
        } else if self.verbose == 1 {
            LogLevel::Debug
        } else {
            LogLevel::Trace
        }
    }
}

} // verus!
