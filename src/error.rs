use vstd::prelude::*;
use vstd::string::StringExecFns;

verus! {

/// What can go wrong when a command is handled.
#[derive(Debug)]
pub enum Error {
    /// The transport under the boundary failed; its message is kept unchanged.
    Io(String),
    /// A plugin-level failure carrying its own message.
    PluginError(String),
    /// No command of this name is registered.
    UnknownCommand(String),
    /// The payload handed to a command lacks a field that the command reads.
    MalformedPayload { command: String, field: String },
    /// A command of this name was registered twice.
    DuplicateCommand(String),
    /// The shared state is unavailable: an earlier holder of its lock ended abnormally.
    LockPoisoned,
}

/// The message of a poisoned lock.
pub open spec fn poisoned_message() -> Seq<char> {
    "Mutex lock poisoned"@
}

impl Error {
    /// The human-readable message that crosses the boundary for this error.
    pub open spec fn message_spec(&self) -> Seq<char> {
        match self {
            Error::Io(m) => m@,
            Error::PluginError(m) => m@,
            Error::UnknownCommand(c) => "unknown command `"@ + c@ + "`"@,
            Error::MalformedPayload { command, field } =>
                "invalid payload for command `"@ + command@ + "`: missing field `"@ + field@ + "`"@,
            Error::DuplicateCommand(c) => "command `"@ + c@ + "` is registered twice"@,
            Error::LockPoisoned => poisoned_message(),
        }
    }

    /// The human-readable message that crosses the boundary for this error.
    pub fn message(&self) -> (r: String)
        ensures
            r@ == self.message_spec(),
    {
        match self {
            Error::Io(m) => m.clone(),
            Error::PluginError(m) => m.clone(),
            Error::UnknownCommand(c) => {
                let mut s = String::from_str("unknown command `");
                s.append(c.as_str());
                s.append("`");
                s
            },
            Error::MalformedPayload { command, field } => {
                let mut s = String::from_str("invalid payload for command `");
                s.append(command.as_str());
                s.append("`: missing field `");
                s.append(field.as_str());
                s.append("`");
                s
            },
            Error::DuplicateCommand(c) => {
                let mut s = String::from_str("command `");
                s.append(c.as_str());
                s.append("` is registered twice");
                s
            },
            Error::LockPoisoned => String::from_str("Mutex lock poisoned"),
        }
    }
}

} // verus!
