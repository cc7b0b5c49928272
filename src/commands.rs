use vstd::prelude::*;
use vstd::string::{StrSliceExecFns, StringExecFns};

use crate::error::Error;
use crate::models::{PingRequest, PingResponse};

verus! {

/// Whether `a` and `b` hold the same characters.
pub fn same_text(a: &str, b: &str) -> (r: bool)
    ensures
        r == (a@ == b@),
{
    let n = a.unicode_len();
    if n != b.unicode_len() {
        return false;
    }
    let mut i: usize = 0;
    while i < n
        invariant
            n == a@.len(),
            n == b@.len(),
            0 <= i <= n,
            a@.subrange(0, i as int) == b@.subrange(0, i as int),
        decreases n - i,
    {
        if a.get_char(i) != b.get_char(i) {
            return false;
        }
        assert(a@.subrange(0, i + 1) =~= a@.subrange(0, i as int).push(a@[i as int]));
        assert(b@.subrange(0, i + 1) =~= b@.subrange(0, i as int).push(b@[i as int]));
        i = i + 1;
    }
    assert(a@ =~= a@.subrange(0, n as int));
    assert(b@ =~= b@.subrange(0, n as int));
    true
}

/// The fields of a request, as (name, value) pairs.
pub struct Payload {
    pub fields: Vec<(String, String)>,
}

impl View for Payload {
    type V = Seq<(Seq<char>, Seq<char>)>;

    open spec fn view(&self) -> Seq<(Seq<char>, Seq<char>)> {
        self.fields@.map_values(|f: (String, String)| (f.0@, f.1@))
    }
}

/// The value of the first field named `key`, if any.
pub open spec fn field_value(fields: Seq<(Seq<char>, Seq<char>)>, key: Seq<char>) -> Option<Seq<char>>
    decreases fields.len(),
{
    if fields.len() == 0 {
        None
    } else if fields[0].0 == key {
        Some(fields[0].1)
    } else {
        field_value(fields.drop_first(), key)
    }
}

impl Payload {
    /// A payload without fields.
    pub fn new() -> (r: Payload)
        ensures
            r@ == Seq::<(Seq<char>, Seq<char>)>::empty(),
    {
        Payload { fields: Vec::new() }
    }

    /// Appends the field `key` with `value`.
    pub fn with(self, key: String, value: String) -> (r: Payload)
        ensures
            r@ == self@.push((key@, value@)),
    {
        let mut fields = self.fields;
        fields.push((key, value));
        let r = Payload { fields };
        assert(r@ =~= self@.push((key@, value@)));
        r
    }

    /// A copy of the value of the first field named `key`.
    pub fn get(&self, key: &str) -> (r: Option<String>)
        ensures
            r matches Some(v) ==> field_value(self@, key@) == Some(v@),
            r is None ==> field_value(self@, key@) is None,
    {
        let n = self.fields.len();
        let mut i: usize = 0;
        assert(self@.subrange(0, n as int) =~= self@);
        while i < n
            invariant
                n == self.fields@.len(),
                n == self@.len(),
                0 <= i <= n,
                field_value(self@, key@) == field_value(self@.subrange(i as int, n as int), key@),
            decreases n - i,
        {
            let f = &self.fields[i];
            assert(self@.subrange(i as int, n as int)[0] == (f.0@, f.1@));
            if same_text(f.0.as_str(), key) {
                return Some(f.1.clone());
            }
            assert(self@.subrange(i as int, n as int).drop_first() =~= self@.subrange(i + 1, n as int));
            i = i + 1;
        }
        assert(self@.subrange(n as int, n as int) =~= Seq::<(Seq<char>, Seq<char>)>::empty());
        None
    }
}

/// The commands that the plugin answers.
#[derive(Debug, Clone, Copy, PartialEq, Eq, Structural)]
pub enum CommandKind {
    Ping,
    SetData,
    GetData,
}

impl CommandKind {
    /// The name under which the command is called.
    pub open spec fn name_spec(self) -> Seq<char> {
        match self {
            CommandKind::Ping => "ping"@,
            CommandKind::SetData => "set_data"@,
            CommandKind::GetData => "get_data"@,
        }
    }

    /// The payload field that the command reads, if it reads one.
    pub open spec fn field_spec(self) -> Option<Seq<char>> {
        match self {
            CommandKind::Ping => Some("name"@),
            CommandKind::SetData => Some("value"@),
            CommandKind::GetData => None,
        }
    }

    /// The name under which the command is called.
    pub fn name(self) -> (r: &'static str)
        ensures
            r@ == self.name_spec(),
    {
        match self {
            CommandKind::Ping => "ping",
            CommandKind::SetData => "set_data",
            CommandKind::GetData => "get_data",
        }
    }

    /// The command called `name`, if there is one.
    pub fn from_name(name: &str) -> (r: Option<CommandKind>)
        ensures
            r == kind_named(name@),
    {
        if same_text(name, "ping") {
            Some(CommandKind::Ping)
        } else if same_text(name, "set_data") {
            Some(CommandKind::SetData)
        } else if same_text(name, "get_data") {
            Some(CommandKind::GetData)
        } else {
            None
        }
    }
}

/// The command called `name`, if there is one.
pub open spec fn kind_named(name: Seq<char>) -> Option<CommandKind> {
    if name == "ping"@ {
        Some(CommandKind::Ping)
    } else if name == "set_data"@ {
        Some(CommandKind::SetData)
    } else if name == "get_data"@ {
        Some(CommandKind::GetData)
    } else {
        None
    }
}

/// The command called `name`, if it is among `registered`.
pub open spec fn registered_kind(registered: Seq<CommandKind>, name: Seq<char>) -> Option<CommandKind> {
    match kind_named(name) {
        Some(k) => if registered.contains(k) {
            Some(k)
        } else {
            None
        },
        None => None,
    }
}

/// The field that command `k` reads and that `fields` lacks, if any.
pub open spec fn missing_field(k: CommandKind, fields: Seq<(Seq<char>, Seq<char>)>) -> Option<Seq<char>> {
    match k.field_spec() {
        Some(f) => if field_value(fields, f) is None {
            Some(f)
        } else {
            None
        },
        None => None,
    }
}

/// A request as a mathematical value.
pub ghost enum Request {
    Ping(Seq<char>),
    SetData(Seq<char>),
    GetData,
}

/// The request that command `k` makes of `fields`, where none of its fields is missing.
pub open spec fn request_of(k: CommandKind, fields: Seq<(Seq<char>, Seq<char>)>) -> Request {
    match k {
        CommandKind::Ping => Request::Ping(field_value(fields, "name"@)->Some_0),
        CommandKind::SetData => Request::SetData(field_value(fields, "value"@)->Some_0),
        CommandKind::GetData => Request::GetData,
    }
}

/// A request whose payload has been checked against its command.
#[derive(Debug)]
pub enum Command {
    Ping(PingRequest),
    SetData(String),
    GetData,
}

impl View for Command {
    type V = Request;

    open spec fn view(&self) -> Request {
        match self {
            Command::Ping(req) => Request::Ping(req.name@),
            Command::SetData(v) => Request::SetData(v@),
            Command::GetData => Request::GetData,
        }
    }
}

/// What a handled command hands back.
#[derive(Debug)]
pub enum Response {
    Pong(PingResponse),
    Done,
    Data(String),
}

impl Response {
    /// The payload fields of the response.
    pub open spec fn fields_spec(&self) -> Seq<(Seq<char>, Seq<char>)> {
        match self {
            Response::Pong(p) => seq![("message"@, p.message@)],
            Response::Done => Seq::empty(),
            Response::Data(v) => seq![("value"@, v@)],
        }
    }

    /// The response as payload fields: `message` for a ping, `value` for a read,
    /// none for a write.
    pub fn into_payload(self) -> (r: Payload)
        ensures
            r@ == self.fields_spec(),
    {
        let ghost fields = self.fields_spec();
        let r = match self {
            Response::Pong(p) => Payload::new().with(String::from_str("message"), p.message),
            Response::Done => Payload::new(),
            Response::Data(v) => Payload::new().with(String::from_str("value"), v),
        };
        assert(r@ =~= fields);
        r
    }
}

/// The set of commands that can be called, each registered once.
pub struct Registry {
    entries: Vec<CommandKind>,
}

impl View for Registry {
    type V = Seq<CommandKind>;

    closed spec fn view(&self) -> Seq<CommandKind> {
        self.entries@
    }
}

impl Registry {
    /// No command is registered twice.
    pub open spec fn wf(&self) -> bool {
        forall|i: int, j: int| 0 <= i < j < self@.len() ==> self@[i] != self@[j]
    }

    /// A registry without commands.
    pub fn new() -> (r: Registry)
        ensures
            r@ == Seq::<CommandKind>::empty(),
            r.wf(),
    {
        Registry { entries: Vec::new() }
    }

    /// The registry of the plugin: `ping`, `set_data` and `get_data`.
    pub fn standard() -> (r: Registry)
        ensures
            r@ == seq![CommandKind::Ping, CommandKind::SetData, CommandKind::GetData],
            r.wf(),
    {
        let mut r = Registry::new();
        let _ = r.register(CommandKind::Ping);
        assert(r@[0] == CommandKind::Ping);
        let _ = r.register(CommandKind::SetData);
        assert(r@[1] == CommandKind::SetData);
        let _ = r.register(CommandKind::GetData);
        assert(r@ =~= seq![CommandKind::Ping, CommandKind::SetData, CommandKind::GetData]);
        r
    }

    /// Whether `kind` is registered.
    pub fn contains(&self, kind: CommandKind) -> (r: bool)
        ensures
            r == self@.contains(kind),
    {
        let n = self.entries.len();
        let mut i: usize = 0;
        while i < n
            invariant
                n == self@.len(),
                0 <= i <= n,
                forall|j: int| 0 <= j < i ==> self@[j] != kind,
            decreases n - i,
        {
            if self.entries[i] == kind {
                assert(self@[i as int] == kind);
                return true;
            }
            i = i + 1;
        }
        false
    }

    /// Adds `kind`; a command that is already registered is refused.
    pub fn register(&mut self, kind: CommandKind) -> (r: Result<(), Error>)
        requires
            old(self).wf(),
        ensures
            final(self).wf(),
            old(self)@.contains(kind) ==> final(self)@ == old(self)@,
            old(self)@.contains(kind) ==> (r matches Err(Error::DuplicateCommand(c)) && c@ == kind.name_spec()),
            !old(self)@.contains(kind) ==> final(self)@ == old(self)@.push(kind),
            !old(self)@.contains(kind) ==> r is Ok,
    {
        if self.contains(kind) {
            Err(Error::DuplicateCommand(String::from_str(kind.name())))
        } else {
            self.entries.push(kind);
            Ok(())
        }
    }

    /// The registered command called `name`.
    pub fn resolve(&self, name: &str) -> (r: Result<CommandKind, Error>)
        ensures
            registered_kind(self@, name@) matches Some(k) ==> r == Ok::<CommandKind, Error>(k),
            registered_kind(self@, name@) is None ==> (r matches Err(Error::UnknownCommand(c)) && c@ == name@),
    {
        match CommandKind::from_name(name) {
            Some(k) => if self.contains(k) {
                Ok(k)
            } else {
                Err(Error::UnknownCommand(String::from_str(name)))
            },
            None => Err(Error::UnknownCommand(String::from_str(name))),
        }
    }

    /// Checks `payload` against the registered command called `name`.
    ///
    /// An unknown name is refused, then a payload that lacks the field the
    /// command reads.
    pub fn parse(&self, name: &str, payload: &Payload) -> (r: Result<Command, Error>)
        ensures
            registered_kind(self@, name@) is None ==> (r matches Err(Error::UnknownCommand(c)) && c@ == name@),
            registered_kind(self@, name@) matches Some(k) ==> match missing_field(k, payload@) {
                Some(f) => r matches Err(Error::MalformedPayload { command, field }) && command@ == name@ && field@ == f,
                None => r matches Ok(cmd) && cmd@ == request_of(k, payload@),
            },
    {
        let k = self.resolve(name)?;
        match k {
            CommandKind::Ping => match payload.get("name") {
                Some(n) => Ok(Command::Ping(PingRequest { name: n })),
                None => Err(Error::MalformedPayload { command: String::from_str(name), field: String::from_str("name") }),
            },
            CommandKind::SetData => match payload.get("value") {
                Some(v) => Ok(Command::SetData(v)),
                None => Err(Error::MalformedPayload { command: String::from_str(name), field: String::from_str("value") }),
            },
            CommandKind::GetData => Ok(Command::GetData),
        }
    }
}

} // verus!
