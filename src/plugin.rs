use vstd::prelude::*;

use crate::commands::{
    missing_field, registered_kind, request_of, Command, CommandKind, Payload, Registry, Request,
    Response,
};
use crate::error::Error;
use crate::models::{greeting, ping, PingRequest, PingResponse};
use crate::state::{after_write, initial_cell, CellState, SharedData};

verus! {

/// What handling a request hands back, as a mathematical value.
pub ghost enum Reply {
    Message(Seq<char>),
    Done,
    Value(Seq<char>),
    LockPoisoned,
}

/// What handling `req` on a cell in state `s` hands back.
pub open spec fn reply(req: Request, s: CellState) -> Reply {
    match req {
        Request::Ping(name) => Reply::Message(greeting(name)),
        Request::SetData(_) => if s.poisoned {
            Reply::LockPoisoned
        } else {
            Reply::Done
        },
        Request::GetData => if s.poisoned {
            Reply::LockPoisoned
        } else {
            Reply::Value(s.value)
        },
    }
}

/// The state of the cell after handling `req` on a cell in state `s`.
pub open spec fn effect(req: Request, s: CellState) -> CellState {
    match req {
        Request::SetData(v) => after_write(s, v),
        _ => s,
    }
}

/// Whether `r` is the result that stands for `rep`.
pub open spec fn gives(r: Result<Response, Error>, rep: Reply) -> bool {
    match rep {
        Reply::Message(m) => r matches Ok(Response::Pong(p)) && p.message@ == m,
        Reply::Done => r matches Ok(Response::Done),
        Reply::Value(v) => r matches Ok(Response::Data(x)) && x@ == v,
        Reply::LockPoisoned => r matches Err(Error::LockPoisoned),
    }
}

/// The plugin: its shared cell and the commands it answers.
pub struct Datapass {
    shared: SharedData,
    registry: Registry,
}

impl Datapass {
    /// The state of the shared cell.
    pub closed spec fn cell(&self) -> CellState {
        self.shared@
    }

    /// The registered commands.
    pub closed spec fn commands(&self) -> Seq<CommandKind> {
        self.registry@
    }

    /// No command is registered twice.
    pub closed spec fn wf(&self) -> bool {
        self.registry.wf()
    }

    /// The plugin as it starts: an empty cell and the three commands.
    pub fn new() -> (r: Datapass)
        ensures
            r.wf(),
            r.cell() == initial_cell(),
            r.commands() == seq![CommandKind::Ping, CommandKind::SetData, CommandKind::GetData],
    {
        Datapass { shared: SharedData::new(), registry: Registry::standard() }
    }

    /// Answers a ping; the shared cell is not touched.
    pub fn ping(&self, payload: PingRequest) -> (r: Result<PingResponse, Error>)
        ensures
            r matches Ok(p) && p.message@ == greeting(payload.name@),
    {
        Ok(ping(payload))
    }

    /// Replaces the shared string with `data`.
    pub fn set_data(&mut self, data: String) -> (r: Result<(), Error>)
        ensures
            final(self).wf() == old(self).wf(),
            final(self).commands() == old(self).commands(),
            final(self).cell() == effect(Request::SetData(data@), old(self).cell()),
            old(self).cell().poisoned ==> r matches Err(Error::LockPoisoned),
            !old(self).cell().poisoned ==> r is Ok,
    {
        self.shared.write(data)
    }

    /// A copy of the shared string.
    pub fn get_data(&self) -> (r: Result<String, Error>)
        ensures
            reply(Request::GetData, self.cell()) matches Reply::Value(v) ==> (r matches Ok(x) && x@ == v),
            self.cell().poisoned ==> r matches Err(Error::LockPoisoned),
    {
        self.shared.read()
    }

    /// Records that a holder of the shared cell's lock ended abnormally; from
    /// then on reads and writes are refused.
    pub fn poison(&mut self)
        ensures
            final(self).wf() == old(self).wf(),
            final(self).commands() == old(self).commands(),
            final(self).cell() == (CellState { poisoned: true, ..old(self).cell() }),
    {
        self.shared.poison();
    }

    /// Handles a checked request.
    pub fn run(&mut self, cmd: Command) -> (r: Result<Response, Error>)
        ensures
            final(self).wf() == old(self).wf(),
            final(self).commands() == old(self).commands(),
            final(self).cell() == effect(cmd@, old(self).cell()),
            gives(r, reply(cmd@, old(self).cell())),
    {
        match cmd {
            Command::Ping(req) => {
                let p = ping(req);
                Ok(Response::Pong(p))
            },
            Command::SetData(v) => {
                self.shared.write(v)?;
                Ok(Response::Done)
            },
            Command::GetData => {
                let v = self.shared.read()?;
                Ok(Response::Data(v))
            },
        }
    }

    /// Routes the command called `name` with `payload` to its handler.
    ///
    /// An unknown name and a payload that lacks the command's field are
    /// refused before any handler runs, and leave the shared cell as it was.
    pub fn dispatch(&mut self, name: &str, payload: &Payload) -> (r: Result<Response, Error>)
        ensures
            final(self).wf() == old(self).wf(),
            final(self).commands() == old(self).commands(),
            registered_kind(old(self).commands(), name@) is None ==> final(self).cell() == old(self).cell(),
            registered_kind(old(self).commands(), name@) is None ==> (r matches Err(Error::UnknownCommand(c)) && c@ == name@),
            registered_kind(old(self).commands(), name@) matches Some(k) ==> match missing_field(k, payload@) {
                Some(f) => final(self).cell() == old(self).cell() && (r matches Err(Error::MalformedPayload { command, field }) && command@ == name@ && field@ == f),
                None => final(self).cell() == effect(request_of(k, payload@), old(self).cell()) && gives(r, reply(request_of(k, payload@), old(self).cell())),
            },
    {
        let cmd = self.registry.parse(name, payload)?;
        self.run(cmd)
    }
}

} // verus!
