use vstd::prelude::*;
use vstd::string::StringExecFns;

verus! {

/// The text that opens every greeting.
pub open spec fn greeting_prefix() -> Seq<char> {
    "Hello, "@
}

/// The text that closes every greeting.
pub open spec fn greeting_suffix() -> Seq<char> {
    "! You've been greeted from Rust!"@
}

/// The greeting for `name`: the name set verbatim into a fixed template.
pub open spec fn greeting(name: Seq<char>) -> Seq<char> {
    greeting_prefix() + name + greeting_suffix()
}

/// Builds the greeting for `name`.
pub fn greet(name: &str) -> (r: String)
    ensures
        r@ == greeting(name@),
{
    let mut s = String::from_str("Hello, ");
    s.append(name);
    s.append("! You've been greeted from Rust!");
    s
}

/// The request of a ping: the name to greet.
#[derive(Debug)]
pub struct PingRequest {
    pub name: String,
}

/// The answer to a ping: the greeting.
#[derive(Debug)]
pub struct PingResponse {
    pub message: String,
}

/// Answers a ping with the greeting for the requested name.
pub fn ping(payload: PingRequest) -> (r: PingResponse)
    ensures
        r.message@ == greeting(payload.name@),
{
    PingResponse { message: greet(payload.name.as_str()) }
}

} // verus!
