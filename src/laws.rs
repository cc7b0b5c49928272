use vstd::prelude::*;

use crate::commands::Request;
use crate::models::{greeting, greeting_prefix, greeting_suffix};
use crate::plugin::{effect, reply, Reply};
use crate::state::{initial_cell, CellState};

verus! {

/// The state after the writes `vs`, handled one at a time in this order, on a
/// cell in state `s`.
///
/// The cell's lock lets one writer in at a time, so concurrent writes are
/// handled in some such order.
pub open spec fn after_writes(s: CellState, vs: Seq<Seq<char>>) -> CellState
    decreases vs.len(),
{
    if vs.len() == 0 {
        s
    } else {
        effect(Request::SetData(vs.last()), after_writes(s, vs.drop_last()))
    }
}

/// A ping answers with the name set verbatim between the fixed opening and
/// closing of the greeting, and leaves the shared cell as it was.
pub proof fn lemma_ping_embeds_name(name: Seq<char>, s: CellState)
    ensures
        reply(Request::Ping(name), s) == Reply::Message(greeting(name)),
        greeting(name).len() == greeting_prefix().len() + name.len() + greeting_suffix().len(),
        greeting(name).subrange(0, greeting_prefix().len() as int) == greeting_prefix(),
        greeting(name).subrange(greeting_prefix().len() as int, (greeting_prefix().len() + name.len()) as int) == name,
        greeting(name).subrange((greeting_prefix().len() + name.len()) as int, greeting(name).len() as int) == greeting_suffix(),
        effect(Request::Ping(name), s) == s,
{
    let g = greeting(name);
    let p = greeting_prefix().len() as int;
    let n = name.len() as int;
    assert(g.subrange(0, p) =~= greeting_prefix());
    assert(g.subrange(p, p + n) =~= name);
    assert(g.subrange(p + n, g.len() as int) =~= greeting_suffix());
}

/// A read after a write of `v`, with no write between them, gives `v`.
pub proof fn lemma_get_after_set(s: CellState, v: Seq<char>)
    requires
        !s.poisoned,
    ensures
        reply(Request::GetData, effect(Request::SetData(v), s)) == Reply::Value(v),
{
}

/// Two reads in a row give the same result: a read leaves the cell as it was.
pub proof fn lemma_get_twice(s: CellState)
    ensures
        effect(Request::GetData, s) == s,
        reply(Request::GetData, effect(Request::GetData, s)) == reply(Request::GetData, s),
{
}

/// Before any write, a read gives the empty string.
pub proof fn lemma_initial_get_is_empty()
    ensures
        reply(Request::GetData, initial_cell()) == Reply::Value(Seq::empty()),
{
}

/// Writes leave a usable cell usable.
proof fn lemma_writes_keep_usable(s: CellState, vs: Seq<Seq<char>>)
    requires
        !s.poisoned,
    ensures
        !after_writes(s, vs).poisoned,
    decreases vs.len(),
{
    if vs.len() > 0 {
        lemma_writes_keep_usable(s, vs.drop_last());
    }
}

/// After writes of the values `vs`, one at a time, a read gives exactly one of
/// them, whole.
pub proof fn lemma_writes_leave_one_value(s: CellState, vs: Seq<Seq<char>>)
    requires
        !s.poisoned,
        vs.len() > 0,
    ensures
        exists|i: int| 0 <= i < vs.len() && reply(Request::GetData, after_writes(s, vs)) == Reply::Value(#[trigger] vs[i]),
{
    lemma_writes_keep_usable(s, vs.drop_last());
    assert(reply(Request::GetData, after_writes(s, vs)) == Reply::Value(vs[vs.len() - 1]));
}

} // verus!
