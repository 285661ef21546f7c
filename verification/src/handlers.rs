//! The request handlers: what the service answers, given the cell.
//!
//! Each handler makes one access to the cell and answers from what the
//! access gave. What an access gives depends on the state of the cell at
//! that instant, which no contract here can name: so `say`, `change_say` and
//! `is_up` promise what holds of every state, and `greet`, `acknowledge` and
//! `readiness` say exactly which answer each outcome of the access gets.

use crate::cell::health_outcome;
use crate::cell::read_outcome;
use crate::cell::read_view;
use crate::cell::write_outcome;
use crate::cell::CellState;
use crate::cell::HealthStatus;
use crate::cell::StateCell;
use crate::cell::Unavailable;
use crate::printer::greeting;
use crate::printer::name_view;
use crate::printer::Printer;
use vstd::prelude::*;

verus! {

/// The query of a greeting request: whom to greet, if anyone in particular.
#[derive(Debug)]
pub struct Who {
    pub name: Option<String>,
}

/// The body of a greeting.
#[derive(Debug, PartialEq)]
pub struct HelloWorldResponse {
    pub say: String,
}

/// The body of a request for a new prefix.
#[derive(Debug)]
pub struct ChangeSayRequest {
    pub say: String,
}

/// The body that acknowledges a new prefix: it holds nothing.
#[derive(Debug, PartialEq)]
pub struct ChangeSayResponse {}

/// The body of a passed health check: it holds nothing.
#[derive(Debug, PartialEq)]
pub struct IsUpResponse {}

/// The text sent as the body of a server error. It says nothing of the
/// cause.
pub const SERVER_ERROR_BODY: &'static str = "Error";

/// What a handler answers: a body, sent with status 200, or a server error
/// without detail, sent with status 500.
#[derive(Debug, PartialEq)]
pub enum Reply<T> {
    Success(T),
    ServerError,
}

impl View for HelloWorldResponse {
    type V = Seq<char>;

    open spec fn view(&self) -> Seq<char> {
        self.say@
    }
}

impl View for ChangeSayResponse {
    type V = ();

    open spec fn view(&self) -> () {
        ()
    }
}

impl View for IsUpResponse {
    type V = ();

    open spec fn view(&self) -> () {
        ()
    }
}

impl<T: View> View for Reply<T> {
    type V = Reply<T::V>;

    open spec fn view(&self) -> Reply<T::V> {
        match *self {
            Reply::Success(body) => Reply::Success(body@),
            Reply::ServerError => Reply::ServerError,
        }
    }
}

impl<T> Reply<T> {
    /// The status code a reply is sent with.
    pub open spec fn status_code(self) -> u16 {
        match self {
            Reply::Success(_) => 200,
            Reply::ServerError => 500,
        }
    }

    /// The status code this reply is sent with.
    pub fn status(&self) -> (code: u16)
        ensures
            code == self.status_code(),
    {
        match self {
            Reply::Success(_) => 200,
            Reply::ServerError => 500,
        }
    }
}

/// The answer to a greeting request, given what the read of the cell gave:
/// the greeting under the prefix read, or a server error.
pub open spec fn greet_outcome(
    read: Result<Seq<char>, Unavailable>,
    name: Option<Seq<char>>,
) -> Reply<Seq<char>> {
    match read {
        Ok(prefix) => Reply::Success(greeting(prefix, name)),
        Err(_) => Reply::ServerError,
    }
}

/// The answer to a request for a new prefix, given what the write gave.
pub open spec fn acknowledge_outcome(write: Result<(), Unavailable>) -> Reply<()> {
    match write {
        Ok(_) => Reply::Success(()),
        Err(_) => Reply::ServerError,
    }
}

/// The answer to a health check, given the cell's health.
pub open spec fn readiness_outcome(health: HealthStatus) -> Reply<()> {
    match health {
        HealthStatus::Healthy => Reply::Success(()),
        HealthStatus::Unavailable => Reply::ServerError,
    }
}

/// Answers a greeting request from what the read of the cell gave.
pub fn greet(read: Result<String, Unavailable>, item: Who) -> (reply: Reply<HelloWorldResponse>)
    ensures
        reply@ == greet_outcome(read_view(read), name_view(item.name)),
{
    match read {
        Ok(prefix) => {
            let say = Printer::new(prefix).format(item.name);
            Reply::Success(HelloWorldResponse { say })
        },
        Err(_) => Reply::ServerError,
    }
}

/// Answers a request for a new prefix from what the write to the cell gave.
pub fn acknowledge(write: Result<(), Unavailable>) -> (reply: Reply<ChangeSayResponse>)
    ensures
        reply@ == acknowledge_outcome(write),
{
    match write {
        Ok(_) => Reply::Success(ChangeSayResponse {  }),
        Err(_) => Reply::ServerError,
    }
}

/// Answers a health check from the cell's health.
pub fn readiness(health: HealthStatus) -> (reply: Reply<IsUpResponse>)
    ensures
        reply@ == readiness_outcome(health),
{
    match health {
        HealthStatus::Healthy => Reply::Success(IsUpResponse {  }),
        HealthStatus::Unavailable => Reply::ServerError,
    }
}

/// Answers a greeting request: reads the cell once and greets `item.name`
/// under the prefix read, or answers with a server error where the cell
/// cannot be used. The answer is the one that some state of the cell gives:
/// the cell decides which.
pub fn say(cell: &StateCell, item: Who) -> (reply: Reply<HelloWorldResponse>)
    ensures
        exists|state: CellState|
            reply@ == greet_outcome(#[trigger] read_outcome(state), name_view(item.name)),
{
    let read = cell.read();
    proof {
        let state = match read_view(read) {
            Ok(prefix) => CellState::Healthy(prefix),
            Err(_) => CellState::Unavailable,
        };
        assert(read_view(read) == read_outcome(state));
    }
    greet(read, item)
}

/// Answers a request for a new prefix: writes `item.say` to the cell once,
/// whatever it holds, and acknowledges it, or answers with a server error
/// where the cell cannot be used. [`acknowledge`] says which answer each
/// outcome of the write gets.
pub fn change_say(cell: &StateCell, item: ChangeSayRequest) -> (reply: Reply<ChangeSayResponse>)
    ensures
        exists|state: CellState| reply@ == acknowledge_outcome(#[trigger] write_outcome(state)),
{
    acknowledge(cell.write(item.say))
}

/// Answers a health check: asks the cell for its health once. [`readiness`]
/// says which answer each health gets.
pub fn is_up(cell: &StateCell) -> (reply: Reply<IsUpResponse>)
    ensures
        exists|state: CellState| reply@ == readiness_outcome(#[trigger] health_outcome(state)),
{
    readiness(cell.health())
}

} // verus!
