//! The cognitive query engine's front door.

use vstd::prelude::*;
use vstd::string::*;

verus! {

/// Why the query engine failed.
#[derive(Debug, Clone, Copy, PartialEq, Eq)]
pub enum CoreError {
    /// The engine's store is unavailable.
    Unavailable,
}

impl CoreError {
    /// What the error says.
    pub fn message(&self) -> (text: String)
        ensures
            text@ == "query engine unavailable"@,
    {
        String::from_str("query engine unavailable")
    }
}

/// The answer to a query: a result, together with the query and the
/// parameters that it answers.
#[derive(Debug)]
pub struct QueryReply {
    pub result: String,
    pub query: String,
    pub params: serde_json::Value,
}

/// Handle to the query engine. It holds no state of its own.
pub struct CognitiveCore {}

impl CognitiveCore {
    /// Brings up the engine. There is nothing to open, so this always succeeds.
    pub fn new() -> (res: Result<Self, CoreError>)
        ensures
            res.is_ok(),
    {
        Ok(CognitiveCore {  })
    }

    /// Runs a query. No query is evaluated yet: every query is answered with
    /// the fixed result `stub_response`, and the query and its parameters are
    /// handed back as they came.
    pub fn run(&mut self, query: &str, params: serde_json::Value) -> (res: Result<
        QueryReply,
        CoreError,
    >)
        ensures
            res matches Ok(reply) && reply.result@ == "stub_response"@ && reply.query@ == query@
                && reply.params == params,
    {
        Ok(QueryReply { result: String::from_str("stub_response"), query: query.to_owned(), params })
    }
}

} // verus!
