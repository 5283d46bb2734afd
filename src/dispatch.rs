//! The request dispatcher: validates a JSON-RPC `tools/call` envelope, maps
//! its operation selector onto the counter, and builds the reply.
use vstd::prelude::*;
use crate::counter::{step, Counter, CounterOp};

verus! {

/// The identifier a client gives a request; the reply carries it back unchanged.
#[derive(Clone, Debug, PartialEq, Eq)]
pub enum RequestId {
    /// An integer identifier.
    Number(i64),
    /// A string identifier.
    Text(String),
    /// Any other JSON value (`null`, a fraction, a larger number, ...), held
    /// as its JSON text.
    Other(String),
}

/// The `params` member of a tool call: the tool's name and, when the
/// arguments hold a string member `operation`, that string.
#[derive(Clone, Debug, PartialEq, Eq)]
pub struct ToolParams {
    pub name: String,
    pub operation: Option<String>,
}

/// A request envelope that has been read into its fields.
#[derive(Clone, Debug, PartialEq, Eq)]
pub struct Request {
    pub jsonrpc: String,
    pub id: RequestId,
    pub method: String,
    pub params: Option<ToolParams>,
}

/// The payload of a successful reply, `{"value": n}`.
#[derive(Clone, Copy, Debug, PartialEq, Eq, Structural)]
pub struct CounterValue {
    pub value: i32,
}

/// A successful reply: `{"jsonrpc": .., "id": .., "result": {"value": n}}`.
#[derive(Clone, Debug, PartialEq, Eq)]
pub struct Response {
    pub jsonrpc: String,
    pub id: RequestId,
    pub result: CounterValue,
}

/// Why a request was turned down.
#[derive(Clone, Debug, PartialEq, Eq)]
pub enum DispatchError {
    /// The body is not a request envelope.
    MalformedPayload,
    /// The protocol tag is not `"2.0"`; it holds the tag received.
    ProtocolMismatch(String),
    /// The method is not `tools/call`; it holds the method received.
    UnsupportedMethod(String),
    /// The tool is not `counter`; it holds the name received.
    UnknownTool(String),
    /// The operation selector is absent, not a string, or names no operation.
    UnrecognizedOperation(Option<String>),
    /// The shared counter could not be reached.
    InternalFailure,
}

/// The protocol tag that requests carry and replies echo.
pub open spec fn protocol_tag() -> Seq<char> {
    "2.0"@
}

/// The operation an operation selector names, if any.
pub open spec fn operation_named(name: Seq<char>) -> Option<CounterOp> {
    if name == "increment"@ {
        Some(CounterOp::Increment)
    } else if name == "decrement"@ {
        Some(CounterOp::Decrement)
    } else if name == "get_value"@ {
        Some(CounterOp::Read)
    } else {
        None
    }
}

/// The operation a request asks for, or the first check it fails: protocol
/// tag, then method, then parameters and tool name, then operation selector.
pub open spec fn validate(req: Request) -> Result<CounterOp, DispatchError> {
    if req.jsonrpc@ != protocol_tag() {
        Err(DispatchError::ProtocolMismatch(req.jsonrpc))
    } else if req.method@ != "tools/call"@ {
        Err(DispatchError::UnsupportedMethod(req.method))
    } else {
        match req.params {
            None => Err(DispatchError::MalformedPayload),
            Some(p) => if p.name@ != "counter"@ {
                Err(DispatchError::UnknownTool(p.name))
            } else {
                match p.operation {
                    None => Err(DispatchError::UnrecognizedOperation(None)),
                    Some(op) => match operation_named(op@) {
                        None => Err(DispatchError::UnrecognizedOperation(Some(op))),
                        Some(o) => Ok(o),
                    },
                }
            },
        }
    }
}

/// The status code that goes with an error: 500 for an internal failure,
/// 400 for every fault in the request.
pub open spec fn status_of(e: DispatchError) -> u16 {
    match e {
        DispatchError::InternalFailure => 500,
        _ => 400,
    }
}

/// The human-readable text that goes with an error.
pub open spec fn message_of(e: DispatchError) -> Seq<char> {
    match e {
        DispatchError::MalformedPayload => "Malformed request payload"@,
        DispatchError::ProtocolMismatch(tag) => "Unsupported protocol version: "@ + tag@,
        DispatchError::UnsupportedMethod(m) => "Invalid request type, expected tools/call: "@ + m@,
        DispatchError::UnknownTool(n) => "Invalid tool name: "@ + n@,
        DispatchError::UnrecognizedOperation(None) => "Missing operation name"@,
        DispatchError::UnrecognizedOperation(Some(op)) => "Invalid operation name: "@ + op@,
        DispatchError::InternalFailure => "Counter unavailable"@,
    }
}

fn text_is(s: &String, lit: &str) -> (r: bool)
    ensures
        r == (s@ == lit@),
{
    let t = lit.to_owned();
    *s == t
}

fn prefixed(lit: &str, s: &String) -> (r: String)
    ensures
        r@ == lit@ + s@,
{
    lit.to_owned().concat(s.as_str())
}

/// The operation a selector names, if any.
pub fn parse_operation(name: &String) -> (r: Option<CounterOp>)
    ensures
        r == operation_named(name@),
{
    if text_is(name, "increment") {
        Some(CounterOp::Increment)
    } else if text_is(name, "decrement") {
        Some(CounterOp::Decrement)
    } else if text_is(name, "get_value") {
        Some(CounterOp::Read)
    } else {
        None
    }
}

/// Checks a request and returns the operation it asks for, or the first
/// check it fails.
pub fn validate_request(req: &Request) -> (r: Result<CounterOp, DispatchError>)
    ensures
        r == validate(*req),
{
    if !text_is(&req.jsonrpc, "2.0") {
        return Err(DispatchError::ProtocolMismatch(req.jsonrpc.clone()));
    }
    if !text_is(&req.method, "tools/call") {
        return Err(DispatchError::UnsupportedMethod(req.method.clone()));
    }
    match &req.params {
        None => Err(DispatchError::MalformedPayload),
        Some(p) => {
            if !text_is(&p.name, "counter") {
                return Err(DispatchError::UnknownTool(p.name.clone()));
            }
            match &p.operation {
                None => Err(DispatchError::UnrecognizedOperation(None)),
                Some(op) => match parse_operation(op) {
                    None => Err(DispatchError::UnrecognizedOperation(Some(op.clone()))),
                    Some(o) => Ok(o),
                },
            }
        },
    }
}

/// Handles a command: a request that passes every check performs exactly
/// one operation on the counter and is answered with the value that follows
/// it, its protocol tag and identifier echoed; any other request leaves the
/// counter as it was and is answered with the first check it fails.
pub fn handle_command(counter: &mut Counter, request: Request) -> (r: Result<
    Response,
    DispatchError,
>)
    ensures
        match validate(request) {
            Ok(op) => {
                &&& final(counter)@ == step(old(counter)@, op)
                &&& r == Ok::<Response, DispatchError>(
                    (Response {
                        jsonrpc: request.jsonrpc,
                        id: request.id,
                        result: (CounterValue { value: final(counter)@ as i32 }),
                    }),
                )
            },
            Err(e) => {
                &&& final(counter)@ == old(counter)@
                &&& r == Err::<Response, DispatchError>(e)
            },
        },
{
    match validate_request(&request) {
        Err(e) => Err(e),
        Ok(op) => {
            let value = counter.apply(op);
            Ok(Response { jsonrpc: request.jsonrpc, id: request.id, result: CounterValue { value } })
        },
    }
}

/// Handles a status query: reads the counter and leaves it as it was.
pub fn handle_query(counter: &Counter) -> (r: CounterValue)
    ensures
        r.value as int == counter@,
{
    CounterValue { value: counter.read() }
}

impl DispatchError {
    /// The status code for this error.
    pub fn status(&self) -> (r: u16)
        ensures
            r == status_of(*self),
    {
        match self {
            DispatchError::InternalFailure => 500,
            _ => 400,
        }
    }

    /// The human-readable text for this error.
    pub fn message(&self) -> (r: String)
        ensures
            r@ == message_of(*self),
    {
        match self {
            DispatchError::MalformedPayload => "Malformed request payload".to_owned(),
            DispatchError::ProtocolMismatch(tag) => prefixed("Unsupported protocol version: ", tag),
            DispatchError::UnsupportedMethod(m) => prefixed(
                "Invalid request type, expected tools/call: ",
                m,
            ),
            DispatchError::UnknownTool(n) => prefixed("Invalid tool name: ", n),
            DispatchError::UnrecognizedOperation(None) => "Missing operation name".to_owned(),
            DispatchError::UnrecognizedOperation(Some(op)) => prefixed(
                "Invalid operation name: ",
                op,
            ),
            DispatchError::InternalFailure => "Counter unavailable".to_owned(),
        }
    }
}

} // verus!
