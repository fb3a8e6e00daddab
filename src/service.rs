//! The storage protocol and the service's part of each request: which
//! engine call a request makes, and which reply the engine's answer gives.
use crate::error::{ErrorCode, SuccessCode};
use crate::key_hash::{get_hashed_key, key_hash};
use crate::text::{is_text, Key, Value, MAX_VALUE_SIZE};
use vstd::prelude::*;

verus! {

/// A request to the storage service.
#[derive(Clone, Debug, PartialEq, Eq)]
pub enum Request {
    AppendKey(Key, Value),
    Get(Key),
    InvalidateKey(Key),
    GarbageCollect,
}

/// A successful reply of the storage service.
#[derive(Clone, Debug, PartialEq, Eq)]
pub enum Response {
    KeyAppended(SuccessCode),
    Value(Value),
    KeyInvalidated(SuccessCode),
    GarbageCollected(usize),
}

/// The engine call that serves a request, keyed by hashed key.
#[derive(Debug, PartialEq, Eq)]
pub enum EngineCommand {
    /// Append the value's bytes under the hashed key.
    AppendKey { hash: u64, value: Vec<u8> },
    /// Copy out the bytes stored under the hashed key.
    GetKey { hash: u64 },
    /// Mark the entry under the hashed key invalid.
    InvalidateKey { hash: u64 },
    /// Reclaim the space of invalid entries.
    GarbageCollect,
}

/// What the engine answered to a command.
#[derive(Debug, PartialEq, Eq)]
pub enum EngineOutcome {
    Appended(Result<SuccessCode, ErrorCode>),
    /// On success, the bytes that the engine copied out.
    Fetched(Result<Vec<u8>, ErrorCode>),
    Invalidated(Result<SuccessCode, ErrorCode>),
    Collected(Result<usize, ErrorCode>),
}

pub ghost enum CommandView {
    AppendKey(u64, Seq<u8>),
    GetKey(u64),
    InvalidateKey(u64),
    GarbageCollect,
}

pub ghost enum OutcomeView {
    Appended(Result<SuccessCode, ErrorCode>),
    Fetched(Result<Seq<u8>, ErrorCode>),
    Invalidated(Result<SuccessCode, ErrorCode>),
    Collected(Result<usize, ErrorCode>),
}

pub ghost enum ResponseView {
    KeyAppended(SuccessCode),
    Value(Seq<u8>),
    KeyInvalidated(SuccessCode),
    GarbageCollected(usize),
}

impl View for EngineCommand {
    type V = CommandView;

    open spec fn view(&self) -> CommandView {
        match self {
            EngineCommand::AppendKey { hash, value } => CommandView::AppendKey(*hash, value@),
            EngineCommand::GetKey { hash } => CommandView::GetKey(*hash),
            EngineCommand::InvalidateKey { hash } => CommandView::InvalidateKey(*hash),
            EngineCommand::GarbageCollect => CommandView::GarbageCollect,
        }
    }
}

impl View for EngineOutcome {
    type V = OutcomeView;

    open spec fn view(&self) -> OutcomeView {
        match self {
            EngineOutcome::Appended(r) => OutcomeView::Appended(*r),
            EngineOutcome::Fetched(Ok(bytes)) => OutcomeView::Fetched(Ok(bytes@)),
            EngineOutcome::Fetched(Err(e)) => OutcomeView::Fetched(Err(*e)),
            EngineOutcome::Invalidated(r) => OutcomeView::Invalidated(*r),
            EngineOutcome::Collected(r) => OutcomeView::Collected(*r),
        }
    }
}

impl View for Response {
    type V = ResponseView;

    open spec fn view(&self) -> ResponseView {
        match self {
            Response::KeyAppended(c) => ResponseView::KeyAppended(*c),
            Response::Value(v) => ResponseView::Value(v@),
            Response::KeyInvalidated(c) => ResponseView::KeyInvalidated(*c),
            Response::GarbageCollected(n) => ResponseView::GarbageCollected(*n),
        }
    }
}

/// A reply, seen through the view of its response.
pub open spec fn reply_view(r: Result<Response, ErrorCode>) -> Result<ResponseView, ErrorCode> {
    match r {
        Ok(resp) => Ok(resp@),
        Err(e) => Err(e),
    }
}

/// The engine call for a request: keys are hashed, a value goes as its bytes.
pub open spec fn command_for(req: Request) -> CommandView {
    match req {
        Request::AppendKey(k, v) => CommandView::AppendKey(key_hash(k@), v@),
        Request::Get(k) => CommandView::GetKey(key_hash(k@)),
        Request::InvalidateKey(k) => CommandView::InvalidateKey(key_hash(k@)),
        Request::GarbageCollect => CommandView::GarbageCollect,
    }
}

/// The reply for an engine answer: engine errors pass unchanged, and bytes
/// that are not a value (UTF-8, at most `MAX_VALUE_SIZE` bytes) are `CorruptData`.
pub open spec fn reply_for(outcome: OutcomeView) -> Result<ResponseView, ErrorCode> {
    match outcome {
        OutcomeView::Appended(Ok(c)) => Ok(ResponseView::KeyAppended(c)),
        OutcomeView::Fetched(Ok(bytes)) => if is_text(bytes, MAX_VALUE_SIZE as nat) {
            Ok(ResponseView::Value(bytes))
        } else {
            Err(ErrorCode::CorruptData)
        },
        OutcomeView::Invalidated(Ok(c)) => Ok(ResponseView::KeyInvalidated(c)),
        OutcomeView::Collected(Ok(n)) => Ok(ResponseView::GarbageCollected(n)),
        OutcomeView::Appended(Err(e)) => Err(e),
        OutcomeView::Fetched(Err(e)) => Err(e),
        OutcomeView::Invalidated(Err(e)) => Err(e),
        OutcomeView::Collected(Err(e)) => Err(e),
    }
}

/// The engine key of a protocol key.
pub fn hash_key(key: &Key) -> (r: u64)
    ensures
        r == key_hash(key@),
{
    let bytes = key.as_bytes();
    get_hashed_key(bytes)
}

/// The engine call that serves `req`.
pub fn engine_command(req: Request) -> (cmd: EngineCommand)
    ensures
        cmd@ == command_for(req),
{
    match req {
        Request::AppendKey(key, value) => {
            let hash = hash_key(&key);
            EngineCommand::AppendKey { hash, value: value.into_bytes() }
        },
        Request::Get(key) => EngineCommand::GetKey { hash: hash_key(&key) },
        Request::InvalidateKey(key) => EngineCommand::InvalidateKey { hash: hash_key(&key) },
        Request::GarbageCollect => EngineCommand::GarbageCollect,
    }
}

/// The reply to send for the engine's answer.
pub fn reply(outcome: EngineOutcome) -> (r: Result<Response, ErrorCode>)
    ensures
        reply_view(r) == reply_for(outcome@),
{
    match outcome {
        EngineOutcome::Appended(Ok(c)) => Ok(Response::KeyAppended(c)),
        EngineOutcome::Appended(Err(e)) => Err(e),
        EngineOutcome::Fetched(Ok(bytes)) => match Value::from_bytes(bytes.as_slice()) {
            Ok(value) => Ok(Response::Value(value)),
            Err(_) => Err(ErrorCode::CorruptData),
        },
        EngineOutcome::Fetched(Err(e)) => Err(e),
        EngineOutcome::Invalidated(Ok(c)) => Ok(Response::KeyInvalidated(c)),
        EngineOutcome::Invalidated(Err(e)) => Err(e),
        EngineOutcome::Collected(Ok(n)) => Ok(Response::GarbageCollected(n)),
        EngineOutcome::Collected(Err(e)) => Err(e),
    }
}

/// A value appended under a key and handed back unchanged by the engine for
/// a later `Get` of that key is replied as that same value: both requests
/// address the same engine key, the append hands over the value's bytes, and
/// the reply carries them back.
pub proof fn append_then_get_replies_value(k: Key, v: Value)
    requires
        is_text(v@, MAX_VALUE_SIZE as nat),
    ensures
        command_for(Request::AppendKey(k, v)) == CommandView::AppendKey(key_hash(k@), v@),
        command_for(Request::Get(k)) == CommandView::GetKey(key_hash(k@)),
        reply_for(OutcomeView::Fetched(Ok(v@))) == Ok::<ResponseView, ErrorCode>(
            ResponseView::Value(v@),
        ),
{
}

/// Appending, reading and invalidating the same key all address one engine
/// key, whatever the values; distinct keys are told apart only by their hashes.
pub proof fn one_key_one_engine_key(k: Key, v1: Value, v2: Value)
    ensures
        command_for(Request::AppendKey(k, v1)) is AppendKey,
        command_for(Request::AppendKey(k, v2)) is AppendKey,
        command_for(Request::AppendKey(k, v1))->AppendKey_0 == command_for(
            Request::AppendKey(k, v2),
        )->AppendKey_0,
        command_for(Request::AppendKey(k, v1))->AppendKey_0 == command_for(
            Request::Get(k),
        )->GetKey_0,
        command_for(Request::Get(k))->GetKey_0 == command_for(
            Request::InvalidateKey(k),
        )->InvalidateKey_0,
{
}

/// Every error that the engine answers, to any request, is replied
/// unchanged: a second append of a key gets the engine's "already exists",
/// a read of an invalidated key its "not found", a full region its "region full".
pub proof fn engine_errors_pass_through(e: ErrorCode)
    ensures
        reply_for(OutcomeView::Appended(Err(e))) == Err::<ResponseView, ErrorCode>(e),
        reply_for(OutcomeView::Fetched(Err(e))) == Err::<ResponseView, ErrorCode>(e),
        reply_for(OutcomeView::Invalidated(Err(e))) == Err::<ResponseView, ErrorCode>(e),
        reply_for(OutcomeView::Collected(Err(e))) == Err::<ResponseView, ErrorCode>(e),
{
}

} // verus!
