use vstd::prelude::*;

use crate::connection::{loopback, Connection};
use crate::helpers::{be_u32, bytes_to_u16, bytes_to_u32, data_to_ipv4, head_u16};
use crate::output::{
    handle_local_connection, handle_remote_connection, is_em_call, is_sm_call, rewrite_head,
    set_head, Outbound, Outcome,
};
use crate::periodic::{quantized, PeriodicTask};
use crate::protocol::{
    entrypoint_of, CommandCode, EntrypointID, ResultCode, ResultMessage, HANDLE_HANDLER_ID,
    HANDLE_INPUT_ID,
};
use crate::registry::{lookup, Registry};

verus! {

/// What a handler does next: answer (or not) and close, or have the caller
/// make an outbound call, with no lock held, and hand back its outcome.
#[derive(Clone, Debug, PartialEq, Eq)]
pub enum Step {
    Done(Option<ResultMessage>),
    Call(Outbound),
}

/// A reply that carries a code and no payload.
pub open spec fn is_reply(r: Option<ResultMessage>, code: ResultCode) -> bool {
    r matches Some(m) && m.code == code && m.payload is None
}

/// Whether `s` ends the handler with the bare reply `code`.
pub open spec fn is_done_with(s: Step, code: ResultCode) -> bool {
    s matches Step::Done(r) && is_reply(r, code)
}

/// Whether `s` ends the handler with no reply at all.
pub open spec fn is_silent(s: Step) -> bool {
    s matches Step::Done(r) && r is None
}

/// A bare reply with `code`.
pub fn reply(code: ResultCode) -> (r: Option<ResultMessage>)
    ensures
        is_reply(r, code),
{
    Some(ResultMessage::new(code, None))
}

/// The reply to a command byte that names no command.
pub fn handle_unknown_command() -> (r: Option<ResultMessage>)
    ensures
        is_reply(r, ResultCode::IllegalCommand),
{
    reply(ResultCode::IllegalCommand)
}

/// Registers a connection from its ten-byte payload: connection id, target
/// module, port, then the four octets of the address. `frame` is `None` when
/// the payload could not be read; `local` says whether the target module
/// lives under this manager.
pub fn handle_add_connection(registry: &mut Registry, frame: Option<Vec<u8>>, local: bool) -> (r: Option<ResultMessage>)
    ensures
        frame is None ==> is_reply(r, ResultCode::InternalError) && final(registry)@ == old(registry)@,
        frame is Some && frame->Some_0@.len() != 10 ==> is_reply(r, ResultCode::IllegalPayload)
            && final(registry)@ == old(registry)@,
        frame is Some && frame->Some_0@.len() == 10 ==> {
            &&& is_reply(r, ResultCode::Success)
            &&& exists|c: Connection|
                {
                    &&& final(registry)@ == old(registry)@.insert(head_u16(frame->Some_0@), c)
                    &&& c.sm() == head_u16(frame->Some_0@.subrange(2, 4))
                    &&& c.address().port == head_u16(frame->Some_0@.subrange(4, 6))
                    &&& c.address().ip@ == frame->Some_0@.subrange(6, 10)
                    &&& c.local() == local
                }
        },
{
    let payload = match frame {
        Some(p) => p,
        None => return reply(ResultCode::InternalError),
    };
    if payload.len() != 10 {
        return reply(ResultCode::IllegalPayload);
    }
    let conn_id = bytes_to_u16(&payload[0..2]);
    let to_sm = bytes_to_u16(&payload[2..4]);
    let em_port = bytes_to_u16(&payload[4..6]);
    let addr = match data_to_ipv4(&payload[6..10]) {
        Ok(a) => a,
        Err(_) => return reply(ResultCode::BadRequest),
    };
    let conn = Connection::new(to_sm, addr, em_port, local);
    registry.put(conn_id, conn);
    reply(ResultCode::Success)
}

/// Whether an AddConnection payload registers a module under this manager.
/// The ten-byte payload has no byte for the flag, so a registrant names a
/// module under this manager by giving this manager's own address: the
/// loopback address and the port it listens on, `own_port`. This is the one
/// place that decides it; the registry stores the flag and never looks at
/// the address again.
pub fn registers_local(payload: &[u8], own_port: u16) -> (r: bool)
    ensures
        r == (payload@.len() == 10 && payload@.subrange(6, 10) == loopback() && head_u16(
            payload@.subrange(4, 6),
        ) == own_port),
{
    if payload.len() != 10 {
        return false;
    }
    let port = bytes_to_u16(&payload[4..6]);
    let r = payload[6] == 127 && payload[7] == 0 && payload[8] == 0 && payload[9] == 1
        && port == own_port;
    assert(r == (payload@.subrange(6, 10) =~= loopback() && port == own_port));
    r
}

/// Appends a periodic task from its eight-byte payload: module, entry, then
/// the requested frequency as a big-endian `u32`.
pub fn handle_register_entrypoint(tasks: &mut Vec<PeriodicTask>, frame: Option<Vec<u8>>) -> (r: Option<ResultMessage>)
    ensures
        frame is None ==> is_reply(r, ResultCode::InternalError) && final(tasks)@ == old(tasks)@,
        frame is Some && frame->Some_0@.len() != 8 ==> is_reply(r, ResultCode::IllegalPayload)
            && final(tasks)@ == old(tasks)@,
        frame is Some && frame->Some_0@.len() == 8 ==> {
            &&& is_reply(r, ResultCode::Success)
            &&& final(tasks)@.len() == old(tasks)@.len() + 1
            &&& final(tasks)@.drop_last() == old(tasks)@
            &&& final(tasks)@.last().module() == head_u16(frame->Some_0@)
            &&& final(tasks)@.last().entry() == head_u16(frame->Some_0@.subrange(2, 4))
            &&& final(tasks)@.last().frequency() == quantized(be_u32(frame->Some_0@[4], frame->Some_0@[5], frame->Some_0@[6], frame->Some_0@[7]))
            &&& final(tasks)@.last().counter() == 0
        },
{
    let payload = match frame {
        Some(p) => p,
        None => return reply(ResultCode::InternalError),
    };
    if payload.len() != 8 {
        return reply(ResultCode::IllegalPayload);
    }
    let module = bytes_to_u16(&payload[0..2]);
    let entry = bytes_to_u16(&payload[2..4]);
    let frequency = bytes_to_u32(&payload[4..8]);
    tasks.push(PeriodicTask::new(module, entry, frequency));
    assert(tasks@.drop_last() =~= old(tasks)@);
    reply(ResultCode::Success)
}

/// Answers a liveness probe.
pub fn handle_ping() -> (r: Option<ResultMessage>)
    ensures
        is_reply(r, ResultCode::Success),
{
    reply(ResultCode::Success)
}

/// Calls an entrypoint of a module under this manager: the payload is the
/// module id followed by what the module receives, of at least one byte.
pub fn handle_call_entrypoint(frame: Option<Vec<u8>>) -> (r: Step)
    ensures
        frame is None ==> is_done_with(r, ResultCode::InternalError),
        frame is Some && frame->Some_0@.len() <= 2 ==> is_done_with(r, ResultCode::IllegalPayload),
        frame is Some && frame->Some_0@.len() > 2 ==> (r matches Step::Call(o) && is_sm_call(
            o,
            head_u16(frame->Some_0@),
            frame->Some_0@.subrange(2, frame->Some_0@.len() as int),
        )),
{
    let payload = match frame {
        Some(p) => p,
        None => return Step::Done(reply(ResultCode::InternalError)),
    };
    if payload.len() <= 2 {
        return Step::Done(reply(ResultCode::IllegalPayload));
    }
    let mut payload = payload;
    let sm_id = bytes_to_u16(&payload[0..2]);
    let data = payload.split_off(2);
    Step::Call(Outbound::Sm { sm_id, data })
}

/// The reply to an entrypoint call: the module's result, or an internal error
/// when the call failed.
pub fn finish_call_entrypoint(outcome: Outcome) -> (r: Option<ResultMessage>)
    ensures
        outcome is Ok && outcome->Ok_0 is Some ==> r == outcome->Ok_0,
        !(outcome is Ok && outcome->Ok_0 is Some) ==> is_reply(r, ResultCode::InternalError),
{
    match outcome {
        Ok(Some(m)) => Some(m),
        _ => reply(ResultCode::InternalError),
    }
}

/// Routes the output of a module: the payload is the entrypoint id, the
/// connection id, then the body, of at least one byte. An unknown connection
/// or a payload that cannot be read ends without a reply. A local connection
/// sends the whole payload to its target module under this manager; a remote
/// one goes to the manager at the connection's address, as
/// `handle_remote_connection` says, and is refused as an illegal payload for
/// any other entrypoint. The registry is only read, and the step holds copies.
pub fn handle_module_output(registry: &Registry, frame: Option<Vec<u8>>) -> (r: Step)
    ensures
        frame is None ==> is_silent(r),
        frame is Some && frame->Some_0@.len() <= 4 ==> is_silent(r),
        frame is Some && frame->Some_0@.len() > 4 ==> {
            let entry_id = head_u16(frame->Some_0@);
            let conn_id = head_u16(frame->Some_0@.subrange(2, 4));
            match lookup(registry@, conn_id) {
                None => is_silent(r),
                Some(c) => if c.local() {
                    r matches Step::Call(o) && is_sm_call(o, c.sm(), frame->Some_0@)
                } else if entrypoint_of(entry_id) == EntrypointID::HandleInput {
                    r matches Step::Call(o) && is_em_call(
                        o,
                        c.address(),
                        CommandCode::RemoteOutput,
                        rewrite_head(frame->Some_0@, c.sm()),
                        false,
                    )
                } else if entrypoint_of(entry_id) == EntrypointID::HandleHandler {
                    r matches Step::Call(o) && is_em_call(
                        o,
                        c.address(),
                        CommandCode::RemoteRequest,
                        rewrite_head(frame->Some_0@, c.sm()),
                        true,
                    )
                } else {
                    is_done_with(r, ResultCode::IllegalPayload)
                },
            }
        },
{
    let payload = match frame {
        Some(p) => p,
        None => return Step::Done(None),
    };
    if payload.len() <= 4 {
        return Step::Done(None);
    }
    let entry_id = bytes_to_u16(&payload[0..2]);
    let conn_id = bytes_to_u16(&payload[2..4]);
    let conn = match registry.get(conn_id) {
        Some(c) => c,
        None => return Step::Done(None),
    };
    if conn.is_local_connection() {
        Step::Call(handle_local_connection(payload, conn))
    } else {
        match handle_remote_connection(payload, conn_id, entry_id, conn) {
            Ok(o) => Step::Call(o),
            Err(_) => Step::Done(reply(ResultCode::IllegalPayload)),
        }
    }
}

/// The reply to a module output: what the call came back with, which is no
/// reply for a remote output, or a generic error when the call failed.
pub fn finish_module_output(outcome: Outcome) -> (r: Option<ResultMessage>)
    ensures
        outcome is Ok ==> r == outcome->Ok_0,
        outcome is Err ==> is_reply(r, ResultCode::GenericError),
{
    match outcome {
        Ok(res) => res,
        Err(_) => reply(ResultCode::GenericError),
    }
}

/// Forwards an output that a peer manager sent to a local module: the payload
/// is the module id then at least five more bytes; the id gives way to the
/// input handler's id. Nothing is ever replied.
pub fn handle_remote_output(frame: Option<Vec<u8>>) -> (r: Step)
    ensures
        frame is None ==> is_silent(r),
        frame is Some && frame->Some_0@.len() <= 6 ==> is_silent(r),
        frame is Some && frame->Some_0@.len() > 6 ==> (r matches Step::Call(o) && is_sm_call(
            o,
            head_u16(frame->Some_0@),
            rewrite_head(frame->Some_0@, HANDLE_INPUT_ID),
        )),
{
    let payload = match frame {
        Some(p) => p,
        None => return Step::Done(None),
    };
    if payload.len() <= 6 {
        return Step::Done(None);
    }
    Step::Call(forward_to_handler(payload, HANDLE_INPUT_ID))
}

/// Whatever the forwarded output came back with, a remote output is never
/// answered.
pub fn finish_remote_output(outcome: Outcome) -> (r: Option<ResultMessage>)
    ensures
        r is None,
{
    None
}

/// Forwards a request that a peer manager sent to a local module: the payload
/// is the module id then at least five more bytes; the id gives way to the
/// request handler's id. A frame that could not be read is an internal error,
/// and a shorter payload an illegal one.
pub fn handle_remote_request(frame: Option<Vec<u8>>) -> (r: Step)
    ensures
        frame is None ==> is_done_with(r, ResultCode::InternalError),
        frame is Some && frame->Some_0@.len() <= 6 ==> is_done_with(r, ResultCode::IllegalPayload),
        frame is Some && frame->Some_0@.len() > 6 ==> (r matches Step::Call(o) && is_sm_call(
            o,
            head_u16(frame->Some_0@),
            rewrite_head(frame->Some_0@, HANDLE_HANDLER_ID),
        )),
{
    let payload = match frame {
        Some(p) => p,
        None => return Step::Done(reply(ResultCode::InternalError)),
    };
    if payload.len() <= 6 {
        return Step::Done(reply(ResultCode::IllegalPayload));
    }
    Step::Call(forward_to_handler(payload, HANDLE_HANDLER_ID))
}

/// The reply to a remote request: the module's result, or an internal error
/// when the call failed.
pub fn finish_remote_request(outcome: Outcome) -> (r: Option<ResultMessage>)
    ensures
        outcome is Ok && outcome->Ok_0 is Some ==> r == outcome->Ok_0,
        !(outcome is Ok && outcome->Ok_0 is Some) ==> is_reply(r, ResultCode::InternalError),
{
    finish_call_entrypoint(outcome)
}

/// The common part of the two inbound forwards from a peer manager: the
/// module id in front of the payload gives way to entrypoint `entry`, and the
/// payload goes to that module.
fn forward_to_handler(payload: Vec<u8>, entry: u16) -> (r: Outbound)
    requires
        payload@.len() >= 2,
    ensures
        is_sm_call(r, head_u16(payload@), rewrite_head(payload@, entry)),
{
    let mut payload = payload;
    let sm_id = bytes_to_u16(&payload[0..2]);
    set_head(&mut payload, entry);
    Outbound::Sm { sm_id, data: payload }
}

} // verus!
