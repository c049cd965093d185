use vstd::prelude::*;

use crate::connection::{Connection, SocketAddress};
use crate::helpers::{head_u16, u16_bytes, u16_to_bytes};
use crate::protocol::{
    entrypoint_of, CommandCode, CommandMessage, EntrypointID, Error, ResultMessage,
};

verus! {

/// An outbound call, planned while a lock may be held and performed by the
/// caller after every lock is released.
#[derive(Clone, Debug, PartialEq, Eq)]
pub enum Outbound {
    /// Send `data` in a frame to module `sm_id` under this host's manager,
    /// and read back its result.
    Sm { sm_id: u16, data: Vec<u8> },
    /// Send `command` to the manager at `address`, and read back a result
    /// only when `has_resp` holds.
    Em { address: SocketAddress, command: CommandMessage, has_resp: bool },
}

/// What an outbound call came back with: a result, none where none was
/// asked for, or the error that stopped it.
pub type Outcome = Result<Option<ResultMessage>, Error>;

/// `payload` with its first two bytes replaced by the big-endian `v`.
pub open spec fn rewrite_head(payload: Seq<u8>, v: u16) -> Seq<u8> {
    u16_bytes(v) + payload.subrange(2, payload.len() as int)
}

/// Whether `out` delivers `data` to module `sm_id` under this host's manager.
pub open spec fn is_sm_call(out: Outbound, sm_id: u16, data: Seq<u8>) -> bool {
    out matches Outbound::Sm { sm_id: s, data: d } && s == sm_id && d@ == data
}

/// Whether `out` sends a command with code `code` and payload `data` to the
/// manager at `address`, waiting for a result exactly when `has_resp`.
pub open spec fn is_em_call(
    out: Outbound,
    address: SocketAddress,
    code: CommandCode,
    data: Seq<u8>,
    has_resp: bool,
) -> bool {
    &&& out matches Outbound::Em { address: a, command: c, has_resp: h }
    &&& a == address && c.code == code && h == has_resp
    &&& c.payload matches Some(p) && p@ == data
}

/// Overwrites the first two bytes of `payload` with the big-endian `v`.
pub fn set_head(payload: &mut Vec<u8>, v: u16)
    requires
        old(payload)@.len() >= 2,
    ensures
        final(payload)@ == rewrite_head(old(payload)@, v),
{
    let b = u16_to_bytes(v);
    payload.set(0, b[0]);
    payload.set(1, b[1]);
    assert(payload@ =~= rewrite_head(old(payload)@, v));
}

/// Delivery to a module under this same manager: the payload goes unchanged
/// to the connection's target module.
pub fn handle_local_connection(payload: Vec<u8>, conn: Connection) -> (r: Outbound)
    ensures
        is_sm_call(r, conn.sm(), payload@),
{
    Outbound::Sm { sm_id: conn.get_sm(), data: payload }
}

/// Delivery to a module under another manager. The entrypoint id in front of
/// the payload gives way to the target module's id; an output for the input
/// handler travels as a remote output with no reply, one for the request
/// handler as a remote request whose result comes back, and any other
/// entrypoint is refused.
pub fn handle_remote_connection(mut payload: Vec<u8>, _conn_id: u16, entry_id: u16, conn: Connection) -> (r: Result<Outbound, Error>)
    requires
        payload@.len() >= 2,
    ensures
        entrypoint_of(entry_id) == EntrypointID::HandleInput ==> (r matches Ok(o) && is_em_call(
            o,
            conn.address(),
            CommandCode::RemoteOutput,
            rewrite_head(payload@, conn.sm()),
            false,
        )),
        entrypoint_of(entry_id) == EntrypointID::HandleHandler ==> (r matches Ok(o) && is_em_call(
            o,
            conn.address(),
            CommandCode::RemoteRequest,
            rewrite_head(payload@, conn.sm()),
            true,
        )),
        entrypoint_of(entry_id) != EntrypointID::HandleInput && entrypoint_of(entry_id)
            != EntrypointID::HandleHandler ==> r == Err::<Outbound, Error>(Error::InvalidPayload),
{
    set_head(&mut payload, conn.get_sm());
    match EntrypointID::from_u16(entry_id) {
        EntrypointID::HandleInput => {
            let cmd = CommandMessage::new(CommandCode::RemoteOutput, Some(payload));
            Ok(Outbound::Em { address: conn.get_address(), command: cmd, has_resp: false })
        },
        EntrypointID::HandleHandler => {
            let cmd = CommandMessage::new(CommandCode::RemoteRequest, Some(payload));
            Ok(Outbound::Em { address: conn.get_address(), command: cmd, has_resp: true })
        },
        _ => Err(Error::InvalidPayload),
    }
}

/// Rewriting the head of a request-handler body to a module id, and then back
/// to the request-handler id as the receiving manager does, gives the body
/// back; in between, the head reads as the module id.
pub proof fn lemma_rewrite_round_trip(body: Seq<u8>, sm_id: u16)
    requires
        body.len() >= 2,
        head_u16(body) == crate::protocol::HANDLE_HANDLER_ID,
    ensures
        rewrite_head(body, sm_id).len() == body.len(),
        head_u16(rewrite_head(body, sm_id)) == sm_id,
        head_u16(rewrite_head(rewrite_head(body, sm_id), crate::protocol::HANDLE_HANDLER_ID))
            == crate::protocol::HANDLE_HANDLER_ID,
        rewrite_head(rewrite_head(body, sm_id), crate::protocol::HANDLE_HANDLER_ID) == body,
{
    let once = rewrite_head(body, sm_id);
    let twice = rewrite_head(once, crate::protocol::HANDLE_HANDLER_ID);
    assert(once.subrange(2, once.len() as int) =~= body.subrange(2, body.len() as int));
    assert(body[0] == 0 && body[1] == 4);
    assert(twice =~= body);
}

} // verus!
