use vstd::prelude::*;

use crate::helpers::{bytes_to_u32, u32_bytes, u32_to_bytes};

verus! {

/// The command a client names with the first byte it sends.
#[derive(Clone, Copy, Debug, PartialEq, Eq, Structural)]
pub enum CommandCode {
    AddConnection,
    CallEntrypoint,
    RemoteOutput,
    LoadSM,
    Ping,
    RegisterEntrypoint,
    ModuleOutput,
    RemoteRequest,
}

/// The byte that stands for each command on the wire.
pub open spec fn command_byte(c: CommandCode) -> u8 {
    match c {
        CommandCode::AddConnection => 0,
        CommandCode::CallEntrypoint => 1,
        CommandCode::RemoteOutput => 2,
        CommandCode::LoadSM => 3,
        CommandCode::Ping => 4,
        CommandCode::RegisterEntrypoint => 5,
        CommandCode::ModuleOutput => 6,
        CommandCode::RemoteRequest => 7,
    }
}

/// The command that a byte stands for, if any.
pub open spec fn command_of_byte(b: u8) -> Option<CommandCode> {
    if b == 0 {
        Some(CommandCode::AddConnection)
    } else if b == 1 {
        Some(CommandCode::CallEntrypoint)
    } else if b == 2 {
        Some(CommandCode::RemoteOutput)
    } else if b == 3 {
        Some(CommandCode::LoadSM)
    } else if b == 4 {
        Some(CommandCode::Ping)
    } else if b == 5 {
        Some(CommandCode::RegisterEntrypoint)
    } else if b == 6 {
        Some(CommandCode::ModuleOutput)
    } else if b == 7 {
        Some(CommandCode::RemoteRequest)
    } else {
        None
    }
}

impl CommandCode {
    pub fn from_u8(b: u8) -> (r: Option<CommandCode>)
        ensures
            r == command_of_byte(b),
    {
        match b {
            0 => Some(CommandCode::AddConnection),
            1 => Some(CommandCode::CallEntrypoint),
            2 => Some(CommandCode::RemoteOutput),
            3 => Some(CommandCode::LoadSM),
            4 => Some(CommandCode::Ping),
            5 => Some(CommandCode::RegisterEntrypoint),
            6 => Some(CommandCode::ModuleOutput),
            7 => Some(CommandCode::RemoteRequest),
            _ => None,
        }
    }

    pub fn to_u8(&self) -> (r: u8)
        ensures
            r == command_byte(*self),
            command_of_byte(r) == Some(*self),
    {
        match self {
            CommandCode::AddConnection => 0,
            CommandCode::CallEntrypoint => 1,
            CommandCode::RemoteOutput => 2,
            CommandCode::LoadSM => 3,
            CommandCode::Ping => 4,
            CommandCode::RegisterEntrypoint => 5,
            CommandCode::ModuleOutput => 6,
            CommandCode::RemoteRequest => 7,
        }
    }
}

/// The outcome a handler reports to its caller.
#[derive(Clone, Copy, Debug, PartialEq, Eq, Structural)]
pub enum ResultCode {
    Success,
    IllegalCommand,
    IllegalPayload,
    InternalError,
    BadRequest,
    CryptoError,
    GenericError,
}

/// The byte that stands for each result code on the wire.
pub open spec fn result_byte(c: ResultCode) -> u8 {
    match c {
        ResultCode::Success => 0,
        ResultCode::IllegalCommand => 1,
        ResultCode::IllegalPayload => 2,
        ResultCode::InternalError => 3,
        ResultCode::BadRequest => 4,
        ResultCode::CryptoError => 5,
        ResultCode::GenericError => 6,
    }
}

/// The result code that a byte stands for, if any.
pub open spec fn result_of_byte(b: u8) -> Option<ResultCode> {
    if b == 0 {
        Some(ResultCode::Success)
    } else if b == 1 {
        Some(ResultCode::IllegalCommand)
    } else if b == 2 {
        Some(ResultCode::IllegalPayload)
    } else if b == 3 {
        Some(ResultCode::InternalError)
    } else if b == 4 {
        Some(ResultCode::BadRequest)
    } else if b == 5 {
        Some(ResultCode::CryptoError)
    } else if b == 6 {
        Some(ResultCode::GenericError)
    } else {
        None
    }
}

impl ResultCode {
    pub fn from_u8(b: u8) -> (r: Option<ResultCode>)
        ensures
            r == result_of_byte(b),
    {
        match b {
            0 => Some(ResultCode::Success),
            1 => Some(ResultCode::IllegalCommand),
            2 => Some(ResultCode::IllegalPayload),
            3 => Some(ResultCode::InternalError),
            4 => Some(ResultCode::BadRequest),
            5 => Some(ResultCode::CryptoError),
            6 => Some(ResultCode::GenericError),
            _ => None,
        }
    }

    pub fn to_u8(&self) -> (r: u8)
        ensures
            r == result_byte(*self),
            result_of_byte(r) == Some(*self),
    {
        match self {
            ResultCode::Success => 0,
            ResultCode::IllegalCommand => 1,
            ResultCode::IllegalPayload => 2,
            ResultCode::InternalError => 3,
            ResultCode::BadRequest => 4,
            ResultCode::CryptoError => 5,
            ResultCode::GenericError => 6,
        }
    }
}

/// Entrypoint id under which a module receives an output of another module.
pub const HANDLE_INPUT_ID: u16 = 3;

/// Entrypoint id under which a module serves a request of another module.
pub const HANDLE_HANDLER_ID: u16 = 4;

/// The entrypoints that the manager itself tells apart.
#[derive(Clone, Copy, Debug, PartialEq, Eq, Structural)]
pub enum EntrypointID {
    SetKey,
    Attest,
    Disable,
    HandleInput,
    HandleHandler,
    User,
}

/// The entrypoint that an id stands for.
pub open spec fn entrypoint_of(id: u16) -> EntrypointID {
    if id == 0 {
        EntrypointID::SetKey
    } else if id == 1 {
        EntrypointID::Attest
    } else if id == 2 {
        EntrypointID::Disable
    } else if id == HANDLE_INPUT_ID {
        EntrypointID::HandleInput
    } else if id == HANDLE_HANDLER_ID {
        EntrypointID::HandleHandler
    } else {
        EntrypointID::User
    }
}

impl EntrypointID {
    pub fn from_u16(id: u16) -> (r: EntrypointID)
        ensures
            r == entrypoint_of(id),
    {
        match id {
            0 => EntrypointID::SetKey,
            1 => EntrypointID::Attest,
            2 => EntrypointID::Disable,
            HANDLE_INPUT_ID => EntrypointID::HandleInput,
            HANDLE_HANDLER_ID => EntrypointID::HandleHandler,
            _ => EntrypointID::User,
        }
    }
}

/// Errors met while talking to another endpoint.
#[derive(Clone, Copy, Debug, PartialEq, Eq, Structural)]
pub enum Error {
    /// The endpoint could not be reached.
    NetworkError,
    /// The endpoint broke the framing or sent an unknown code.
    ProtocolError,
    /// The message to forward does not name a known entrypoint.
    InvalidPayload,
}

impl Error {
    pub fn message(&self) -> (r: &'static str) {
        match self {
            Error::NetworkError => "network error",
            Error::ProtocolError => "protocol error",
            Error::InvalidPayload => "invalid payload",
        }
    }
}

/// A result envelope: a code and an optional payload.
#[derive(Clone, Debug, PartialEq, Eq)]
pub struct ResultMessage {
    pub code: ResultCode,
    pub payload: Option<Vec<u8>>,
}

impl ResultMessage {
    pub fn new(code: ResultCode, payload: Option<Vec<u8>>) -> (r: ResultMessage)
        ensures
            r.code == code,
            r.payload == payload,
    {
        ResultMessage { code, payload }
    }
}

/// A command envelope: a code and an optional payload.
#[derive(Clone, Debug, PartialEq, Eq)]
pub struct CommandMessage {
    pub code: CommandCode,
    pub payload: Option<Vec<u8>>,
}

impl CommandMessage {
    pub fn new(code: CommandCode, payload: Option<Vec<u8>>) -> (r: CommandMessage)
        ensures
            r.code == code,
            r.payload == payload,
    {
        CommandMessage { code, payload }
    }
}

/// A frame: the length as four big-endian bytes, then the bytes.
pub open spec fn frame(data: Seq<u8>) -> Seq<u8> {
    u32_bytes(data.len() as u32) + data
}

/// The bytes of an optional payload: a frame when present, nothing otherwise.
pub open spec fn optional_frame(payload: Option<Vec<u8>>) -> Seq<u8> {
    match payload {
        Some(p) => frame(p@),
        None => Seq::empty(),
    }
}

/// The wire form of a command: its code byte, then its payload's frame.
pub open spec fn command_bytes(cmd: CommandMessage) -> Seq<u8> {
    seq![command_byte(cmd.code)] + optional_frame(cmd.payload)
}

/// The wire form of a result: its code byte, then a frame of its payload,
/// empty when there is none, so that a reader always knows what follows.
pub open spec fn result_bytes(res: ResultMessage) -> Seq<u8> {
    seq![result_byte(res.code)] + match res.payload {
        Some(p) => frame(p@),
        None => frame(Seq::empty()),
    }
}

/// Whether a payload is short enough for its length to fit a frame header.
pub open spec fn fits_frame(payload: Option<Vec<u8>>) -> bool {
    match payload {
        Some(p) => p@.len() <= u32::MAX,
        None => true,
    }
}

/// Appends the frame of `data` to `out`.
fn push_frame(out: &mut Vec<u8>, data: &[u8])
    requires
        data@.len() <= u32::MAX,
    ensures
        final(out)@ == old(out)@ + frame(data@),
{
    let header = u32_to_bytes(data.len() as u32);
    out.push(header[0]);
    out.push(header[1]);
    out.push(header[2]);
    out.push(header[3]);
    let ghost start = out@;
    let mut i: usize = 0;
    while i < data.len()
        invariant
            i <= data@.len(),
            start == old(out)@ + u32_bytes(data@.len() as u32),
            out@ == start + data@.subrange(0, i as int),
        decreases data@.len() - i,
    {
        out.push(data[i]);
        i = i + 1;
        assert(out@ =~= start + data@.subrange(0, i as int));
    }
    assert(data@.subrange(0, data@.len() as int) =~= data@);
    assert(out@ =~= old(out)@ + frame(data@));
}

/// Frames a message: its length as four big-endian bytes, then its bytes.
pub fn encode_message(data: &[u8]) -> (r: Vec<u8>)
    requires
        data@.len() <= u32::MAX,
    ensures
        r@ == frame(data@),
{
    let mut out: Vec<u8> = Vec::new();
    push_frame(&mut out, data);
    assert(out@ =~= frame(data@));
    out
}

/// Reads the length of a frame from its four-byte header.
pub fn decode_frame_length(header: &[u8]) -> (r: u32)
    requires
        header@.len() >= 4,
    ensures
        r == crate::helpers::be_u32(header@[0], header@[1], header@[2], header@[3]),
{
    bytes_to_u32(header)
}

/// The wire form of a command envelope.
pub fn encode_command(cmd: &CommandMessage) -> (r: Vec<u8>)
    requires
        fits_frame(cmd.payload),
    ensures
        r@ == command_bytes(*cmd),
{
    let mut out: Vec<u8> = Vec::new();
    out.push(cmd.code.to_u8());
    match &cmd.payload {
        Some(p) => push_frame(&mut out, p.as_slice()),
        None => {},
    }
    assert(out@ =~= command_bytes(*cmd));
    out
}

/// The wire form of a result envelope.
pub fn encode_result(res: &ResultMessage) -> (r: Vec<u8>)
    requires
        fits_frame(res.payload),
    ensures
        r@ == result_bytes(*res),
{
    let mut out: Vec<u8> = Vec::new();
    out.push(res.code.to_u8());
    match &res.payload {
        Some(p) => push_frame(&mut out, p.as_slice()),
        None => {
            let empty: Vec<u8> = Vec::new();
            push_frame(&mut out, empty.as_slice());
            assert(empty@ =~= Seq::<u8>::empty());
        },
    }
    assert(out@ =~= result_bytes(*res));
    out
}

/// Builds a result from a code byte and a payload read after it: an unknown
/// code is a protocol error, and an empty payload stands for none.
pub fn decode_result(code: u8, payload: Vec<u8>) -> (r: Result<ResultMessage, Error>)
    ensures
        result_of_byte(code) is None ==> r == Err::<ResultMessage, Error>(Error::ProtocolError),
        result_of_byte(code) is Some ==> r == Ok::<ResultMessage, Error>(
            ResultMessage {
                code: result_of_byte(code)->Some_0,
                payload: if payload@.len() == 0 {
                    None
                } else {
                    Some(payload)
                },
            },
        ),
{
    match ResultCode::from_u8(code) {
        None => Err(Error::ProtocolError),
        Some(c) => {
            if payload.len() == 0 {
                Ok(ResultMessage::new(c, None))
            } else {
                Ok(ResultMessage::new(c, Some(payload)))
            }
        },
    }
}

} // verus!
