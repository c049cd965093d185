use execution_manager::connection::{sm_address, Connection};
use execution_manager::handlers::{
    finish_call_entrypoint, finish_module_output, finish_remote_output, finish_remote_request,
    handle_add_connection, handle_call_entrypoint, handle_module_output, handle_ping,
    handle_register_entrypoint, handle_remote_output, handle_remote_request,
    handle_unknown_command, registers_local, Step,
};
use execution_manager::helpers::{
    bytes_to_u16, bytes_to_u32, data_to_ipv4, get_sm_index, u16_to_bytes, u32_to_bytes,
    AddressError,
};
use execution_manager::output::{handle_local_connection, handle_remote_connection, Outbound};
use execution_manager::periodic::{fire_command, scan_tasks, set_frequency, PeriodicTask};
use execution_manager::protocol::{
    decode_frame_length, decode_result, encode_command, encode_message, encode_result,
    CommandCode, CommandMessage, EntrypointID, Error, ResultCode, ResultMessage,
    HANDLE_HANDLER_ID, HANDLE_INPUT_ID,
};
use execution_manager::registry::Registry;

fn add_payload(conn_id: u16, module: u16, port: u16, ip: [u8; 4]) -> Vec<u8> {
    let mut p = Vec::new();
    p.extend_from_slice(&conn_id.to_be_bytes());
    p.extend_from_slice(&module.to_be_bytes());
    p.extend_from_slice(&port.to_be_bytes());
    p.extend_from_slice(&ip);
    p
}

fn output_payload(entry: u16, conn_id: u16, body: &[u8]) -> Vec<u8> {
    let mut p = Vec::new();
    p.extend_from_slice(&entry.to_be_bytes());
    p.extend_from_slice(&conn_id.to_be_bytes());
    p.extend_from_slice(body);
    p
}

fn code_of(r: &Option<ResultMessage>) -> Option<ResultCode> {
    r.as_ref().map(|m| m.code)
}

#[test]
fn big_endian_integers() {
    assert_eq!(bytes_to_u16(&[0x12, 0x34]), 0x1234);
    assert_eq!(bytes_to_u32(&[0x12, 0x34, 0x56, 0x78]), 0x12345678);
    assert_eq!(u16_to_bytes(0xABCD), [0xAB, 0xCD]);
    assert_eq!(u32_to_bytes(0x01020304), [1, 2, 3, 4]);
    assert_eq!(bytes_to_u32(&u32_to_bytes(4_000_000_123)), 4_000_000_123);
}

#[test]
fn ipv4_from_bytes() {
    assert_eq!(data_to_ipv4(&[10, 0, 0, 7]), Ok([10, 0, 0, 7]));
    assert_eq!(data_to_ipv4(&[10, 0, 0]), Err(AddressError::InvalidLength));
    assert_eq!(data_to_ipv4(&[1, 2, 3, 4, 5]), Err(AddressError::InvalidLength));
}

#[test]
fn sm_index_counts_up() {
    let mut c: u16 = 0;
    assert_eq!(get_sm_index(&mut c), 0);
    assert_eq!(get_sm_index(&mut c), 1);
    assert_eq!(c, 2);
}

#[test]
fn command_codes() {
    assert_eq!(CommandCode::from_u8(0), Some(CommandCode::AddConnection));
    assert_eq!(CommandCode::from_u8(7), Some(CommandCode::RemoteRequest));
    assert_eq!(CommandCode::from_u8(8), None);
    for b in 0u8..8 {
        assert_eq!(CommandCode::from_u8(b).unwrap().to_u8(), b);
    }
    assert_eq!(ResultCode::from_u8(6), Some(ResultCode::GenericError));
    assert_eq!(ResultCode::from_u8(200), None);
    assert_eq!(EntrypointID::from_u16(HANDLE_INPUT_ID), EntrypointID::HandleInput);
    assert_eq!(EntrypointID::from_u16(HANDLE_HANDLER_ID), EntrypointID::HandleHandler);
    assert_eq!(EntrypointID::from_u16(9), EntrypointID::User);
    let r = handle_unknown_command();
    assert_eq!(code_of(&r), Some(ResultCode::IllegalCommand));
}

#[test]
fn framing() {
    assert_eq!(encode_message(&[9, 8, 7]), vec![0, 0, 0, 3, 9, 8, 7]);
    assert_eq!(encode_message(&[]), vec![0, 0, 0, 0]);
    assert_eq!(decode_frame_length(&[0, 0, 1, 2]), 258);
    let cmd = CommandMessage::new(CommandCode::RemoteOutput, Some(vec![1, 2]));
    assert_eq!(encode_command(&cmd), vec![2, 0, 0, 0, 2, 1, 2]);
    let ping = CommandMessage::new(CommandCode::Ping, None);
    assert_eq!(encode_command(&ping), vec![4]);
    let res = ResultMessage::new(ResultCode::Success, Some(vec![5]));
    assert_eq!(encode_result(&res), vec![0, 0, 0, 0, 1, 5]);
    let bare = ResultMessage::new(ResultCode::InternalError, None);
    assert_eq!(encode_result(&bare), vec![3, 0, 0, 0, 0]);
}

#[test]
fn result_decoding() {
    assert_eq!(decode_result(0, vec![1, 2]), Ok(ResultMessage::new(ResultCode::Success, Some(vec![1, 2]))));
    assert_eq!(decode_result(2, vec![]), Ok(ResultMessage::new(ResultCode::IllegalPayload, None)));
    assert_eq!(decode_result(99, vec![]), Err(Error::ProtocolError));
}

#[test]
fn registry_last_registration_wins() {
    let mut reg = Registry::new();
    reg.put(1, Connection::new(10, [1, 1, 1, 1], 100, false));
    reg.put(2, Connection::new(20, [2, 2, 2, 2], 200, true));
    reg.put(1, Connection::new(30, [3, 3, 3, 3], 300, true));
    let c1 = reg.get(1).unwrap();
    assert_eq!(c1.get_sm(), 30);
    assert_eq!(c1.get_address().ip, [3, 3, 3, 3]);
    assert_eq!(c1.get_address().port, 300);
    assert!(c1.is_local_connection());
    assert_eq!(reg.get(2).unwrap().get_sm(), 20);
    assert!(reg.get(3).is_none());
}

#[test]
fn add_connection_results() {
    let mut reg = Registry::new();
    assert_eq!(code_of(&handle_add_connection(&mut reg, None, true)), Some(ResultCode::InternalError));
    let short = vec![0u8; 9];
    assert_eq!(code_of(&handle_add_connection(&mut reg, Some(short), true)), Some(ResultCode::IllegalPayload));
    let long = vec![0u8; 11];
    assert_eq!(code_of(&handle_add_connection(&mut reg, Some(long), true)), Some(ResultCode::IllegalPayload));
    assert!(reg.get(0).is_none());
    let r = handle_add_connection(&mut reg, Some(add_payload(7, 3, 5000, [192, 168, 1, 2])), false);
    assert_eq!(r, Some(ResultMessage::new(ResultCode::Success, None)));
    let c = reg.get(7).unwrap();
    assert_eq!(c.get_sm(), 3);
    assert_eq!(c.get_address().port, 5000);
    assert_eq!(c.get_address().ip, [192, 168, 1, 2]);
    assert!(!c.is_local_connection());
}

#[test]
fn frequency_quantization() {
    assert_eq!(set_frequency(30), 50);
    assert_eq!(set_frequency(130), 100);
    assert_eq!(set_frequency(50), 50);
    assert_eq!(set_frequency(0), 50);
    assert_eq!(set_frequency(u32::MAX), 4_294_967_250);
    assert_eq!(PeriodicTask::new(1, 2, 30).get_frequency(), 50);
}

#[test]
fn register_entrypoint_quantizes() {
    let mut tasks = Vec::new();
    for (freq, want) in [(30u32, 50u32), (130, 100), (50, 50)] {
        let mut p = vec![0, 4, 0, 9];
        p.extend_from_slice(&freq.to_be_bytes());
        let r = handle_register_entrypoint(&mut tasks, Some(p));
        assert_eq!(code_of(&r), Some(ResultCode::Success));
        let t = tasks.last().unwrap();
        assert_eq!(t.get_frequency(), want);
        assert_eq!(t.get_module(), 4);
        assert_eq!(t.get_entry(), 9);
        assert_eq!(t.get_counter(), 0);
    }
    assert_eq!(tasks.len(), 3);
    assert_eq!(code_of(&handle_register_entrypoint(&mut tasks, Some(vec![0; 7]))), Some(ResultCode::IllegalPayload));
    assert_eq!(code_of(&handle_register_entrypoint(&mut tasks, None)), Some(ResultCode::InternalError));
    assert_eq!(tasks.len(), 3);
}

#[test]
fn task_fires_every_second_tick() {
    let mut t = PeriodicTask::new(1, 2, 100);
    let mut seen = Vec::new();
    for _ in 0..6 {
        let fired = t.increment_counter();
        seen.push((t.get_counter(), fired));
    }
    assert_eq!(seen, vec![(50, false), (0, true), (50, false), (0, true), (50, false), (0, true)]);
}

#[test]
fn scan_returns_due_tasks() {
    let mut tasks = vec![PeriodicTask::new(1, 1, 50), PeriodicTask::new(2, 2, 100), PeriodicTask::new(3, 3, 150)];
    let due = scan_tasks(&mut tasks);
    assert_eq!(due.iter().map(|t| t.get_module()).collect::<Vec<_>>(), vec![1]);
    let due = scan_tasks(&mut tasks);
    assert_eq!(due.iter().map(|t| t.get_module()).collect::<Vec<_>>(), vec![1, 2]);
    let due = scan_tasks(&mut tasks);
    assert_eq!(due.iter().map(|t| t.get_module()).collect::<Vec<_>>(), vec![1, 3]);
    for t in &tasks {
        assert!(t.get_counter() < t.get_frequency());
    }
    let cmd = fire_command(&PeriodicTask::new(0x0102, 0x0304, 50));
    assert_eq!(cmd.code, CommandCode::CallEntrypoint);
    assert_eq!(cmd.payload, Some(vec![1, 2, 3, 4]));
}

#[test]
fn ping_is_answered() {
    assert_eq!(handle_ping(), Some(ResultMessage::new(ResultCode::Success, None)));
}

#[test]
fn call_entrypoint_steps() {
    assert_eq!(handle_call_entrypoint(None), Step::Done(Some(ResultMessage::new(ResultCode::InternalError, None))));
    assert_eq!(handle_call_entrypoint(Some(vec![0, 1])), Step::Done(Some(ResultMessage::new(ResultCode::IllegalPayload, None))));
    assert_eq!(handle_call_entrypoint(Some(vec![0, 5, 9, 9])), Step::Call(Outbound::Sm { sm_id: 5, data: vec![9, 9] }));
    let res = ResultMessage::new(ResultCode::Success, Some(vec![42]));
    assert_eq!(finish_call_entrypoint(Ok(Some(res.clone()))), Some(res));
    assert_eq!(code_of(&finish_call_entrypoint(Err(Error::NetworkError))), Some(ResultCode::InternalError));
}

#[test]
fn local_output_reaches_own_port() {
    let mut reg = Registry::new();
    let port: u16 = 6000;
    handle_add_connection(&mut reg, Some(add_payload(7, 3, port, [127, 0, 0, 1])), true);
    let payload = output_payload(HANDLE_INPUT_ID, 7, &[0xAA, 0xBB]);
    let step = handle_module_output(&reg, Some(payload.clone()));
    assert_eq!(step, Step::Call(Outbound::Sm { sm_id: 3, data: payload }));
    let addr = sm_address(port, 3).unwrap();
    assert_eq!(addr.ip, [127, 0, 0, 1]);
    assert_eq!(addr.port, port + 3);
    let res = ResultMessage::new(ResultCode::Success, Some(vec![1, 2, 3]));
    assert_eq!(finish_module_output(Ok(Some(res.clone()))), Some(res));
}

#[test]
fn unknown_connection_is_dropped() {
    let reg = Registry::new();
    let step = handle_module_output(&reg, Some(output_payload(HANDLE_INPUT_ID, 99, &[1])));
    assert_eq!(step, Step::Done(None));
    assert_eq!(handle_module_output(&reg, None), Step::Done(None));
    assert_eq!(handle_module_output(&reg, Some(vec![0, 3, 0, 99])), Step::Done(None));
}

#[test]
fn remote_output_routes_to_peer() {
    let mut reg = Registry::new();
    handle_add_connection(&mut reg, Some(add_payload(1, 0x0203, 7000, [10, 0, 0, 9])), false);
    let step = handle_module_output(&reg, Some(output_payload(HANDLE_INPUT_ID, 1, &[5, 6, 7])));
    match step {
        Step::Call(Outbound::Em { address, command, has_resp }) => {
            assert_eq!(address.ip, [10, 0, 0, 9]);
            assert_eq!(address.port, 7000);
            assert_eq!(command.code, CommandCode::RemoteOutput);
            assert_eq!(command.payload, Some(vec![2, 3, 0, 1, 5, 6, 7]));
            assert!(!has_resp);
        }
        other => panic!("unexpected step {:?}", other),
    }
    assert_eq!(finish_module_output(Ok(None)), None);
    assert_eq!(code_of(&finish_module_output(Err(Error::NetworkError))), Some(ResultCode::GenericError));
}

#[test]
fn remote_request_round_trip() {
    let mut reg = Registry::new();
    handle_add_connection(&mut reg, Some(add_payload(1, 0x0203, 7000, [10, 0, 0, 9])), false);
    let original = output_payload(HANDLE_HANDLER_ID, 1, &[5, 6, 7]);
    let sent = match handle_module_output(&reg, Some(original.clone())) {
        Step::Call(Outbound::Em { command, has_resp, .. }) => {
            assert_eq!(command.code, CommandCode::RemoteRequest);
            assert!(has_resp);
            command.payload.unwrap()
        }
        other => panic!("unexpected step {:?}", other),
    };
    assert_eq!(bytes_to_u16(&sent), 0x0203);
    match handle_remote_request(Some(sent)) {
        Step::Call(Outbound::Sm { sm_id, data }) => {
            assert_eq!(sm_id, 0x0203);
            assert_eq!(bytes_to_u16(&data), HANDLE_HANDLER_ID);
            assert_eq!(data, original);
        }
        other => panic!("unexpected step {:?}", other),
    }
    let res = ResultMessage::new(ResultCode::Success, Some(vec![8]));
    assert_eq!(finish_remote_request(Ok(Some(res.clone()))), Some(res));
    assert_eq!(code_of(&finish_remote_request(Err(Error::NetworkError))), Some(ResultCode::InternalError));
}

#[test]
fn unknown_entrypoint_to_peer_fails() {
    let mut reg = Registry::new();
    handle_add_connection(&mut reg, Some(add_payload(1, 2, 7000, [10, 0, 0, 9])), false);
    let step = handle_module_output(&reg, Some(output_payload(9, 1, &[5])));
    assert_eq!(step, Step::Done(Some(ResultMessage::new(ResultCode::IllegalPayload, None))));
    let conn = Connection::new(2, [1, 2, 3, 4], 1, false);
    assert_eq!(handle_remote_connection(vec![0, 9, 0, 1, 5], 1, 9, conn), Err(Error::InvalidPayload));
    assert_eq!(handle_local_connection(vec![1, 2, 3], conn), Outbound::Sm { sm_id: 2, data: vec![1, 2, 3] });
}

#[test]
fn remote_output_never_replies() {
    assert_eq!(handle_remote_output(None), Step::Done(None));
    assert_eq!(handle_remote_output(Some(vec![0, 1, 2, 3, 4, 5])), Step::Done(None));
    assert_eq!(
        handle_remote_output(Some(vec![0, 9, 0, 0, 1, 2, 3])),
        Step::Call(Outbound::Sm { sm_id: 9, data: vec![0, 3, 0, 0, 1, 2, 3] })
    );
    let res = ResultMessage::new(ResultCode::Success, Some(vec![1]));
    assert_eq!(finish_remote_output(Ok(Some(res))), None);
    assert_eq!(finish_remote_output(Ok(None)), None);
    assert_eq!(finish_remote_output(Err(Error::NetworkError)), None);
    assert_eq!(
        handle_remote_request(Some(vec![0, 1, 2, 3, 4, 5])),
        Step::Done(Some(ResultMessage::new(ResultCode::IllegalPayload, None)))
    );
    assert_eq!(handle_remote_request(None), Step::Done(Some(ResultMessage::new(ResultCode::InternalError, None))));
}

#[test]
fn sm_address_overflow() {
    assert!(sm_address(65535, 1).is_none());
    assert_eq!(sm_address(65534, 1).unwrap().port, 65535);
}

#[test]
fn locality_from_registrant_address() {
    assert!(registers_local(&add_payload(7, 3, 6000, [127, 0, 0, 1]), 6000));
    assert!(!registers_local(&add_payload(7, 3, 6001, [127, 0, 0, 1]), 6000));
    assert!(!registers_local(&add_payload(7, 3, 6000, [10, 0, 0, 1]), 6000));
    assert!(!registers_local(&[0u8; 9], 6000));
}
