use fullerene_usb::debug_transport::{
    adb_checksum, build_adb_frame, build_response_frame, parse_adb_request, parse_request,
    parse_shell_service, shell_exit_code, shell_output, shell_v2_stdout, status_payload,
    trim_at_nul, ByteWriter, DebugTransport, OutFrame, TraceStatus, WriteError, ADB_CLSE,
    ADB_CNXN, ADB_OKAY, ADB_OPEN, ADB_VERSION, ADB_VERSION_ORIGINAL, ADB_WRTE, COMMAND_RETURN,
    COMMAND_SHELL, COMMAND_STATUS, COMMAND_TRACE, STATUS_BUSY, STATUS_INVALID_ARGUMENT,
    STATUS_NOT_SUPPORTED, STATUS_OK,
};

const DEVICE_BANNER: &[u8] =
    b"device::ro.product.name=fullerene;ro.product.model=Pixel 4a (5G);ro.product.device=bramble;";

fn adb_message(command: u32, arg0: u32, arg1: u32, checksum: u32, payload: &[u8]) -> Vec<u8> {
    let mut m = Vec::new();
    m.extend_from_slice(&command.to_le_bytes());
    m.extend_from_slice(&arg0.to_le_bytes());
    m.extend_from_slice(&arg1.to_le_bytes());
    m.extend_from_slice(&(payload.len() as u32).to_le_bytes());
    m.extend_from_slice(&checksum.to_le_bytes());
    m.extend_from_slice(&(command ^ u32::MAX).to_le_bytes());
    m.extend_from_slice(payload);
    m
}

fn byte_sum(payload: &[u8]) -> u32 {
    payload.iter().fold(0u32, |s, b| s.wrapping_add(*b as u32))
}

fn fdbg_request(version: u16, command: u16, request_id: u32, payload: &[u8]) -> Vec<u8> {
    let mut m = Vec::new();
    m.extend_from_slice(b"FDBG");
    m.extend_from_slice(&version.to_le_bytes());
    m.extend_from_slice(&command.to_le_bytes());
    m.extend_from_slice(&request_id.to_le_bytes());
    m.extend_from_slice(&(payload.len() as u32).to_le_bytes());
    m.extend_from_slice(payload);
    m
}

fn fdrp_response(command: u16, request_id: u32, status: i32, payload: &[u8]) -> Vec<u8> {
    let mut m = Vec::new();
    m.extend_from_slice(b"FDRP");
    m.extend_from_slice(&1u16.to_le_bytes());
    m.extend_from_slice(&command.to_le_bytes());
    m.extend_from_slice(&request_id.to_le_bytes());
    m.extend_from_slice(&status.to_le_bytes());
    m.extend_from_slice(&(payload.len() as u32).to_le_bytes());
    m.extend_from_slice(payload);
    m
}

fn trace() -> TraceStatus {
    TraceStatus { head: 0x1234, last_event: 0xabcd_0001 }
}

/// Deliver a host packet and, when a frame comes back, queue it.
fn send(t: &mut DebugTransport, packet: &[u8]) -> Option<OutFrame> {
    let reply = t.on_bulk_out(packet, false, trace());
    if let Some(frame) = &reply {
        t.transfer_queued(frame);
    }
    reply
}

/// Complete the pending IN transfer and queue any follow-up frame.
fn complete(t: &mut DebugTransport) -> (Option<OutFrame>, bool) {
    let (next, ret) = t.on_bulk_in_complete(false);
    if let Some(frame) = &next {
        t.transfer_queued(frame);
    }
    (next, ret)
}

fn connect(t: &mut DebugTransport, version: u32) -> OutFrame {
    let cnxn = adb_message(ADB_CNXN, version, 4096, 0, b"host::\0");
    let reply = send(t, &cnxn).expect("CNXN is answered");
    complete(t);
    reply
}

#[test]
fn parse_request_accepts_well_formed_frames() {
    let frame = fdbg_request(1, COMMAND_TRACE, 7, b"abc");
    let (command, id, payload) = parse_request(&frame).unwrap();
    assert_eq!(command, COMMAND_TRACE);
    assert_eq!(id, 7);
    assert_eq!(payload, b"abc");
}

#[test]
fn parse_request_rejects_bad_magic_version_and_truncation() {
    let mut bad_magic = fdbg_request(1, 1, 1, b"");
    bad_magic[0] = b'X';
    assert!(parse_request(&bad_magic).is_none());
    assert!(parse_request(&fdbg_request(2, 1, 1, b"")).is_none());
    let mut truncated = fdbg_request(1, 1, 1, b"abcd");
    truncated.pop();
    assert!(parse_request(&truncated).is_none());
    assert!(parse_request(b"FDBG").is_none());
    let mut too_long = fdbg_request(1, 1, 1, b"");
    too_long[12..16].copy_from_slice(&497u32.to_le_bytes());
    too_long.extend_from_slice(&[0u8; 497]);
    assert!(parse_request(&too_long).is_none());
    let mut max = fdbg_request(1, 1, 1, b"");
    max[12..16].copy_from_slice(&496u32.to_le_bytes());
    max.extend_from_slice(&[0u8; 496]);
    assert_eq!(parse_request(&max).unwrap().2.len(), 496);
}

#[test]
fn adb_checksum_is_the_byte_sum() {
    assert_eq!(adb_checksum(b""), 0);
    assert_eq!(adb_checksum(&[1, 2, 3, 250]), 256);
    assert_eq!(adb_checksum(b"host::\0"), byte_sum(b"host::\0"));
}

#[test]
fn parse_adb_request_checks_magic_length_and_checksum() {
    let ok = adb_message(ADB_OPEN, 5, 0, 0, b"shell:id\0");
    let (command, arg0, arg1, payload) = parse_adb_request(&ok).unwrap();
    assert_eq!((command, arg0, arg1), (ADB_OPEN, 5, 0));
    assert_eq!(payload, b"shell:id\0");

    let summed = adb_message(ADB_OPEN, 5, 0, byte_sum(b"shell"), b"shell");
    assert!(parse_adb_request(&summed).is_some());
    let wrong_sum = adb_message(ADB_OPEN, 5, 0, 1, b"shell");
    assert!(parse_adb_request(&wrong_sum).is_none());

    let mut bad_magic = adb_message(ADB_OKAY, 1, 2, 0, b"");
    bad_magic[20] ^= 1;
    assert!(parse_adb_request(&bad_magic).is_none());

    let mut short = adb_message(ADB_WRTE, 1, 2, 0, b"xyz");
    short.pop();
    assert!(parse_adb_request(&short).is_none());
    assert!(parse_adb_request(&[0u8; 23]).is_none());
}

#[test]
fn frames_have_the_documented_layout() {
    assert_eq!(
        build_response_frame(COMMAND_STATUS, 9, STATUS_BUSY, b"x"),
        fdrp_response(COMMAND_STATUS, 9, STATUS_BUSY, b"x")
    );
    assert_eq!(build_adb_frame(ADB_OKAY, 1, 2, 0, b""), adb_message(ADB_OKAY, 1, 2, 0, b""));
    let frame = build_adb_frame(ADB_WRTE, 3, 4, byte_sum(b"data"), b"data");
    assert_eq!(frame.len(), 28);
    let (command, arg0, arg1, payload) = parse_adb_request(&frame).unwrap();
    assert_eq!((command, arg0, arg1, payload), (ADB_WRTE, 3, 4, &b"data"[..]));
}

#[test]
fn byte_writer_refuses_what_does_not_fit() {
    let mut w = ByteWriter::new(6);
    assert!(w.write_str("sh: ").is_ok());
    assert_eq!(w.write_bytes(b"abc"), Err(WriteError::NoRoom));
    assert!(w.write_bytes(b"ab").is_ok());
    assert_eq!(w.length(), 6);
    assert_eq!(w.written, b"sh: ab".to_vec());
}

#[test]
fn trim_at_nul_cuts_at_the_first_nul() {
    assert_eq!(trim_at_nul(b"id\0junk"), b"id");
    assert_eq!(trim_at_nul(b"id"), b"id");
    assert_eq!(trim_at_nul(b"\0"), b"");
}

#[test]
fn shell_output_for_known_and_unknown_commands() {
    assert_eq!(
        shell_output(b"id", 488),
        b"uid=0(root) gid=0(root) groups=0(root) context=u:r:su:s0\n".to_vec()
    );
    assert_eq!(shell_output(b"", 488), shell_output(b"id", 488));
    assert_eq!(shell_output(b"getprop ro.hardware\0", 488), b"[bramble]\n".to_vec());
    assert_eq!(shell_output(b"uname -a", 488), b"Fullerene bramble 1.0.0 aarch64 GNU/Linux\n".to_vec());
    assert_eq!(shell_output(b"true", 488), Vec::<u8>::new());
    assert_eq!(shell_output(b"echo hello", 488), b"hello".to_vec());
    assert_eq!(shell_output(b"ls /", 488), b"sh: ls /: not found\n".to_vec());
    assert_eq!(shell_output(b"id", 4), b"uid=".to_vec());
    // Each piece of the not-found message is written only if it fits.
    assert_eq!(shell_output(b"ls", 7), b"sh: ls".to_vec());
    assert_eq!(shell_output(b"ls", 3), b"ls".to_vec());
}

#[test]
fn shell_exit_code_is_zero_only_for_known_commands() {
    assert_eq!(shell_exit_code(b"id"), 0);
    assert_eq!(shell_exit_code(b"echo x"), 0);
    assert_eq!(shell_exit_code(b"getprop\0ignored"), 0);
    assert_eq!(shell_exit_code(b"reboot"), 127);
    assert_eq!(shell_exit_code(b"echo"), 127);
}

#[test]
fn shell_v2_stdout_tags_and_truncates() {
    assert_eq!(shell_v2_stdout(b"hi", 10), vec![1, b'h', b'i']);
    assert_eq!(shell_v2_stdout(b"hello", 3), vec![1, b'h', b'e']);
    assert_eq!(shell_v2_stdout(b"hello", 0), Vec::<u8>::new());
}

#[test]
fn shell_services_are_recognised() {
    assert_eq!(parse_shell_service(b"shell"), Some((false, &b""[..])));
    assert_eq!(parse_shell_service(b"shell:id"), Some((false, &b"id"[..])));
    assert_eq!(parse_shell_service(b"shell,v2"), Some((true, &b""[..])));
    assert_eq!(parse_shell_service(b"shell,v2:ls"), Some((true, &b"ls"[..])));
    assert_eq!(parse_shell_service(b"shell,v2,raw:id"), Some((true, &b"id"[..])));
    assert_eq!(parse_shell_service(b"shell,v2,TERM:id"), Some((true, &b"id"[..])));
    assert_eq!(parse_shell_service(b"sync:"), None);
}

#[test]
fn status_payload_text() {
    assert_eq!(
        status_payload(0x1234, 0xabcd_0001, false),
        b"fullerene-debug/1\ntrace_head=00001234\nlast_event=abcd0001\nreturn=disabled\n".to_vec()
    );
    assert!(status_payload(0, 0, true).ends_with(b"return=enabled\n"));
}

#[test]
fn fdbg_status_trace_and_unknown_commands() {
    let mut t = DebugTransport::new(false);
    let status = send(&mut t, &fdbg_request(1, COMMAND_STATUS, 1, b"")).unwrap();
    assert_eq!(
        status.bytes,
        fdrp_response(COMMAND_STATUS, 1, STATUS_OK, &status_payload(0x1234, 0xabcd_0001, false))
    );
    assert!(!status.return_after);
    // A second request while the first response is pending is busy...
    assert_eq!(t.on_bulk_out(&fdbg_request(1, COMMAND_TRACE, 2, b""), false, trace()), None);
    // ...and the busy answer itself cannot be queued either.
    assert!(t.response_pending);
    complete(&mut t);

    let tr = send(&mut t, &fdbg_request(1, COMMAND_TRACE, 2, b"")).unwrap();
    let mut expected = Vec::new();
    expected.extend_from_slice(&0x1234u32.to_le_bytes());
    expected.extend_from_slice(&0xabcd_0001u32.to_le_bytes());
    assert_eq!(tr.bytes, fdrp_response(COMMAND_TRACE, 2, STATUS_OK, &expected));
    complete(&mut t);

    let unknown = send(&mut t, &fdbg_request(1, 99, 3, b"")).unwrap();
    assert_eq!(unknown.bytes, fdrp_response(99, 3, STATUS_NOT_SUPPORTED, b"unknown command\n"));
    complete(&mut t);

    let invalid = send(&mut t, b"garbage").unwrap();
    assert_eq!(invalid.bytes, fdrp_response(0, 0, STATUS_INVALID_ARGUMENT, b"invalid request\n"));
}

#[test]
fn fdbg_return_depends_on_the_build_switch() {
    let mut t = DebugTransport::new(false);
    let r = send(&mut t, &fdbg_request(1, COMMAND_RETURN, 4, b"")).unwrap();
    assert_eq!(
        r.bytes,
        fdrp_response(COMMAND_RETURN, 4, STATUS_NOT_SUPPORTED, b"return disabled at build time\n")
    );
    assert_eq!(complete(&mut t), (None, false));

    let mut t = DebugTransport::new(true);
    let r = send(&mut t, &fdbg_request(1, COMMAND_RETURN, 4, b"")).unwrap();
    assert_eq!(r.bytes, fdrp_response(COMMAND_RETURN, 4, STATUS_OK, b"returning\n"));
    assert!(r.return_after);
    let (next, ret) = complete(&mut t);
    assert!(next.is_none());
    assert!(ret);
}

#[test]
fn fdbg_shell_commands() {
    let mut t = DebugTransport::new(false);
    let help = send(&mut t, &fdbg_request(1, COMMAND_SHELL, 5, b"help")).unwrap();
    assert_eq!(help.bytes, fdrp_response(COMMAND_SHELL, 5, STATUS_OK, b"status trace help return\n"));
    complete(&mut t);
    let other = send(&mut t, &fdbg_request(1, COMMAND_SHELL, 6, b"ls")).unwrap();
    assert_eq!(
        other.bytes,
        fdrp_response(COMMAND_SHELL, 6, STATUS_NOT_SUPPORTED, b"command unavailable\n")
    );
    complete(&mut t);
    let status = send(&mut t, &fdbg_request(1, COMMAND_SHELL, 7, b"status")).unwrap();
    assert_eq!(
        status.bytes,
        fdrp_response(COMMAND_SHELL, 7, STATUS_OK, &status_payload(0x1234, 0xabcd_0001, false))
    );
}

#[test]
fn cnxn_answers_with_the_negotiated_version() {
    let mut t = DebugTransport::new(false);
    let reply = connect(&mut t, ADB_VERSION);
    assert_eq!(reply.bytes, adb_message(ADB_CNXN, ADB_VERSION, 4096, 0, DEVICE_BANNER));
    assert!(t.adb_connected && t.adb_skip_checksum);

    let mut t = DebugTransport::new(false);
    let reply = connect(&mut t, ADB_VERSION_ORIGINAL);
    assert_eq!(
        reply.bytes,
        adb_message(ADB_CNXN, ADB_VERSION_ORIGINAL, 4096, byte_sum(DEVICE_BANNER), DEVICE_BANNER)
    );
    assert!(t.adb_connected && !t.adb_skip_checksum);

    // Too old a version, or no maximum payload, is ignored.
    let mut t = DebugTransport::new(false);
    assert!(send(&mut t, &adb_message(ADB_CNXN, 0x0090_0000, 4096, 0, b"")).is_none());
    assert!(send(&mut t, &adb_message(ADB_CNXN, ADB_VERSION, 0, 0, b"")).is_none());
    assert!(!t.adb_connected);
}

#[test]
fn open_is_ignored_before_cnxn() {
    let mut t = DebugTransport::new(false);
    assert!(send(&mut t, &adb_message(ADB_OPEN, 5, 0, 0, b"shell:id\0")).is_none());
}

#[test]
fn shell_stream_writes_output_then_closes() {
    let mut t = DebugTransport::new(false);
    connect(&mut t, ADB_VERSION);
    let okay = send(&mut t, &adb_message(ADB_OPEN, 7, 0, 0, b"shell:echo hi\0")).unwrap();
    assert_eq!(okay.bytes, adb_message(ADB_OKAY, 2, 7, 0, b""));
    let (output, ret) = complete(&mut t);
    assert!(!ret);
    assert_eq!(output.unwrap().bytes, adb_message(ADB_WRTE, 2, 7, 0, b"hi"));
    complete(&mut t);
    let close = send(&mut t, &adb_message(ADB_OKAY, 7, 2, 0, b"")).unwrap();
    assert_eq!(close.bytes, adb_message(ADB_CLSE, 2, 7, 0, b""));
    complete(&mut t);
    // The stream is gone: another OKAY is not answered.
    assert!(send(&mut t, &adb_message(ADB_OKAY, 7, 2, 0, b"")).is_none());
}

#[test]
fn shell_v2_stream_writes_stdout_exit_then_closes() {
    let mut t = DebugTransport::new(false);
    connect(&mut t, ADB_VERSION);
    send(&mut t, &adb_message(ADB_OPEN, 9, 0, 0, b"shell,v2,raw:nope\0")).unwrap();
    let (output, _) = complete(&mut t);
    let mut stdout = vec![1u8];
    stdout.extend_from_slice(b"sh: nope: not found\n");
    assert_eq!(output.unwrap().bytes, adb_message(ADB_WRTE, 2, 9, 0, &stdout));
    complete(&mut t);
    let exit = send(&mut t, &adb_message(ADB_OKAY, 9, 2, 0, b"")).unwrap();
    assert_eq!(exit.bytes, adb_message(ADB_WRTE, 2, 9, 0, &[3, 127, 0, 0, 0]));
    complete(&mut t);
    let close = send(&mut t, &adb_message(ADB_OKAY, 9, 2, 0, b"")).unwrap();
    assert_eq!(close.bytes, adb_message(ADB_CLSE, 2, 9, 0, b""));
}

#[test]
fn write_on_an_open_stream_is_acknowledged() {
    let mut t = DebugTransport::new(false);
    connect(&mut t, ADB_VERSION);
    send(&mut t, &adb_message(ADB_OPEN, 3, 0, 0, b"shell\0")).unwrap();
    complete(&mut t);
    complete(&mut t);
    let ack = send(&mut t, &adb_message(ADB_WRTE, 3, 2, 0, b"input")).unwrap();
    assert_eq!(ack.bytes, adb_message(ADB_OKAY, 2, 3, 0, b""));
    complete(&mut t);
    // A write naming another stream is ignored.
    assert!(send(&mut t, &adb_message(ADB_WRTE, 4, 2, 0, b"input")).is_none());
}

#[test]
fn reboot_service_returns_only_when_enabled() {
    let mut t = DebugTransport::new(false);
    connect(&mut t, ADB_VERSION);
    let refused = send(&mut t, &adb_message(ADB_OPEN, 4, 0, 0, b"reboot:bootloader\0")).unwrap();
    assert_eq!(refused.bytes, adb_message(ADB_CLSE, 0, 4, 0, b""));
    assert_eq!(complete(&mut t), (None, false));

    let mut t = DebugTransport::new(true);
    connect(&mut t, ADB_VERSION);
    let okay = send(&mut t, &adb_message(ADB_OPEN, 4, 0, 0, b"reboot\0")).unwrap();
    assert_eq!(okay.bytes, adb_message(ADB_OKAY, 2, 4, 0, b""));
    assert!(okay.return_after);
    let (next, ret) = complete(&mut t);
    assert!(next.is_none());
    assert!(ret);
}

#[test]
fn unknown_service_and_bad_open_are_closed() {
    let mut t = DebugTransport::new(false);
    connect(&mut t, ADB_VERSION);
    let c = send(&mut t, &adb_message(ADB_OPEN, 4, 0, 0, b"sync:\0")).unwrap();
    assert_eq!(c.bytes, adb_message(ADB_CLSE, 0, 4, 0, b""));
    complete(&mut t);
    let c = send(&mut t, &adb_message(ADB_OPEN, 0, 0, 0, b"shell\0")).unwrap();
    assert_eq!(c.bytes, adb_message(ADB_CLSE, 0, 0, 0, b""));
    complete(&mut t);
    let c = send(&mut t, &adb_message(ADB_OPEN, 4, 0, 0, b"")).unwrap();
    assert_eq!(c.bytes, adb_message(ADB_CLSE, 0, 4, 0, b""));
}

#[test]
fn host_close_ends_the_stream() {
    let mut t = DebugTransport::new(false);
    connect(&mut t, ADB_VERSION);
    send(&mut t, &adb_message(ADB_OPEN, 6, 0, 0, b"shell:id\0")).unwrap();
    assert!(send(&mut t, &adb_message(ADB_CLSE, 6, 2, 0, b"")).is_none());
    // The pending OKAY completes, but no shell output follows any more.
    assert_eq!(complete(&mut t), (None, false));
    assert_eq!(t.adb_host_id, 0);
}

#[test]
fn failed_transfer_clears_pending_work() {
    let mut t = DebugTransport::new(true);
    let r = send(&mut t, &fdbg_request(1, COMMAND_RETURN, 1, b"")).unwrap();
    assert!(r.return_after);
    assert_eq!(t.on_bulk_in_complete(true).1, false);
    assert!(!t.response_pending);
    assert!(!t.return_after_response);
}

#[test]
fn reset_forgets_the_connection() {
    let mut t = DebugTransport::new(false);
    connect(&mut t, ADB_VERSION);
    send(&mut t, &adb_message(ADB_OPEN, 6, 0, 0, b"shell:id\0")).unwrap();
    t.reset();
    assert!(!t.adb_connected && !t.response_pending);
    assert_eq!(t.adb_device_id, 1);
    assert!(send(&mut t, &adb_message(ADB_OPEN, 6, 0, 0, b"shell:id\0")).is_none());
}

#[test]
fn error_packets_are_ignored() {
    let mut t = DebugTransport::new(false);
    assert!(t.on_bulk_out(&fdbg_request(1, COMMAND_STATUS, 1, b""), true, trace()).is_none());
}

#[test]
fn shell_reads_a_command_up_to_its_first_nul() {
    assert_eq!(shell_output(b"uname -a\0ls /", 488), shell_output(b"uname -a", 488));
    assert_eq!(shell_output(b"ls /\0id", 488), shell_output(b"ls /", 488));
    assert_eq!(shell_exit_code(b"ls /\0id"), shell_exit_code(b"ls /"));
    assert_eq!(shell_exit_code(b"id\0ls /"), 0);
}
