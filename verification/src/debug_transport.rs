//! Control transports carried over the bulk EP2 OUT / EP3 IN pair.
//!
//! Two framings share the pair: the bring-up `FDBG`/`FDRP` request/response
//! channel and the AOSP ADB transport (CNXN/OPEN/OKAY/WRTE/CLSE) with a small
//! fixed service set. The transport is a state machine: every bulk event is
//! handed to it, and it answers with at most one frame for the caller to
//! queue on EP3 IN. The caller reports back whether the controller accepted
//! the frame, since only an accepted frame makes a response pending.

use vstd::prelude::*;
use vstd::string::StringSliceAdditionalSpecFns;
use crate::bytes::{
    ascii, bytes_equal, get_le16, get_le32, le16, le32, lemma_le16_roundtrip, lemma_le32_roundtrip,
    hex8, literal, push_bytes, push_hex8, push_le16, push_le32, read_le16, read_le32, strip_prefix,
};

verus! {

pub const REQUEST_HEADER_BYTES: usize = 16;
pub const RESPONSE_HEADER_BYTES: usize = 20;
pub const MAX_FRAME_BYTES: usize = 512;
pub const MAX_PAYLOAD_BYTES: usize = 492;
pub const VERSION: u16 = 1;

pub const COMMAND_STATUS: u16 = 1;
pub const COMMAND_TRACE: u16 = 2;
pub const COMMAND_RETURN: u16 = 3;
pub const COMMAND_SHELL: u16 = 4;

pub const STATUS_OK: i32 = 0;
pub const STATUS_INVALID_ARGUMENT: i32 = -22;
pub const STATUS_NOT_SUPPORTED: i32 = -95;
pub const STATUS_BUSY: i32 = -16;

pub const ADB_CNXN: u32 = 0x4e58_4e43;
pub const ADB_OPEN: u32 = 0x4e45_504f;
pub const ADB_OKAY: u32 = 0x5941_4b4f;
pub const ADB_CLSE: u32 = 0x4553_4c43;
pub const ADB_WRTE: u32 = 0x4554_5257;
pub const ADB_VERSION_ORIGINAL: u32 = 0x0100_0000;
pub const ADB_VERSION: u32 = 0x0100_0001;
pub const ADB_MAX_DATA: usize = 4096;
pub const ADB_HEADER_BYTES: usize = 24;
pub const ADB_STREAM_NONE: u8 = 0;
pub const ADB_STREAM_RETURN: u8 = 1;
pub const ADB_STREAM_SHELL: u8 = 2;
pub const ADB_STREAM_SHELL_V2: u8 = 3;
pub const ADB_SHELL_FOLLOWUP_OUTPUT: u8 = 1;
pub const ADB_SHELL_COMMAND_CAPACITY: usize = 128;
pub const ADB_SHELL_V2_STDOUT: u8 = 1;
pub const ADB_SHELL_V2_EXIT: u8 = 3;
/// Room left for an ADB payload inside one response frame.
pub const ADB_FRAME_PAYLOAD_BYTES: usize = 488;

// ---------------------------------------------------------------------------
// Wire formats
// ---------------------------------------------------------------------------

/// A bring-up request frame: magic `FDBG`, version, command, request id,
/// payload length, then the payload.
pub open spec fn request_frame(version: u16, command: u16, request_id: u32, payload: Seq<u8>) -> Seq<
    u8,
> {
    ascii("FDBG"@) + le16(version) + le16(command) + le32(request_id) + le32(
        payload.len() as u32,
    ) + payload
}

/// A bring-up response frame: magic `FDRP`, version 1, command, request id,
/// status, payload length, then the payload.
pub open spec fn response_frame(command: u16, request_id: u32, status: i32, payload: Seq<u8>) -> Seq<
    u8,
> {
    ascii("FDRP"@) + le16(1) + le16(command) + le32(request_id) + le32(status as u32) + le32(
        payload.len() as u32,
    ) + payload
}

/// An ADB message: six little-endian words (command, arg0, arg1, payload
/// length, checksum, command complement) followed by the payload.
pub open spec fn adb_frame(command: u32, arg0: u32, arg1: u32, checksum: u32, payload: Seq<u8>) -> Seq<
    u8,
> {
    le32(command) + le32(arg0) + le32(arg1) + le32(payload.len() as u32) + le32(checksum) + le32(
        command ^ 0xffff_ffffu32,
    ) + payload
}

/// Sum of the bytes of a payload.
pub open spec fn byte_sum(s: Seq<u8>) -> nat
    decreases s.len(),
{
    if s.len() == 0 {
        0
    } else {
        byte_sum(s.drop_last()) + s.last() as nat
    }
}

/// The legacy ADB payload checksum: the byte sum modulo 2^32.
pub open spec fn spec_adb_checksum(payload: Seq<u8>) -> u32 {
    (byte_sum(payload) % 0x1_0000_0000) as u32
}

/// What a bring-up request parses to, if it is well formed: at least a full
/// header, the `FDBG` magic, version 1, a payload that fits in one frame and
/// is present in full.
pub open spec fn spec_parse_request(d: Seq<u8>) -> Option<(u16, u32, Seq<u8>)> {
    let length = read_le32(d, 12) as int;
    if d.len() >= 16 && d.subrange(0, 4) == ascii("FDBG"@) && read_le16(d, 4) == 1 && length
        <= 496 && 16 + length <= d.len() {
        Some((read_le16(d, 6), read_le32(d, 8), d.subrange(16, 16 + length)))
    } else {
        None
    }
}

/// What an ADB message parses to, if it is well formed: a full header, the
/// command complement, a payload of at most 4096 bytes present in full, and
/// either an elided (zero) or a matching checksum.
pub open spec fn spec_parse_adb(d: Seq<u8>) -> Option<(u32, u32, u32, Seq<u8>)> {
    let length = read_le32(d, 12) as int;
    let payload = d.subrange(24, 24 + length);
    let checksum = read_le32(d, 16);
    if d.len() >= 24 && read_le32(d, 20) == read_le32(d, 0) ^ 0xffff_ffffu32 && length <= 4096
        && 24 + length <= d.len() && (checksum == 0 || checksum == spec_adb_checksum(payload)) {
        Some((read_le32(d, 0), read_le32(d, 4), read_le32(d, 8), payload))
    } else {
        None
    }
}

/// Parse a bring-up request.
pub fn parse_request(data: &[u8]) -> (r: Option<(u16, u32, &[u8])>)
    ensures
        match r {
            Some((command, request_id, payload)) => spec_parse_request(data@) == Some(
                (command, request_id, payload@),
            ),
            None => spec_parse_request(data@) is None,
        },
{
    if data.len() < REQUEST_HEADER_BYTES {
        return None;
    }
    proof {
        reveal_strlit("FDBG");
    }
    let magic = vstd::slice::slice_subrange(data, 0, 4);
    if !bytes_equal(magic, literal("FDBG")) {
        return None;
    }
    let version = get_le16(data, 4);
    if version != VERSION {
        return None;
    }
    let command = get_le16(data, 6);
    let request_id = get_le32(data, 8);
    let payload_length = get_le32(data, 12) as usize;
    if payload_length > MAX_FRAME_BYTES - REQUEST_HEADER_BYTES {
        return None;
    }
    let end = REQUEST_HEADER_BYTES + payload_length;
    if end > data.len() {
        return None;
    }
    Some((command, request_id, vstd::slice::slice_subrange(data, REQUEST_HEADER_BYTES, end)))
}

/// The legacy ADB checksum of a payload.
pub fn adb_checksum(payload: &[u8]) -> (checksum: u32)
    ensures
        checksum == spec_adb_checksum(payload@),
{
    let mut checksum: u32 = 0;
    let mut i: usize = 0;
    while i < payload.len()
        invariant
            i <= payload@.len(),
            checksum == spec_adb_checksum(payload@.subrange(0, i as int)),
        decreases payload.len() - i,
    {
        let ghost before = payload@.subrange(0, i as int);
        let ghost after = payload@.subrange(0, (i + 1) as int);
        assert(after.drop_last() =~= before);
        assert(byte_sum(after) == byte_sum(before) + payload@[i as int]);
        checksum = checksum.wrapping_add(payload[i] as u32);
        i += 1;
    }
    assert(payload@.subrange(0, payload@.len() as int) =~= payload@);
    checksum
}

/// Parse an ADB message.
pub fn parse_adb_request(data: &[u8]) -> (r: Option<(u32, u32, u32, &[u8])>)
    ensures
        match r {
            Some((command, arg0, arg1, payload)) => spec_parse_adb(data@) == Some(
                (command, arg0, arg1, payload@),
            ),
            None => spec_parse_adb(data@) is None,
        },
{
    if data.len() < ADB_HEADER_BYTES {
        return None;
    }
    let command = get_le32(data, 0);
    let arg0 = get_le32(data, 4);
    let arg1 = get_le32(data, 8);
    let payload_length = get_le32(data, 12) as usize;
    let checksum = get_le32(data, 16);
    let magic = get_le32(data, 20);
    if magic != command ^ u32::MAX || payload_length > ADB_MAX_DATA {
        return None;
    }
    let end = ADB_HEADER_BYTES + payload_length;
    if end > data.len() {
        return None;
    }
    let payload = vstd::slice::slice_subrange(data, ADB_HEADER_BYTES, end);
    if checksum != 0 && checksum != adb_checksum(payload) {
        return None;
    }
    Some((command, arg0, arg1, payload))
}

} // verus!

verus! {

// ---------------------------------------------------------------------------
// Frame builders and round trips
// ---------------------------------------------------------------------------

/// Build a bring-up response frame.
pub fn build_response_frame(command: u16, request_id: u32, status: i32, payload: &[u8]) -> (frame:
    Vec<u8>)
    requires
        payload@.len() <= MAX_PAYLOAD_BYTES,
    ensures
        frame@ == response_frame(command, request_id, status, payload@),
        frame@.len() == RESPONSE_HEADER_BYTES + payload@.len(),
{
    proof {
        reveal_strlit("FDRP");
    }
    let mut frame: Vec<u8> = Vec::new();
    push_bytes(&mut frame, literal("FDRP"));
    push_le16(&mut frame, VERSION);
    push_le16(&mut frame, command);
    push_le32(&mut frame, request_id);
    push_le32(&mut frame, status as u32);
    push_le32(&mut frame, payload.len() as u32);
    push_bytes(&mut frame, payload);
    frame
}

/// Build an ADB message.
pub fn build_adb_frame(command: u32, arg0: u32, arg1: u32, checksum: u32, payload: &[u8]) -> (frame:
    Vec<u8>)
    requires
        payload@.len() <= ADB_MAX_DATA,
    ensures
        frame@ == adb_frame(command, arg0, arg1, checksum, payload@),
        frame@.len() == ADB_HEADER_BYTES + payload@.len(),
{
    let mut frame: Vec<u8> = Vec::new();
    push_le32(&mut frame, command);
    push_le32(&mut frame, arg0);
    push_le32(&mut frame, arg1);
    push_le32(&mut frame, payload.len() as u32);
    push_le32(&mut frame, checksum);
    push_le32(&mut frame, command ^ u32::MAX);
    push_bytes(&mut frame, payload);
    frame
}

/// Every ADB message this transport can build parses back to the same
/// command, arguments and payload, whether its checksum is elided or
/// computed.
pub proof fn lemma_adb_frame_roundtrip(
    command: u32,
    arg0: u32,
    arg1: u32,
    checksum: u32,
    payload: Seq<u8>,
)
    requires
        payload.len() <= ADB_MAX_DATA,
        checksum == 0 || checksum == spec_adb_checksum(payload),
    ensures
        spec_parse_adb(adb_frame(command, arg0, arg1, checksum, payload)) == Some(
            (command, arg0, arg1, payload),
        ),
{
    let f = adb_frame(command, arg0, arg1, checksum, payload);
    let len = payload.len() as u32;
    let c = command ^ 0xffff_ffffu32;
    let h = le32(command) + le32(arg0) + le32(arg1) + le32(len) + le32(checksum) + le32(c);
    assert(f == h + payload);
    assert(h.len() == 24);
    assert(read_le32(f, 0) == command) by {
        lemma_le32_at(f, 0, command);
    }
    assert(read_le32(f, 4) == arg0) by {
        lemma_le32_at(f, 4, arg0);
    }
    assert(read_le32(f, 8) == arg1) by {
        lemma_le32_at(f, 8, arg1);
    }
    assert(read_le32(f, 12) == len) by {
        lemma_le32_at(f, 12, len);
    }
    assert(read_le32(f, 16) == checksum) by {
        lemma_le32_at(f, 16, checksum);
    }
    assert(read_le32(f, 20) == c) by {
        lemma_le32_at(f, 20, c);
    }
    assert(f.subrange(24, 24 + payload.len() as int) =~= payload);
}

/// A 32-bit field read where its four little-endian bytes stand.
pub proof fn lemma_le32_at(s: Seq<u8>, at: int, v: u32)
    requires
        0 <= at,
        at + 4 <= s.len(),
        s[at] == le32(v)[0],
        s[at + 1] == le32(v)[1],
        s[at + 2] == le32(v)[2],
        s[at + 3] == le32(v)[3],
    ensures
        read_le32(s, at) == v,
{
    lemma_le32_roundtrip(v, s.subrange(0, at), s.subrange(at + 4, s.len() as int));
    assert(s =~= s.subrange(0, at) + le32(v) + s.subrange(at + 4, s.len() as int));
}

/// A 16-bit field read where its two little-endian bytes stand.
pub proof fn lemma_le16_at(s: Seq<u8>, at: int, v: u16)
    requires
        0 <= at,
        at + 2 <= s.len(),
        s[at] == le16(v)[0],
        s[at + 1] == le16(v)[1],
    ensures
        read_le16(s, at) == v,
{
    lemma_le16_roundtrip(v, s.subrange(0, at), s.subrange(at + 2, s.len() as int));
    assert(s =~= s.subrange(0, at) + le16(v) + s.subrange(at + 2, s.len() as int));
}

/// Every bring-up request written with version 1 and a payload that fits in
/// one frame parses back to its command, request id and payload.
pub proof fn lemma_request_frame_roundtrip(command: u16, request_id: u32, payload: Seq<u8>)
    requires
        payload.len() <= MAX_FRAME_BYTES - REQUEST_HEADER_BYTES,
    ensures
        spec_parse_request(request_frame(1, command, request_id, payload)) == Some(
            (command, request_id, payload),
        ),
{
    reveal_strlit("FDBG");
    let m = ascii("FDBG"@);
    let len = payload.len() as u32;
    let f = request_frame(1, command, request_id, payload);
    assert(m.len() == 4);
    assert(read_le16(f, 4) == 1) by {
        lemma_le16_at(f, 4, 1);
    }
    assert(read_le16(f, 6) == command) by {
        lemma_le16_at(f, 6, command);
    }
    assert(read_le32(f, 8) == request_id) by {
        lemma_le32_at(f, 8, request_id);
    }
    assert(read_le32(f, 12) == len) by {
        lemma_le32_at(f, 12, len);
    }
    assert(f.subrange(0, 4) =~= m);
    assert(f.subrange(16, 16 + payload.len() as int) =~= payload);
}

// ---------------------------------------------------------------------------
// Bounded text writer
// ---------------------------------------------------------------------------

/// A writer refused a piece that did not fit in the remaining room.
#[derive(Debug, Clone, Copy, PartialEq, Eq)]
pub enum WriteError {
    NoRoom,
}

/// `written` with `value` appended when it fits in `capacity`, else unchanged.
pub open spec fn append_if_fits(written: Seq<u8>, capacity: nat, value: Seq<u8>) -> Seq<u8> {
    if written.len() + value.len() <= capacity {
        written + value
    } else {
        written
    }
}

/// A writer into a buffer of fixed capacity. A piece is written whole or,
/// when it does not fit, not at all.
pub struct ByteWriter {
    pub capacity: usize,
    pub written: Vec<u8>,
}

impl ByteWriter {
    /// The writer's buffer never holds more than its capacity.
    pub open spec fn wf(&self) -> bool {
        self.written@.len() <= self.capacity
    }

    /// A writer with nothing written into a buffer of `capacity` bytes.
    pub fn new(capacity: usize) -> (w: Self)
        ensures
            w.capacity == capacity,
            w.written@ == Seq::<u8>::empty(),
            w.wf(),
    {
        ByteWriter { capacity, written: Vec::new() }
    }

    /// Number of bytes written so far.
    pub fn length(&self) -> (n: usize)
        ensures
            n == self.written@.len(),
    {
        self.written.len()
    }

    /// Append `value` if it fits in the remaining room.
    pub fn write_bytes(&mut self, value: &[u8]) -> (r: Result<(), WriteError>)
        requires
            old(self).wf(),
        ensures
            final(self).wf(),
            final(self).capacity == old(self).capacity,
            final(self).written@ == append_if_fits(
                old(self).written@,
                old(self).capacity as nat,
                value@,
            ),
            r is Ok <==> old(self).written@.len() + value@.len() <= old(self).capacity,
    {
        let remaining = self.capacity - self.written.len();
        if value.len() > remaining {
            return Err(WriteError::NoRoom);
        }
        crate::bytes::push_bytes(&mut self.written, value);
        Ok(())
    }

    /// Append the bytes of `value` if they fit in the remaining room.
    pub fn write_str(&mut self, value: &str) -> (r: Result<(), WriteError>)
        requires
            old(self).wf(),
        ensures
            final(self).wf(),
            final(self).capacity == old(self).capacity,
            final(self).written@ == append_if_fits(
                old(self).written@,
                old(self).capacity as nat,
                value.spec_bytes(),
            ),
            r is Ok <==> old(self).written@.len() + value.spec_bytes().len()
                <= old(self).capacity,
    {
        self.write_bytes(value.as_bytes())
    }
}

} // verus!

verus! {

// ---------------------------------------------------------------------------
// Shell service
// ---------------------------------------------------------------------------

/// The bytes before the first NUL (all of them when there is none).
pub open spec fn until_nul(s: Seq<u8>) -> Seq<u8>
    decreases s.len(),
{
    if s.len() == 0 {
        s
    } else if s[0] == 0 {
        Seq::empty()
    } else {
        seq![s[0]] + until_nul(s.drop_first())
    }
}

proof fn lemma_until_nul(s: Seq<u8>, i: int)
    requires
        0 <= i <= s.len(),
        forall|j: int| 0 <= j < i ==> s[j] != 0,
        i == s.len() || s[i] == 0,
    ensures
        until_nul(s) == s.subrange(0, i),
    decreases s.len(),
{
    if s.len() == 0 {
        assert(s.subrange(0, i) =~= s);
    } else if s[0] == 0 {
        assert(s.subrange(0, i) =~= Seq::<u8>::empty());
    } else {
        lemma_until_nul(s.drop_first(), i - 1);
        assert(seq![s[0]] + s.drop_first().subrange(0, i - 1) =~= s.subrange(0, i));
    }
}

/// The part of `s` before its first NUL byte.
pub fn trim_at_nul(s: &[u8]) -> (r: &[u8])
    ensures
        r@ == until_nul(s@),
{
    let mut i: usize = 0;
    while i < s.len()
        invariant
            i <= s@.len(),
            forall|j: int| 0 <= j < i ==> s@[j] != 0,
        ensures
            i <= s@.len(),
            forall|j: int| 0 <= j < i ==> s@[j] != 0,
            i == s@.len() || s@[i as int] == 0,
        decreases s.len() - i,
    {
        if s[i] == 0 {
            break;
        }
        i += 1;
    }
    proof {
        lemma_until_nul(s@, i as int);
    }
    vstd::slice::slice_subrange(s, 0, i)
}

/// The fixed reply of the bounded shell to a command (already cut at its
/// first NUL), or `None` for a command it does not know.
pub open spec fn shell_text(c: Seq<u8>) -> Option<Seq<u8>> {
    if c == ascii(""@) || c == ascii("id"@) {
        Some(ascii("uid=0(root) gid=0(root) groups=0(root) context=u:r:su:s0\n"@))
    } else if c == ascii("getprop"@) {
        Some(
            ascii(
                "[ro.debuggable]: [1]\n[ro.hardware]: [bramble]\n[ro.property_service.version]: [2]\n"@,
            ),
        )
    } else if c == ascii("getprop ro.debuggable"@) {
        Some(ascii("[1]\n"@))
    } else if c == ascii("getprop ro.hardware"@) {
        Some(ascii("[bramble]\n"@))
    } else if c == ascii("getprop ro.property_service.version"@) {
        Some(ascii("[2]\n"@))
    } else if c == ascii("uname"@) || c == ascii("uname -a"@) {
        Some(ascii("Fullerene bramble 1.0.0 aarch64 GNU/Linux\n"@))
    } else if c == ascii("status"@) {
        Some(ascii("fullerene-debug/1\nreturn=enabled-or-build-gated\n"@))
    } else if c == ascii("true"@) {
        Some(Seq::empty())
    } else if 5 <= c.len() && c.subrange(0, 5) == ascii("echo "@) {
        Some(c.subrange(5, c.len() as int))
    } else {
        None
    }
}

/// The reply text of a known command.
fn known_shell_text(c: &[u8]) -> (r: Option<&[u8]>)
    ensures
        match r {
            Some(t) => shell_text(c@) == Some(t@),
            None => shell_text(c@) is None,
        },
{
    proof {
        reveal_strlit("");
        reveal_strlit("id");
        reveal_strlit("uid=0(root) gid=0(root) groups=0(root) context=u:r:su:s0\n");
        reveal_strlit("getprop");
        reveal_strlit(
            "[ro.debuggable]: [1]\n[ro.hardware]: [bramble]\n[ro.property_service.version]: [2]\n",
        );
        reveal_strlit("getprop ro.debuggable");
        reveal_strlit("[1]\n");
        reveal_strlit("getprop ro.hardware");
        reveal_strlit("[bramble]\n");
        reveal_strlit("getprop ro.property_service.version");
        reveal_strlit("[2]\n");
        reveal_strlit("uname");
        reveal_strlit("uname -a");
        reveal_strlit("Fullerene bramble 1.0.0 aarch64 GNU/Linux\n");
        reveal_strlit("status");
        reveal_strlit("fullerene-debug/1\nreturn=enabled-or-build-gated\n");
        reveal_strlit("true");
        reveal_strlit("echo ");
    }
    if bytes_equal(c, literal("")) || bytes_equal(c, literal("id")) {
        Some(literal("uid=0(root) gid=0(root) groups=0(root) context=u:r:su:s0\n"))
    } else if bytes_equal(c, literal("getprop")) {
        Some(
            literal(
                "[ro.debuggable]: [1]\n[ro.hardware]: [bramble]\n[ro.property_service.version]: [2]\n",
            ),
        )
    } else if bytes_equal(c, literal("getprop ro.debuggable")) {
        Some(literal("[1]\n"))
    } else if bytes_equal(c, literal("getprop ro.hardware")) {
        Some(literal("[bramble]\n"))
    } else if bytes_equal(c, literal("getprop ro.property_service.version")) {
        Some(literal("[2]\n"))
    } else if bytes_equal(c, literal("uname")) || bytes_equal(c, literal("uname -a")) {
        Some(literal("Fullerene bramble 1.0.0 aarch64 GNU/Linux\n"))
    } else if bytes_equal(c, literal("status")) {
        Some(literal("fullerene-debug/1\nreturn=enabled-or-build-gated\n"))
    } else if bytes_equal(c, literal("true")) {
        Some(literal(""))
    } else {
        strip_prefix(c, literal("echo "))
    }
}

/// The first `n` bytes of `s`, or all of it when it is shorter.
pub open spec fn truncate(s: Seq<u8>, n: nat) -> Seq<u8> {
    if s.len() <= n {
        s
    } else {
        s.subrange(0, n as int)
    }
}

/// What the bounded shell writes for a command into a buffer of `capacity`
/// bytes: the known reply (cut to the buffer), or `sh: <command>: not
/// found`, each of its three pieces written only if it fits.
pub open spec fn spec_shell_output(command: Seq<u8>, capacity: nat) -> Seq<u8> {
    let c = until_nul(command);
    match shell_text(c) {
        Some(t) => truncate(t, capacity),
        None => append_if_fits(
            append_if_fits(append_if_fits(Seq::empty(), capacity, ascii("sh: "@)), capacity, c),
            capacity,
            ascii(": not found\n"@),
        ),
    }
}

proof fn lemma_until_nul_idempotent(s: Seq<u8>)
    ensures
        until_nul(until_nul(s)) == until_nul(s),
    decreases s.len(),
{
    if s.len() > 0 && s[0] != 0 {
        lemma_until_nul_idempotent(s.drop_first());
        let t = until_nul(s);
        assert(t == seq![s[0]] + until_nul(s.drop_first()));
        assert(t[0] == s[0]);
        assert(t.drop_first() =~= until_nul(s.drop_first()));
    }
}

/// The shell reads a command only up to its first NUL: a command and its
/// part before the first NUL give the same output and the same exit status.
pub proof fn lemma_shell_reads_until_nul(command: Seq<u8>, capacity: nat)
    ensures
        spec_shell_output(until_nul(command), capacity) == spec_shell_output(command, capacity),
        spec_shell_exit_code(until_nul(command)) == spec_shell_exit_code(command),
{
    lemma_until_nul_idempotent(command);
}

/// The exit status the bounded shell reports for a command: 0 for a command
/// it knows, 127 otherwise.
pub open spec fn spec_shell_exit_code(command: Seq<u8>) -> u32 {
    if shell_text(until_nul(command)) is Some {
        0
    } else {
        127
    }
}

/// A command without a NUL byte is read whole.
proof fn lemma_no_nul_command(c: Seq<u8>)
    requires
        forall|j: int| 0 <= j < c.len() ==> c[j] != 0,
    ensures
        until_nul(c) == c,
{
    lemma_until_nul(c, c.len() as int);
    assert(c.subrange(0, c.len() as int) =~= c);
}

/// The kernel line the shell prints for `uname`.
pub open spec fn uname_line() -> Seq<u8> {
    ascii("Fullerene bramble 1.0.0 aarch64 GNU/Linux\n"@)
}

/// `uname` and `uname -a` are the same command: for every buffer size both
/// print the kernel line (cut to the buffer) and exit 0.
pub proof fn lemma_shell_uname(capacity: nat)
    ensures
        spec_shell_output(ascii("uname"@), capacity) == truncate(uname_line(), capacity),
        spec_shell_output(ascii("uname -a"@), capacity) == truncate(uname_line(), capacity),
        spec_shell_output(ascii("uname"@), capacity) == spec_shell_output(ascii("uname -a"@), capacity),
        spec_shell_exit_code(ascii("uname"@)) == 0,
        spec_shell_exit_code(ascii("uname -a"@)) == 0,
{
    reveal_strlit("");
    reveal_strlit("id");
    reveal_strlit("getprop");
    reveal_strlit("getprop ro.debuggable");
    reveal_strlit("getprop ro.hardware");
    reveal_strlit("getprop ro.property_service.version");
    reveal_strlit("uname");
    reveal_strlit("uname -a");
    let u = ascii("uname"@);
    let ua = ascii("uname -a"@);
    assert(u =~= seq![117u8, 110, 97, 109, 101]);
    assert(ua =~= seq![117u8, 110, 97, 109, 101, 32, 45, 97]);
    lemma_no_nul_command(u);
    lemma_no_nul_command(ua);
    assert(u != ascii(""@) && u != ascii("id"@) && u != ascii("getprop"@));
    assert(u != ascii("getprop ro.debuggable"@) && u != ascii("getprop ro.hardware"@));
    assert(u != ascii("getprop ro.property_service.version"@));
    assert(ua != ascii(""@) && ua != ascii("id"@) && ua != ascii("getprop"@));
    assert(ua != ascii("getprop ro.debuggable"@) && ua != ascii("getprop ro.hardware"@));
    assert(ua != ascii("getprop ro.property_service.version"@));
    assert(ua != ascii("uname"@));
}

/// The bounded shell's fixed commands, for every buffer size: the empty
/// command and `id` print the root identity, `getprop` prints the three
/// properties and `getprop <name>` the one named, `status` prints the
/// transport status, `true` prints nothing; each exits 0.
pub proof fn lemma_shell_command_table(capacity: nat)
    ensures
        spec_shell_output(Seq::empty(), capacity) == truncate(ascii("uid=0(root) gid=0(root) groups=0(root) context=u:r:su:s0\n"@), capacity),
        spec_shell_exit_code(Seq::empty()) == 0,
        spec_shell_output(ascii("id"@), capacity) == truncate(ascii("uid=0(root) gid=0(root) groups=0(root) context=u:r:su:s0\n"@), capacity),
        spec_shell_exit_code(ascii("id"@)) == 0,
        spec_shell_output(ascii("getprop"@), capacity) == truncate(ascii("[ro.debuggable]: [1]\n[ro.hardware]: [bramble]\n[ro.property_service.version]: [2]\n"@), capacity),
        spec_shell_exit_code(ascii("getprop"@)) == 0,
        spec_shell_output(ascii("getprop ro.debuggable"@), capacity) == truncate(ascii("[1]\n"@), capacity),
        spec_shell_exit_code(ascii("getprop ro.debuggable"@)) == 0,
        spec_shell_output(ascii("getprop ro.hardware"@), capacity) == truncate(ascii("[bramble]\n"@), capacity),
        spec_shell_exit_code(ascii("getprop ro.hardware"@)) == 0,
        spec_shell_output(ascii("getprop ro.property_service.version"@), capacity) == truncate(ascii("[2]\n"@), capacity),
        spec_shell_exit_code(ascii("getprop ro.property_service.version"@)) == 0,
        spec_shell_output(ascii("status"@), capacity) == truncate(ascii("fullerene-debug/1\nreturn=enabled-or-build-gated\n"@), capacity),
        spec_shell_exit_code(ascii("status"@)) == 0,
        spec_shell_output(ascii("true"@), capacity) == Seq::<u8>::empty(),
        spec_shell_exit_code(ascii("true"@)) == 0,
{
    reveal_strlit("");
    reveal_strlit("id");
    reveal_strlit("getprop");
    reveal_strlit("getprop ro.debuggable");
    reveal_strlit("getprop ro.hardware");
    reveal_strlit("getprop ro.property_service.version");
    reveal_strlit("uname");
    reveal_strlit("uname -a");
    reveal_strlit("status");
    reveal_strlit("true");
    reveal_strlit("echo ");
    assert(ascii(""@) =~= Seq::<u8>::empty());
    assert(ascii("id"@) =~= seq![105u8, 100]);
    assert(ascii("getprop"@) =~= seq![103u8, 101, 116, 112, 114, 111, 112]);
    assert(ascii("getprop ro.debuggable"@) =~= seq![103u8, 101, 116, 112, 114, 111, 112, 32, 114, 111, 46, 100, 101, 98, 117, 103, 103, 97, 98, 108, 101]);
    assert(ascii("getprop ro.hardware"@) =~= seq![103u8, 101, 116, 112, 114, 111, 112, 32, 114, 111, 46, 104, 97, 114, 100, 119, 97, 114, 101]);
    assert(ascii("getprop ro.property_service.version"@) =~= seq![103u8, 101, 116, 112, 114, 111, 112, 32, 114, 111, 46, 112, 114, 111, 112, 101, 114, 116, 121, 95, 115, 101, 114, 118, 105, 99, 101, 46, 118, 101, 114, 115, 105, 111, 110]);
    assert(ascii("uname"@) =~= seq![117u8, 110, 97, 109, 101]);
    assert(ascii("uname -a"@) =~= seq![117u8, 110, 97, 109, 101, 32, 45, 97]);
    assert(ascii("status"@) =~= seq![115u8, 116, 97, 116, 117, 115]);
    assert(ascii("true"@) =~= seq![116u8, 114, 117, 101]);
    assert(ascii("echo "@) =~= seq![101u8, 99, 104, 111, 32]);
    lemma_no_nul_command(ascii("id"@));
    lemma_no_nul_command(ascii("getprop"@));
    lemma_no_nul_command(ascii("getprop ro.debuggable"@));
    lemma_no_nul_command(ascii("getprop ro.hardware"@));
    lemma_no_nul_command(ascii("getprop ro.property_service.version"@));
    lemma_no_nul_command(ascii("status"@));
    lemma_no_nul_command(ascii("true"@));
    assert(until_nul(Seq::<u8>::empty()) =~= Seq::<u8>::empty());
}

/// `echo <x>` prints `x` (cut to the buffer) and exits 0, for every
/// argument without a NUL byte.
pub proof fn lemma_shell_echo(arg: Seq<u8>, capacity: nat)
    requires
        forall|j: int| 0 <= j < arg.len() ==> arg[j] != 0,
    ensures
        spec_shell_output(ascii("echo "@) + arg, capacity) == truncate(arg, capacity),
        spec_shell_exit_code(ascii("echo "@) + arg) == 0,
{
    reveal_strlit("");
    reveal_strlit("id");
    reveal_strlit("getprop");
    reveal_strlit("getprop ro.debuggable");
    reveal_strlit("getprop ro.hardware");
    reveal_strlit("getprop ro.property_service.version");
    reveal_strlit("uname");
    reveal_strlit("uname -a");
    reveal_strlit("status");
    reveal_strlit("true");
    reveal_strlit("echo ");
    assert(ascii(""@) =~= Seq::<u8>::empty());
    assert(ascii("id"@) =~= seq![105u8, 100]);
    assert(ascii("getprop"@) =~= seq![103u8, 101, 116, 112, 114, 111, 112]);
    assert(ascii("getprop ro.debuggable"@) =~= seq![103u8, 101, 116, 112, 114, 111, 112, 32, 114, 111, 46, 100, 101, 98, 117, 103, 103, 97, 98, 108, 101]);
    assert(ascii("getprop ro.hardware"@) =~= seq![103u8, 101, 116, 112, 114, 111, 112, 32, 114, 111, 46, 104, 97, 114, 100, 119, 97, 114, 101]);
    assert(ascii("getprop ro.property_service.version"@) =~= seq![103u8, 101, 116, 112, 114, 111, 112, 32, 114, 111, 46, 112, 114, 111, 112, 101, 114, 116, 121, 95, 115, 101, 114, 118, 105, 99, 101, 46, 118, 101, 114, 115, 105, 111, 110]);
    assert(ascii("uname"@) =~= seq![117u8, 110, 97, 109, 101]);
    assert(ascii("uname -a"@) =~= seq![117u8, 110, 97, 109, 101, 32, 45, 97]);
    assert(ascii("status"@) =~= seq![115u8, 116, 97, 116, 117, 115]);
    assert(ascii("true"@) =~= seq![116u8, 114, 117, 101]);
    assert(ascii("echo "@) =~= seq![101u8, 99, 104, 111, 32]);
    let c = ascii("echo "@) + arg;
    assert(c[0] == 101u8);
    assert forall|j: int| 0 <= j < c.len() implies c[j] != 0 by {
        if j >= 5 {
            assert(c[j] == arg[j - 5]);
        }
    }
    lemma_no_nul_command(c);
    assert(c.subrange(0, 5) =~= ascii("echo "@));
    assert(c.subrange(5, c.len() as int) =~= arg);
}

/// Copy at most `capacity` bytes of `s`.
fn copy_truncated(s: &[u8], capacity: usize) -> (r: Vec<u8>)
    ensures
        r@ == truncate(s@, capacity as nat),
{
    let n = if s.len() <= capacity {
        s.len()
    } else {
        capacity
    };
    let mut out: Vec<u8> = Vec::new();
    push_bytes(&mut out, vstd::slice::slice_subrange(s, 0, n));
    assert(s@.subrange(0, s@.len() as int) =~= s@);
    out
}

/// Run a command of the bounded shell, writing its output into a buffer of
/// `capacity` bytes.
pub fn shell_output(command: &[u8], capacity: usize) -> (out: Vec<u8>)
    ensures
        out@ == spec_shell_output(command@, capacity as nat),
        out@.len() <= capacity,
{
    let c = trim_at_nul(command);
    match known_shell_text(c) {
        Some(text) => copy_truncated(text, capacity),
        None => {
            proof {
                reveal_strlit("sh: ");
                reveal_strlit(": not found\n");
                vstd::string::is_ascii_spec_bytes("sh: ");
                vstd::string::is_ascii_spec_bytes(": not found\n");
            }
            let mut writer = ByteWriter::new(capacity);
            let _ = writer.write_str("sh: ");
            let _ = writer.write_bytes(c);
            let _ = writer.write_str(": not found\n");
            writer.written
        },
    }
}

/// The exit status of a command of the bounded shell.
pub fn shell_exit_code(command: &[u8]) -> (code: u32)
    ensures
        code == spec_shell_exit_code(command@),
{
    let c = trim_at_nul(command);
    if known_shell_text(c).is_some() {
        0
    } else {
        127
    }
}

/// Shell-v2 stdout packet: the stdout tag followed by as much of `output`
/// as fits in `capacity` bytes; empty when there is no room at all.
pub open spec fn spec_shell_v2_stdout(output: Seq<u8>, capacity: nat) -> Seq<u8> {
    if capacity == 0 {
        Seq::empty()
    } else {
        seq![ADB_SHELL_V2_STDOUT] + truncate(output, (capacity - 1) as nat)
    }
}

/// Wrap shell output in a shell-v2 stdout packet of at most `capacity` bytes.
pub fn shell_v2_stdout(output: &[u8], capacity: usize) -> (framed: Vec<u8>)
    ensures
        framed@ == spec_shell_v2_stdout(output@, capacity as nat),
        framed@.len() <= capacity,
{
    if capacity == 0 {
        return Vec::new();
    }
    let mut framed: Vec<u8> = Vec::new();
    framed.push(ADB_SHELL_V2_STDOUT);
    let body = copy_truncated(output, capacity - 1);
    push_bytes(&mut framed, body.as_slice());
    assert(framed@ =~= seq![ADB_SHELL_V2_STDOUT] + body@);
    framed
}

/// The shell services the transport opens, with whether each speaks the
/// shell-v2 protocol and the command it carries.
pub open spec fn spec_parse_shell_service(s: Seq<u8>) -> Option<(bool, Seq<u8>)> {
    if s == ascii("shell"@) {
        Some((false, Seq::empty()))
    } else if 6 <= s.len() && s.subrange(0, 6) == ascii("shell:"@) {
        Some((false, s.subrange(6, s.len() as int)))
    } else if s == ascii("shell,v2"@) {
        Some((true, Seq::empty()))
    } else if 9 <= s.len() && s.subrange(0, 9) == ascii("shell,v2:"@) {
        Some((true, s.subrange(9, s.len() as int)))
    } else if 13 <= s.len() && s.subrange(0, 13) == ascii("shell,v2,raw:"@) {
        Some((true, s.subrange(13, s.len() as int)))
    } else if 14 <= s.len() && s.subrange(0, 14) == ascii("shell,v2,TERM:"@) {
        Some((true, s.subrange(14, s.len() as int)))
    } else {
        None
    }
}

/// Recognise a shell service name.
pub fn parse_shell_service(service: &[u8]) -> (r: Option<(bool, &[u8])>)
    ensures
        match r {
            Some((v2, command)) => spec_parse_shell_service(service@) == Some((v2, command@)),
            None => spec_parse_shell_service(service@) is None,
        },
{
    proof {
        reveal_strlit("shell");
        reveal_strlit("shell:");
        reveal_strlit("shell,v2");
        reveal_strlit("shell,v2:");
        reveal_strlit("shell,v2,raw:");
        reveal_strlit("shell,v2,TERM:");
        reveal_strlit("");
    }
    let empty: &[u8] = literal("");
    if bytes_equal(service, literal("shell")) {
        Some((false, empty))
    } else if let Some(command) = strip_prefix(service, literal("shell:")) {
        Some((false, command))
    } else if bytes_equal(service, literal("shell,v2")) {
        Some((true, empty))
    } else if let Some(command) = strip_prefix(service, literal("shell,v2:")) {
        Some((true, command))
    } else if let Some(command) = strip_prefix(service, literal("shell,v2,raw:")) {
        Some((true, command))
    } else if let Some(command) = strip_prefix(service, literal("shell,v2,TERM:")) {
        Some((true, command))
    } else {
        None
    }
}

/// The status report: protocol name, trace cursor, newest trace event and
/// whether returning to the boot chain was enabled at build time.
pub open spec fn spec_status_payload(trace_head: u32, last_event: u32, return_enabled: bool) -> Seq<
    u8,
> {
    ascii("fullerene-debug/1\ntrace_head="@) + hex8(trace_head) + ascii("\nlast_event="@) + hex8(
        last_event,
    ) + ascii("\nreturn="@) + (if return_enabled {
        ascii("enabled"@)
    } else {
        ascii("disabled"@)
    }) + ascii("\n"@)
}

/// Render the status report.
pub fn status_payload(trace_head: u32, last_event: u32, return_enabled: bool) -> (text: Vec<u8>)
    ensures
        text@ == spec_status_payload(trace_head, last_event, return_enabled),
        text@.len() <= MAX_PAYLOAD_BYTES,
{
    proof {
        reveal_strlit("fullerene-debug/1\ntrace_head=");
        reveal_strlit("\nlast_event=");
        reveal_strlit("\nreturn=");
        reveal_strlit("enabled");
        reveal_strlit("disabled");
        reveal_strlit("\n");
    }
    let mut text: Vec<u8> = Vec::new();
    push_bytes(&mut text, literal("fullerene-debug/1\ntrace_head="));
    push_hex8(&mut text, trace_head);
    push_bytes(&mut text, literal("\nlast_event="));
    push_hex8(&mut text, last_event);
    push_bytes(&mut text, literal("\nreturn="));
    if return_enabled {
        push_bytes(&mut text, literal("enabled"));
    } else {
        push_bytes(&mut text, literal("disabled"));
    }
    push_bytes(&mut text, literal("\n"));
    text
}

} // verus!

verus! {

// ---------------------------------------------------------------------------
// Transport state machine
// ---------------------------------------------------------------------------

/// The abstract state of the transport.
pub struct TransportState {
    /// A response frame was accepted by the controller and has not completed.
    pub response_pending: bool,
    /// Return to the boot chain once the pending response completes.
    pub return_after_response: bool,
    pub adb_connected: bool,
    pub adb_skip_checksum: bool,
    pub adb_host_id: u32,
    pub adb_device_id: u32,
    pub adb_stream_kind: u8,
    pub adb_shell_followup: u8,
    pub adb_shell_close_after_okay: bool,
    pub adb_shell_v2_output_sent: bool,
    pub adb_shell_v2: bool,
    pub adb_shell_exit_code: u32,
    pub adb_shell_command: Seq<u8>,
    /// Build-time switch: the transport may hand control back to the boot chain.
    pub return_enabled: bool,
}

/// A frame for the caller to queue on the bulk IN endpoint, and whether the
/// transport should return to the boot chain once it completes.
#[derive(Debug, PartialEq, Eq)]
pub struct OutFrame {
    pub bytes: Vec<u8>,
    pub return_after: bool,
}

/// Trace cursor values reported by the status and trace commands.
#[derive(Clone, Copy)]
pub struct TraceStatus {
    pub head: u32,
    pub last_event: u32,
}

/// The debug transport.
pub struct DebugTransport {
    pub response_pending: bool,
    pub return_after_response: bool,
    pub adb_connected: bool,
    pub adb_skip_checksum: bool,
    pub adb_host_id: u32,
    pub adb_device_id: u32,
    pub adb_stream_kind: u8,
    pub adb_shell_followup: u8,
    pub adb_shell_close_after_okay: bool,
    pub adb_shell_v2_output_sent: bool,
    pub adb_shell_v2: bool,
    pub adb_shell_exit_code: u32,
    pub adb_shell_command: Vec<u8>,
    pub return_enabled: bool,
}

impl View for DebugTransport {
    type V = TransportState;

    open spec fn view(&self) -> TransportState {
        TransportState {
            response_pending: self.response_pending,
            return_after_response: self.return_after_response,
            adb_connected: self.adb_connected,
            adb_skip_checksum: self.adb_skip_checksum,
            adb_host_id: self.adb_host_id,
            adb_device_id: self.adb_device_id,
            adb_stream_kind: self.adb_stream_kind,
            adb_shell_followup: self.adb_shell_followup,
            adb_shell_close_after_okay: self.adb_shell_close_after_okay,
            adb_shell_v2_output_sent: self.adb_shell_v2_output_sent,
            adb_shell_v2: self.adb_shell_v2,
            adb_shell_exit_code: self.adb_shell_exit_code,
            adb_shell_command: self.adb_shell_command@,
            return_enabled: self.return_enabled,
        }
    }
}

/// A frame as the bytes to send and the return-after flag.
pub open spec fn frame_view(f: Option<OutFrame>) -> Option<(Seq<u8>, bool)> {
    match f {
        Some(f) => Some((f.bytes@, f.return_after)),
        None => None,
    }
}

impl TransportState {
    /// The state invariant: a stored shell command fits its buffer, and the
    /// device-side stream id is never zero.
    pub open spec fn wf(self) -> bool {
        &&& self.adb_shell_command.len() <= ADB_SHELL_COMMAND_CAPACITY
        &&& self.adb_device_id >= 1
    }
}

/// The state of a freshly started (or reset) transport.
pub open spec fn initial_state(return_enabled: bool) -> TransportState {
    TransportState {
        response_pending: false,
        return_after_response: false,
        adb_connected: false,
        adb_skip_checksum: false,
        adb_host_id: 0,
        adb_device_id: 1,
        adb_stream_kind: ADB_STREAM_NONE,
        adb_shell_followup: 0,
        adb_shell_close_after_okay: false,
        adb_shell_v2_output_sent: false,
        adb_shell_v2: false,
        adb_shell_exit_code: 0,
        adb_shell_command: Seq::empty(),
        return_enabled,
    }
}

/// The bring-up response the transport queues: none while a response is
/// pending or when the payload exceeds one frame.
pub open spec fn fdbg_reply(
    s: TransportState,
    command: u16,
    request_id: u32,
    status: i32,
    payload: Seq<u8>,
    return_after: bool,
) -> Option<(Seq<u8>, bool)> {
    if payload.len() > MAX_PAYLOAD_BYTES || s.response_pending {
        None
    } else {
        Some((response_frame(command, request_id, status, payload), return_after))
    }
}

/// The ADB message the transport queues: none while a response is pending
/// or when the payload exceeds one frame. The checksum is elided once the
/// host negotiated ADB 1.0.1, and a return-after request is honoured only
/// when returning is enabled.
pub open spec fn adb_reply(
    s: TransportState,
    command: u32,
    arg0: u32,
    arg1: u32,
    payload: Seq<u8>,
    return_after: bool,
) -> Option<(Seq<u8>, bool)> {
    if payload.len() > ADB_FRAME_PAYLOAD_BYTES || s.response_pending {
        None
    } else {
        Some(
            (
                adb_frame(
                    command,
                    arg0,
                    arg1,
                    if s.adb_skip_checksum {
                        0
                    } else {
                        spec_adb_checksum(payload)
                    },
                    payload,
                ),
                return_after && s.return_enabled,
            ),
        )
    }
}

/// The device banner sent in the CNXN reply.
pub open spec fn device_banner() -> Seq<u8> {
    ascii("device::ro.product.name=fullerene;ro.product.model=Pixel 4a (5G);ro.product.device=bramble;"@)
}

/// Services that request a return to the boot chain.
pub open spec fn is_reboot_service(s: Seq<u8>) -> bool {
    s == ascii("reboot:bootloader"@) || s == ascii("reboot:fastboot"@) || s == ascii("reboot"@)
}

/// The next device-side stream id: one more, wrapping, and never zero.
pub open spec fn next_device_id(id: u32) -> u32 {
    let n = if id == 0xffff_ffffu32 {
        0u32
    } else {
        (id + 1) as u32
    };
    if n < 1 {
        1
    } else {
        n
    }
}

/// The shell-v2 exit packet for an exit status.
pub open spec fn shell_v2_exit_packet(code: u32) -> Seq<u8> {
    seq![ADB_SHELL_V2_EXIT] + le32(code)
}

/// A CNXN from the host: accept ADB 1.0.0 or later with a non-zero maximum
/// payload, restart stream numbering, and answer with the device banner.
pub open spec fn cnxn_step(s: TransportState, arg0: u32, arg1: u32) -> (
    TransportState,
    Option<(Seq<u8>, bool)>,
) {
    if arg0 < ADB_VERSION_ORIGINAL || arg1 == 0 {
        (s, None)
    } else {
        let t = TransportState {
            adb_connected: true,
            adb_skip_checksum: arg0 >= ADB_VERSION,
            adb_host_id: 0,
            adb_device_id: 1,
            adb_stream_kind: ADB_STREAM_NONE,
            ..s
        };
        let version = if arg0 >= ADB_VERSION {
            ADB_VERSION
        } else {
            ADB_VERSION_ORIGINAL
        };
        (t, adb_reply(t, ADB_CNXN, version, ADB_MAX_DATA as u32, device_banner(), false))
    }
}

/// An OPEN on a connected transport: a reboot service (accepted only when
/// returning is enabled), a shell service, or a refusal.
pub open spec fn open_step(s: TransportState, arg0: u32, payload: Seq<u8>) -> (
    TransportState,
    Option<(Seq<u8>, bool)>,
) {
    if arg0 == 0 || payload.len() == 0 {
        (s, adb_reply(s, ADB_CLSE, 0, arg0, Seq::empty(), false))
    } else {
        let service = until_nul(payload);
        let device_id = next_device_id(s.adb_device_id);
        let t = TransportState { adb_host_id: arg0, adb_device_id: device_id, ..s };
        if is_reboot_service(service) {
            if s.return_enabled {
                let u = TransportState { adb_stream_kind: ADB_STREAM_RETURN, ..t };
                (u, adb_reply(u, ADB_OKAY, device_id, arg0, Seq::empty(), true))
            } else {
                let u = TransportState { adb_stream_kind: ADB_STREAM_NONE, ..t };
                (u, adb_reply(u, ADB_CLSE, 0, arg0, Seq::empty(), false))
            }
        } else {
            match spec_parse_shell_service(service) {
                Some((v2, shell_command)) => {
                    let u = TransportState {
                        adb_stream_kind: if v2 {
                            ADB_STREAM_SHELL_V2
                        } else {
                            ADB_STREAM_SHELL
                        },
                        adb_shell_v2: v2,
                        adb_shell_v2_output_sent: false,
                        adb_shell_exit_code: spec_shell_exit_code(shell_command),
                        adb_shell_command: truncate(
                            shell_command,
                            ADB_SHELL_COMMAND_CAPACITY as nat,
                        ),
                        adb_shell_followup: ADB_SHELL_FOLLOWUP_OUTPUT,
                        adb_shell_close_after_okay: false,
                        ..t
                    };
                    (u, adb_reply(u, ADB_OKAY, device_id, arg0, Seq::empty(), false))
                },
                None => {
                    let u = TransportState { adb_stream_kind: ADB_STREAM_NONE, ..t };
                    (u, adb_reply(u, ADB_CLSE, 0, arg0, Seq::empty(), false))
                },
            }
        }
    }
}

/// An OKAY or WRTE on a connected transport. Only a message for the open
/// stream counts: WRTE is acknowledged, and OKAY advances the shell stream
/// (shell-v2 exit packet, then close).
pub open spec fn okay_wrte_step(s: TransportState, command: u32, arg0: u32, arg1: u32) -> (
    TransportState,
    Option<(Seq<u8>, bool)>,
) {
    let valid = arg0 == s.adb_host_id && arg1 == s.adb_device_id && s.adb_stream_kind
        != ADB_STREAM_NONE;
    if valid && command == ADB_WRTE {
        (s, adb_reply(s, ADB_OKAY, s.adb_device_id, s.adb_host_id, Seq::empty(), false))
    } else if valid && command == ADB_OKAY {
        if s.adb_shell_v2_output_sent {
            let t = TransportState {
                adb_shell_v2_output_sent: false,
                adb_shell_close_after_okay: true,
                ..s
            };
            (
                t,
                adb_reply(
                    s,
                    ADB_WRTE,
                    s.adb_device_id,
                    s.adb_host_id,
                    shell_v2_exit_packet(s.adb_shell_exit_code),
                    false,
                ),
            )
        } else if s.adb_shell_close_after_okay {
            let t = TransportState {
                adb_shell_close_after_okay: false,
                adb_stream_kind: ADB_STREAM_NONE,
                adb_shell_v2: false,
                ..s
            };
            (t, adb_reply(t, ADB_CLSE, s.adb_device_id, s.adb_host_id, Seq::empty(), false))
        } else {
            (s, None)
        }
    } else {
        (s, None)
    }
}

/// A CLSE naming either end of the open stream closes it; nothing is sent.
pub open spec fn clse_step(s: TransportState, arg0: u32, arg1: u32) -> TransportState {
    if arg0 == s.adb_host_id || arg1 == s.adb_device_id {
        TransportState {
            adb_stream_kind: ADB_STREAM_NONE,
            adb_host_id: 0,
            adb_shell_followup: 0,
            adb_shell_close_after_okay: false,
            adb_shell_v2_output_sent: false,
            adb_shell_v2: false,
            adb_shell_exit_code: 0,
            ..s
        }
    } else {
        s
    }
}

/// One ADB message received from the host: the next state and the reply.
/// OPEN, OKAY and WRTE are considered only once the host has connected.
pub open spec fn adb_step(
    s: TransportState,
    command: u32,
    arg0: u32,
    arg1: u32,
    payload: Seq<u8>,
) -> (TransportState, Option<(Seq<u8>, bool)>) {
    if command == ADB_CNXN {
        cnxn_step(s, arg0, arg1)
    } else if command == ADB_OPEN && s.adb_connected {
        open_step(s, arg0, payload)
    } else if (command == ADB_OKAY || command == ADB_WRTE) && s.adb_connected {
        okay_wrte_step(s, command, arg0, arg1)
    } else if command == ADB_CLSE {
        (clse_step(s, arg0, arg1), None)
    } else {
        (s, None)
    }
}

/// The reply to one bring-up shell request.
pub open spec fn shell_request_reply(
    s: TransportState,
    request_id: u32,
    payload: Seq<u8>,
    trace: TraceStatus,
) -> Option<(Seq<u8>, bool)> {
    if payload == ascii("status"@) {
        fdbg_reply(
            s,
            COMMAND_SHELL,
            request_id,
            STATUS_OK,
            spec_status_payload(trace.head, trace.last_event, s.return_enabled),
            false,
        )
    } else if payload == ascii("trace"@) {
        fdbg_reply(
            s,
            COMMAND_SHELL,
            request_id,
            STATUS_OK,
            le32(trace.head) + le32(trace.last_event),
            false,
        )
    } else if payload == ascii("help"@) {
        fdbg_reply(s, COMMAND_SHELL, request_id, STATUS_OK, ascii("status trace help return\n"@), false)
    } else if payload == ascii("return"@) {
        if !s.return_enabled {
            fdbg_reply(
                s,
                COMMAND_SHELL,
                request_id,
                STATUS_NOT_SUPPORTED,
                ascii("return disabled at build time\n"@),
                false,
            )
        } else {
            fdbg_reply(s, COMMAND_SHELL, request_id, STATUS_OK, ascii("returning\n"@), true)
        }
    } else {
        fdbg_reply(
            s,
            COMMAND_SHELL,
            request_id,
            STATUS_NOT_SUPPORTED,
            ascii("command unavailable\n"@),
            false,
        )
    }
}

/// The shell `trace` request answers with status OK and the same payload
/// as a trace request: the trace head, then the last event, each 32-bit
/// little-endian. Read back from the response frame, the payload's first
/// word is the trace head and its second the last event.
pub proof fn lemma_shell_trace_reply(s: TransportState, request_id: u32, trace: TraceStatus, other: Seq<u8>)
    requires
        !s.response_pending,
    ensures
        ({
            let reply = shell_request_reply(s, request_id, ascii("trace"@), trace);
            let (frame, return_after) = reply->0;
            let (trace_frame, _) = request_reply(s, COMMAND_TRACE, request_id, other, trace)->0;
            &&& reply is Some
            &&& !return_after
            &&& frame.len() == 28
            &&& read_le32(frame, 12) == STATUS_OK as u32
            &&& read_le32(frame, 16) == 8
            &&& read_le32(frame, 20) == trace.head
            &&& read_le32(frame, 24) == trace.last_event
            &&& frame.subrange(20, 28) == trace_frame.subrange(20, 28)
        }),
{
    reveal_strlit("trace");
    reveal_strlit("status");
    assert(ascii("trace"@) =~= seq![116u8, 114, 97, 99, 101]);
    assert(ascii("status"@) =~= seq![115u8, 116, 97, 116, 117, 115]);
    assert(ascii("trace"@) != ascii("status"@));
    let payload = le32(trace.head) + le32(trace.last_event);
    let head = ascii("FDRP"@) + le16(1) + le16(COMMAND_SHELL);
    let frame = response_frame(COMMAND_SHELL, request_id, STATUS_OK, payload);
    reveal_strlit("FDRP");
    assert(ascii("FDRP"@).len() == 4);
    assert(frame =~= head + le32(request_id) + le32(STATUS_OK as u32) + le32(8u32) + le32(trace.head) + le32(trace.last_event));
    lemma_le32_roundtrip(STATUS_OK as u32, head + le32(request_id), le32(8u32) + payload);
    assert(head + le32(request_id) + le32(STATUS_OK as u32) + (le32(8u32) + payload) =~= frame);
    lemma_le32_roundtrip(8u32, head + le32(request_id) + le32(STATUS_OK as u32), payload);
    assert(head + le32(request_id) + le32(STATUS_OK as u32) + le32(8u32) + payload =~= frame);
    lemma_le32_roundtrip(trace.head, head + le32(request_id) + le32(STATUS_OK as u32) + le32(8u32), le32(trace.last_event));
    lemma_le32_roundtrip(trace.last_event, head + le32(request_id) + le32(STATUS_OK as u32) + le32(8u32) + le32(trace.head), Seq::empty());
    assert(head + le32(request_id) + le32(STATUS_OK as u32) + le32(8u32) + le32(trace.head) + le32(trace.last_event) + Seq::<u8>::empty() =~= frame);
    let tframe = response_frame(COMMAND_TRACE, request_id, STATUS_OK, payload);
    assert(frame.subrange(20, 28) =~= payload);
    assert(tframe.subrange(20, 28) =~= payload);
}

/// The shell `status` and `return` requests answer as the status and
/// return requests do: the status payload with status OK; and a return
/// that is refused with NOT_SUPPORTED (and no return) when the build has
/// no return switch, else accepted with OK and a return once the reply is
/// sent.
pub proof fn lemma_shell_status_and_return(s: TransportState, request_id: u32, trace: TraceStatus, other: Seq<u8>)
    ensures
        shell_request_reply(s, request_id, ascii("status"@), trace) == fdbg_reply(
            s,
            COMMAND_SHELL,
            request_id,
            STATUS_OK,
            spec_status_payload(trace.head, trace.last_event, s.return_enabled),
            false,
        ),
        request_reply(s, COMMAND_STATUS, request_id, other, trace) == fdbg_reply(
            s,
            COMMAND_STATUS,
            request_id,
            STATUS_OK,
            spec_status_payload(trace.head, trace.last_event, s.return_enabled),
            false,
        ),
        !s.return_enabled ==> shell_request_reply(s, request_id, ascii("return"@), trace) == fdbg_reply(
            s,
            COMMAND_SHELL,
            request_id,
            STATUS_NOT_SUPPORTED,
            ascii("return disabled at build time\n"@),
            false,
        ),
        s.return_enabled ==> shell_request_reply(s, request_id, ascii("return"@), trace) == fdbg_reply(
            s,
            COMMAND_SHELL,
            request_id,
            STATUS_OK,
            ascii("returning\n"@),
            true,
        ),
        !s.return_enabled ==> request_reply(s, COMMAND_RETURN, request_id, other, trace) == fdbg_reply(
            s,
            COMMAND_RETURN,
            request_id,
            STATUS_NOT_SUPPORTED,
            ascii("return disabled at build time\n"@),
            false,
        ),
        s.return_enabled ==> request_reply(s, COMMAND_RETURN, request_id, other, trace) == fdbg_reply(
            s,
            COMMAND_RETURN,
            request_id,
            STATUS_OK,
            ascii("returning\n"@),
            true,
        ),
{
    reveal_strlit("status");
    reveal_strlit("trace");
    reveal_strlit("help");
    reveal_strlit("return");
    assert(ascii("status"@) =~= seq![115u8, 116, 97, 116, 117, 115]);
    assert(ascii("trace"@) =~= seq![116u8, 114, 97, 99, 101]);
    assert(ascii("help"@) =~= seq![104u8, 101, 108, 112]);
    assert(ascii("return"@) =~= seq![114u8, 101, 116, 117, 114, 110]);
    assert(ascii("return"@)[0] != ascii("status"@)[0]);
}

/// The reply to one well-formed bring-up request received while no response
/// is pending.
pub open spec fn request_reply(
    s: TransportState,
    command: u16,
    request_id: u32,
    payload: Seq<u8>,
    trace: TraceStatus,
) -> Option<(Seq<u8>, bool)> {
    if command == COMMAND_STATUS {
        fdbg_reply(
            s,
            command,
            request_id,
            STATUS_OK,
            spec_status_payload(trace.head, trace.last_event, s.return_enabled),
            false,
        )
    } else if command == COMMAND_TRACE {
        fdbg_reply(s, command, request_id, STATUS_OK, le32(trace.head) + le32(trace.last_event), false)
    } else if command == COMMAND_RETURN {
        if !s.return_enabled {
            fdbg_reply(
                s,
                command,
                request_id,
                STATUS_NOT_SUPPORTED,
                ascii("return disabled at build time\n"@),
                false,
            )
        } else {
            fdbg_reply(s, command, request_id, STATUS_OK, ascii("returning\n"@), true)
        }
    } else if command == COMMAND_SHELL {
        shell_request_reply(s, request_id, payload, trace)
    } else {
        fdbg_reply(s, command, request_id, STATUS_NOT_SUPPORTED, ascii("unknown command\n"@), false)
    }
}

/// One completed bulk OUT packet: the next state and the reply. An ADB
/// message takes precedence; anything else must be a bring-up request.
pub open spec fn bulk_out_step(
    s: TransportState,
    data: Seq<u8>,
    error: bool,
    trace: TraceStatus,
) -> (TransportState, Option<(Seq<u8>, bool)>) {
    if error {
        (s, None)
    } else {
        match spec_parse_adb(data) {
            Some((command, arg0, arg1, payload)) => adb_step(s, command, arg0, arg1, payload),
            None => match spec_parse_request(data) {
                None => (s, fdbg_reply(s, 0, 0, STATUS_INVALID_ARGUMENT, ascii("invalid request\n"@), false)),
                Some((command, request_id, payload)) => {
                    if s.response_pending {
                        (s, fdbg_reply(s, command, request_id, STATUS_BUSY, ascii("response pending\n"@), false))
                    } else {
                        (s, request_reply(s, command, request_id, payload, trace))
                    }
                },
            },
        }
    }
}

/// Completion of the response on the bulk IN endpoint: the next state, the
/// follow-up frame (shell output after the stream was opened) and whether to
/// return to the boot chain now.
pub open spec fn bulk_in_step(s: TransportState, error: bool) -> (
    TransportState,
    Option<(Seq<u8>, bool)>,
    bool,
) {
    let send_output = !error && s.adb_shell_followup == ADB_SHELL_FOLLOWUP_OUTPUT;
    let return_now = !error && s.return_after_response;
    let t0 = if error {
        TransportState {
            adb_shell_followup: 0,
            response_pending: false,
            return_after_response: false,
            adb_shell_close_after_okay: false,
            adb_shell_v2_output_sent: false,
            adb_shell_v2: false,
            ..s
        }
    } else {
        TransportState { adb_shell_followup: 0, response_pending: false, ..s }
    };
    let output = spec_shell_output(s.adb_shell_command, ADB_FRAME_PAYLOAD_BYTES as nat);
    let (t1, reply) = if send_output {
        if s.adb_shell_v2 {
            let t = TransportState { adb_shell_v2_output_sent: true, ..t0 };
            (
                t,
                adb_reply(
                    t,
                    ADB_WRTE,
                    s.adb_device_id,
                    s.adb_host_id,
                    spec_shell_v2_stdout(output, ADB_FRAME_PAYLOAD_BYTES as nat),
                    false,
                ),
            )
        } else {
            let t = TransportState { adb_shell_close_after_okay: true, ..t0 };
            (t, adb_reply(t, ADB_WRTE, s.adb_device_id, s.adb_host_id, output, false))
        }
    } else {
        (t0, None)
    };
    if return_now {
        (TransportState { return_after_response: false, ..t1 }, reply, true)
    } else {
        (t1, reply, false)
    }
}

} // verus!

verus! {

impl DebugTransport {
    /// A transport with no connection, no stream and nothing pending.
    pub fn new(return_enabled: bool) -> (t: Self)
        ensures
            t@ == initial_state(return_enabled),
            t@.wf(),
    {
        let t = DebugTransport {
            response_pending: false,
            return_after_response: false,
            adb_connected: false,
            adb_skip_checksum: false,
            adb_host_id: 0,
            adb_device_id: 1,
            adb_stream_kind: ADB_STREAM_NONE,
            adb_shell_followup: 0,
            adb_shell_close_after_okay: false,
            adb_shell_v2_output_sent: false,
            adb_shell_v2: false,
            adb_shell_exit_code: 0,
            adb_shell_command: Vec::new(),
            return_enabled,
        };
        assert(t@ =~= initial_state(return_enabled));
        t
    }

    /// Forget every connection, stream and pending response, as after a USB
    /// reset or disconnect.
    pub fn reset(&mut self)
        ensures
            final(self)@ == initial_state(old(self).return_enabled),
    {
        self.response_pending = false;
        self.return_after_response = false;
        self.adb_connected = false;
        self.adb_skip_checksum = false;
        self.adb_host_id = 0;
        self.adb_device_id = 1;
        self.adb_stream_kind = ADB_STREAM_NONE;
        self.adb_shell_followup = 0;
        self.adb_shell_close_after_okay = false;
        self.adb_shell_v2_output_sent = false;
        self.adb_shell_v2 = false;
        self.adb_shell_exit_code = 0;
        self.adb_shell_command = Vec::new();
        assert(self@ =~= initial_state(self.return_enabled));
    }

    /// Build a bring-up response, unless one is already pending or the
    /// payload does not fit in a frame.
    pub fn queue_response(
        &self,
        command: u16,
        request_id: u32,
        status: i32,
        payload: &[u8],
        return_after: bool,
    ) -> (r: Option<OutFrame>)
        ensures
            frame_view(r) == fdbg_reply(self@, command, request_id, status, payload@, return_after),
    {
        if payload.len() > MAX_PAYLOAD_BYTES || self.response_pending {
            return None;
        }
        Some(
            OutFrame {
                bytes: build_response_frame(command, request_id, status, payload),
                return_after,
            },
        )
    }

    /// Build an ADB message, unless a response is already pending or the
    /// payload does not fit in a frame.
    pub fn queue_adb(&self, command: u32, arg0: u32, arg1: u32, payload: &[u8], return_after: bool) -> (r:
        Option<OutFrame>)
        ensures
            frame_view(r) == adb_reply(self@, command, arg0, arg1, payload@, return_after),
    {
        if payload.len() > ADB_FRAME_PAYLOAD_BYTES || self.response_pending {
            return None;
        }
        let return_after = return_after && self.return_enabled;
        let checksum = if self.adb_skip_checksum {
            0
        } else {
            adb_checksum(payload)
        };
        Some(
            OutFrame {
                bytes: build_adb_frame(command, arg0, arg1, checksum, payload),
                return_after,
            },
        )
    }

    /// The controller accepted `frame` on the bulk IN endpoint: a response is
    /// now pending.
    pub fn transfer_queued(&mut self, frame: &OutFrame)
        ensures
            final(self)@ == (TransportState {
                response_pending: true,
                return_after_response: frame.return_after,
                ..old(self)@
            }),
    {
        self.response_pending = true;
        self.return_after_response = frame.return_after;
    }

    /// Handle a CNXN message.
    fn handle_cnxn(&mut self, arg0: u32, arg1: u32) -> (r: Option<OutFrame>)
        requires
            old(self)@.wf(),
        ensures
            (final(self)@, frame_view(r)) == cnxn_step(old(self)@, arg0, arg1),
            final(self)@.wf(),
    {
        proof {
            reveal_strlit(
                "device::ro.product.name=fullerene;ro.product.model=Pixel 4a (5G);ro.product.device=bramble;",
            );
        }
        if arg0 < ADB_VERSION_ORIGINAL || arg1 == 0 {
            return None;
        }
        self.adb_connected = true;
        self.adb_skip_checksum = arg0 >= ADB_VERSION;
        self.adb_host_id = 0;
        self.adb_device_id = 1;
        self.adb_stream_kind = ADB_STREAM_NONE;
        let response_version = if arg0 >= ADB_VERSION {
            ADB_VERSION
        } else {
            ADB_VERSION_ORIGINAL
        };
        self.queue_adb(
            ADB_CNXN,
            response_version,
            ADB_MAX_DATA as u32,
            literal(
                "device::ro.product.name=fullerene;ro.product.model=Pixel 4a (5G);ro.product.device=bramble;",
            ),
            false,
        )
    }

    /// Whether a service name asks to return to the boot chain.
    fn reboot_service(service: &[u8]) -> (r: bool)
        ensures
            r == is_reboot_service(service@),
    {
        proof {
            reveal_strlit("reboot:bootloader");
            reveal_strlit("reboot:fastboot");
            reveal_strlit("reboot");
        }
        bytes_equal(service, literal("reboot:bootloader")) || bytes_equal(
            service,
            literal("reboot:fastboot"),
        ) || bytes_equal(service, literal("reboot"))
    }

    /// Handle an OPEN message on a connected transport.
    fn handle_open(&mut self, arg0: u32, payload: &[u8]) -> (r: Option<OutFrame>)
        requires
            old(self)@.wf(),
        ensures
            (final(self)@, frame_view(r)) == open_step(old(self)@, arg0, payload@),
            final(self)@.wf(),
    {
        proof {
            reveal_strlit("");
        }
        let empty: &[u8] = literal("");
        if arg0 == 0 || payload.len() == 0 {
            return self.queue_adb(ADB_CLSE, 0, arg0, empty, false);
        }
        let service = trim_at_nul(payload);
        self.adb_host_id = arg0;
        let next = self.adb_device_id.wrapping_add(1);
        self.adb_device_id = if next < 1 {
            1
        } else {
            next
        };
        let device_id = self.adb_device_id;
        if Self::reboot_service(service) {
            if self.return_enabled {
                self.adb_stream_kind = ADB_STREAM_RETURN;
                self.queue_adb(ADB_OKAY, device_id, arg0, empty, true)
            } else {
                self.adb_stream_kind = ADB_STREAM_NONE;
                self.queue_adb(ADB_CLSE, 0, arg0, empty, false)
            }
        } else if let Some((shell_v2, shell_command)) = parse_shell_service(service) {
            self.adb_stream_kind = if shell_v2 {
                ADB_STREAM_SHELL_V2
            } else {
                ADB_STREAM_SHELL
            };
            self.adb_shell_v2 = shell_v2;
            self.adb_shell_v2_output_sent = false;
            self.adb_shell_exit_code = shell_exit_code(shell_command);
            self.adb_shell_command = copy_truncated(shell_command, ADB_SHELL_COMMAND_CAPACITY);
            self.adb_shell_followup = ADB_SHELL_FOLLOWUP_OUTPUT;
            self.adb_shell_close_after_okay = false;
            self.queue_adb(ADB_OKAY, device_id, arg0, empty, false)
        } else {
            self.adb_stream_kind = ADB_STREAM_NONE;
            self.queue_adb(ADB_CLSE, 0, arg0, empty, false)
        }
    }

    /// Handle an OKAY or WRTE message on a connected transport.
    fn handle_okay_wrte(&mut self, command: u32, arg0: u32, arg1: u32) -> (r: Option<OutFrame>)
        requires
            old(self)@.wf(),
        ensures
            (final(self)@, frame_view(r)) == okay_wrte_step(old(self)@, command, arg0, arg1),
            final(self)@.wf(),
    {
        proof {
            reveal_strlit("");
        }
        let empty: &[u8] = literal("");
        let valid = arg0 == self.adb_host_id && arg1 == self.adb_device_id && self.adb_stream_kind
            != ADB_STREAM_NONE;
        if valid && command == ADB_WRTE {
            self.queue_adb(ADB_OKAY, self.adb_device_id, self.adb_host_id, empty, false)
        } else if valid && command == ADB_OKAY {
            if self.adb_shell_v2_output_sent {
                self.adb_shell_v2_output_sent = false;
                let mut exit: Vec<u8> = Vec::new();
                exit.push(ADB_SHELL_V2_EXIT);
                push_le32(&mut exit, self.adb_shell_exit_code);
                assert(exit@ =~= shell_v2_exit_packet(self.adb_shell_exit_code));
                let r = self.queue_adb(
                    ADB_WRTE,
                    self.adb_device_id,
                    self.adb_host_id,
                    exit.as_slice(),
                    false,
                );
                self.adb_shell_close_after_okay = true;
                r
            } else if self.adb_shell_close_after_okay {
                self.adb_shell_close_after_okay = false;
                self.adb_stream_kind = ADB_STREAM_NONE;
                self.adb_shell_v2 = false;
                self.queue_adb(ADB_CLSE, self.adb_device_id, self.adb_host_id, empty, false)
            } else {
                None
            }
        } else {
            None
        }
    }

    /// Handle one ADB message from the host.
    pub fn handle_adb(&mut self, command: u32, arg0: u32, arg1: u32, payload: &[u8]) -> (r: Option<
        OutFrame,
    >)
        requires
            old(self)@.wf(),
        ensures
            (final(self)@, frame_view(r)) == adb_step(old(self)@, command, arg0, arg1, payload@),
            final(self)@.wf(),
    {
        if command == ADB_CNXN {
            self.handle_cnxn(arg0, arg1)
        } else if command == ADB_OPEN && self.adb_connected {
            self.handle_open(arg0, payload)
        } else if (command == ADB_OKAY || command == ADB_WRTE) && self.adb_connected {
            self.handle_okay_wrte(command, arg0, arg1)
        } else if command == ADB_CLSE {
            if arg0 == self.adb_host_id || arg1 == self.adb_device_id {
                self.adb_stream_kind = ADB_STREAM_NONE;
                self.adb_host_id = 0;
                self.adb_shell_followup = 0;
                self.adb_shell_close_after_okay = false;
                self.adb_shell_v2_output_sent = false;
                self.adb_shell_v2 = false;
                self.adb_shell_exit_code = 0;
            }
            None
        } else {
            None
        }
    }
}

} // verus!

verus! {

impl DebugTransport {
    /// The trace-command payload: trace cursor then newest event.
    fn trace_payload(trace: TraceStatus) -> (p: Vec<u8>)
        ensures
            p@ == le32(trace.head) + le32(trace.last_event),
    {
        let mut p: Vec<u8> = Vec::new();
        push_le32(&mut p, trace.head);
        push_le32(&mut p, trace.last_event);
        p
    }

    /// Answer a bring-up shell request.
    pub fn handle_shell(&self, request_id: u32, payload: &[u8], trace: TraceStatus) -> (r: Option<
        OutFrame,
    >)
        ensures
            frame_view(r) == shell_request_reply(self@, request_id, payload@, trace),
    {
        proof {
            reveal_strlit("status");
            reveal_strlit("trace");
            reveal_strlit("help");
            reveal_strlit("return");
            reveal_strlit("status trace help return\n");
            reveal_strlit("return disabled at build time\n");
            reveal_strlit("returning\n");
            reveal_strlit("command unavailable\n");
        }
        if bytes_equal(payload, literal("status")) {
            let text = status_payload(trace.head, trace.last_event, self.return_enabled);
            self.queue_response(COMMAND_SHELL, request_id, STATUS_OK, text.as_slice(), false)
        } else if bytes_equal(payload, literal("trace")) {
            let p = Self::trace_payload(trace);
            self.queue_response(COMMAND_SHELL, request_id, STATUS_OK, p.as_slice(), false)
        } else if bytes_equal(payload, literal("help")) {
            self.queue_response(
                COMMAND_SHELL,
                request_id,
                STATUS_OK,
                literal("status trace help return\n"),
                false,
            )
        } else if bytes_equal(payload, literal("return")) {
            if !self.return_enabled {
                self.queue_response(
                    COMMAND_SHELL,
                    request_id,
                    STATUS_NOT_SUPPORTED,
                    literal("return disabled at build time\n"),
                    false,
                )
            } else {
                self.queue_response(
                    COMMAND_SHELL,
                    request_id,
                    STATUS_OK,
                    literal("returning\n"),
                    true,
                )
            }
        } else {
            self.queue_response(
                COMMAND_SHELL,
                request_id,
                STATUS_NOT_SUPPORTED,
                literal("command unavailable\n"),
                false,
            )
        }
    }

    /// Answer a well-formed bring-up request.
    fn handle_request(&self, command: u16, request_id: u32, payload: &[u8], trace: TraceStatus) -> (r:
        Option<OutFrame>)
        ensures
            frame_view(r) == request_reply(self@, command, request_id, payload@, trace),
    {
        proof {
            reveal_strlit("return disabled at build time\n");
            reveal_strlit("returning\n");
            reveal_strlit("unknown command\n");
        }
        if command == COMMAND_STATUS {
            let text = status_payload(trace.head, trace.last_event, self.return_enabled);
            self.queue_response(command, request_id, STATUS_OK, text.as_slice(), false)
        } else if command == COMMAND_TRACE {
            let p = Self::trace_payload(trace);
            self.queue_response(command, request_id, STATUS_OK, p.as_slice(), false)
        } else if command == COMMAND_RETURN {
            if !self.return_enabled {
                self.queue_response(
                    command,
                    request_id,
                    STATUS_NOT_SUPPORTED,
                    literal("return disabled at build time\n"),
                    false,
                )
            } else {
                self.queue_response(command, request_id, STATUS_OK, literal("returning\n"), true)
            }
        } else if command == COMMAND_SHELL {
            self.handle_shell(request_id, payload, trace)
        } else {
            self.queue_response(
                command,
                request_id,
                STATUS_NOT_SUPPORTED,
                literal("unknown command\n"),
                false,
            )
        }
    }

    /// Handle one completed bulk OUT packet.
    pub fn on_bulk_out(&mut self, data: &[u8], error: bool, trace: TraceStatus) -> (r: Option<
        OutFrame,
    >)
        requires
            old(self)@.wf(),
        ensures
            (final(self)@, frame_view(r)) == bulk_out_step(old(self)@, data@, error, trace),
            final(self)@.wf(),
    {
        proof {
            reveal_strlit("invalid request\n");
            reveal_strlit("response pending\n");
        }
        if error {
            return None;
        }
        if let Some((command, arg0, arg1, payload)) = parse_adb_request(data) {
            return self.handle_adb(command, arg0, arg1, payload);
        }
        match parse_request(data) {
            None => self.queue_response(
                0,
                0,
                STATUS_INVALID_ARGUMENT,
                literal("invalid request\n"),
                false,
            ),
            Some((command, request_id, payload)) => {
                if self.response_pending {
                    self.queue_response(
                        command,
                        request_id,
                        STATUS_BUSY,
                        literal("response pending\n"),
                        false,
                    )
                } else {
                    self.handle_request(command, request_id, payload, trace)
                }
            },
        }
    }

    /// Handle completion of the response on the bulk IN endpoint. Returns
    /// the follow-up frame, if any, and whether to return to the boot chain.
    pub fn on_bulk_in_complete(&mut self, error: bool) -> (r: (Option<OutFrame>, bool))
        requires
            old(self)@.wf(),
        ensures
            (final(self)@, frame_view(r.0), r.1) == bulk_in_step(old(self)@, error),
            final(self)@.wf(),
    {
        let send_shell_output = !error && self.adb_shell_followup == ADB_SHELL_FOLLOWUP_OUTPUT;
        let device_id = self.adb_device_id;
        let host_id = self.adb_host_id;
        let return_after = !error && self.return_after_response;
        let shell_v2 = self.adb_shell_v2;
        self.adb_shell_followup = 0;
        self.response_pending = false;
        if error {
            self.return_after_response = false;
            self.adb_shell_close_after_okay = false;
            self.adb_shell_v2_output_sent = false;
            self.adb_shell_v2 = false;
        }
        let mut frame: Option<OutFrame> = None;
        if send_shell_output {
            let output = shell_output(self.adb_shell_command.as_slice(), ADB_FRAME_PAYLOAD_BYTES);
            if shell_v2 {
                let framed = shell_v2_stdout(output.as_slice(), ADB_FRAME_PAYLOAD_BYTES);
                self.adb_shell_v2_output_sent = true;
                frame = self.queue_adb(ADB_WRTE, device_id, host_id, framed.as_slice(), false);
            } else {
                self.adb_shell_close_after_okay = true;
                frame = self.queue_adb(ADB_WRTE, device_id, host_id, output.as_slice(), false);
            }
        }
        if return_after {
            self.return_after_response = false;
        }
        (frame, return_after)
    }
}

} // verus!

verus! {

// ---------------------------------------------------------------------------
// Properties of the transport
// ---------------------------------------------------------------------------

/// At most one response is ever in flight: while a response is pending, no
/// packet from the host produces another frame, and host packets never
/// change whether a response is pending or what happens after it.
pub proof fn lemma_one_response_in_flight(
    s: TransportState,
    data: Seq<u8>,
    error: bool,
    trace: TraceStatus,
)
    ensures
        ({
            let (t, reply) = bulk_out_step(s, data, error, trace);
            &&& t.response_pending == s.response_pending
            &&& t.return_after_response == s.return_after_response
            &&& t.return_enabled == s.return_enabled
            &&& s.response_pending ==> reply is None
        }),
{
}

/// Every ADB message the transport sends parses back, on the host side of
/// the same framing, to the command, arguments and payload it was built from.
pub proof fn lemma_adb_reply_parses_back(
    s: TransportState,
    command: u32,
    arg0: u32,
    arg1: u32,
    payload: Seq<u8>,
    return_after: bool,
)
    ensures
        match adb_reply(s, command, arg0, arg1, payload, return_after) {
            Some((frame, _)) => spec_parse_adb(frame) == Some((command, arg0, arg1, payload)),
            None => true,
        },
{
    if payload.len() <= ADB_FRAME_PAYLOAD_BYTES && !s.response_pending {
        let checksum = if s.adb_skip_checksum {
            0
        } else {
            spec_adb_checksum(payload)
        };
        lemma_adb_frame_roundtrip(command, arg0, arg1, checksum, payload);
    }
}

/// A build without the return switch never returns to the boot chain: it
/// starts in a state without it, every bulk event keeps that, no frame asks
/// for it, and completing a response never triggers it.
pub proof fn lemma_return_disabled_never_returns(
    s: TransportState,
    data: Seq<u8>,
    error: bool,
    trace: TraceStatus,
)
    requires
        !s.return_enabled,
        !s.return_after_response,
    ensures
        !initial_state(false).return_enabled && !initial_state(false).return_after_response,
        ({
            let (t, reply) = bulk_out_step(s, data, error, trace);
            &&& !t.return_enabled
            &&& !t.return_after_response
            &&& match reply {
                Some((_, return_after)) => !return_after,
                None => true,
            }
        }),
        ({
            let (t, reply, return_now) = bulk_in_step(s, error);
            &&& !return_now
            &&& !t.return_after_response
            &&& match reply {
                Some((_, return_after)) => !return_after,
                None => true,
            }
        }),
{
}

/// A CLSE that names the open stream's host id always closes the stream,
/// whatever state the stream was in.
pub proof fn lemma_close_ends_stream(s: TransportState, arg1: u32, payload: Seq<u8>)
    ensures
        ({
            let (t, reply) = adb_step(s, ADB_CLSE, s.adb_host_id, arg1, payload);
            &&& t.adb_stream_kind == ADB_STREAM_NONE
            &&& t.adb_shell_followup == 0
            &&& reply is None
        }),
{
}

/// Completing the pending response always clears it, so the next request can
/// be answered.
pub proof fn lemma_completion_clears_pending(s: TransportState, error: bool)
    ensures
        ({
            let (t, _, _) = bulk_in_step(s, error);
            !t.response_pending && !t.return_after_response
        }),
{
}

} // verus!
