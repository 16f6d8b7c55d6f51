//! The event records that the kernel side writes into the ring buffer, and
//! their rendering for the backend.

use vstd::prelude::*;
use vstd::string::*;
use vstd::utf8::*;

use crate::text::{all_digits, canonical_decimal, digits_value, lemma_decimal_canonical, decimal, is_digit, lemma_decimal_digits, lemma_decimal_injective, push_decimal, utf8_lossy, utf8_to_string, utf8_to_string_lossy};

verus! {

/// Size in bytes of one event record as the kernel side lays it out
/// (C layout of `Event`, including the trailing alignment padding).
pub const EVENT_SIZE: usize = 288;

/// Length of the file name field of an event record.
pub const FILENAME_LEN: usize = 256;

/// What an event reports.
#[derive(Debug, Clone, Copy, PartialEq, Eq, Structural)]
pub enum EventType {
    /// An event type code that the agent does not know (code 0 and every
    /// code other than 1 and 2).
    Unknown,
    /// A file was opened (code 1).
    FileOpen,
    /// A network connection was started (code 2).
    NetworkConnect,
}

/// The event type that the record code `code` stands for.
pub open spec fn event_type_of(code: u32) -> EventType {
    if code == 1 {
        EventType::FileOpen
    } else if code == 2 {
        EventType::NetworkConnect
    } else {
        EventType::Unknown
    }
}

/// The code by which records carry the event type `t`.
pub open spec fn wire_code(t: EventType) -> u32 {
    match t {
        EventType::FileOpen => 1,
        EventType::NetworkConnect => 2,
        EventType::Unknown => 0,
    }
}

/// The name under which an event type is shown and sent.
pub open spec fn event_type_name(t: EventType) -> Seq<char> {
    match t {
        EventType::FileOpen => "FileOpen"@,
        EventType::NetworkConnect => "NetworkConncet"@,
        EventType::Unknown => "Unknown"@,
    }
}

impl vstd::std_specs::convert::FromSpecImpl<u32> for EventType {
    open spec fn obeys_from_spec() -> bool {
        true
    }

    open spec fn from_spec(v: u32) -> EventType {
        event_type_of(v)
    }
}

impl From<u32> for EventType {
    /// Reads a record's event type code: 1 is a file open, 2 a network
    /// connect, every other code is unknown.
    fn from(value: u32) -> (r: EventType) {
        if value == 1 {
            EventType::FileOpen
        } else if value == 2 {
            EventType::NetworkConnect
        } else {
            EventType::Unknown
        }
    }
}

impl EventType {
    /// The name of the event type, as it is shown in logs and sent to the backend.
    pub fn to_string(&self) -> (s: String)
        ensures
            s@ == event_type_name(*self),
    {
        match self {
            EventType::FileOpen => String::from_str("FileOpen"),
            EventType::NetworkConnect => String::from_str("NetworkConncet"),
            EventType::Unknown => String::from_str("Unknown"),
        }
    }
}

/// Index of the first zero byte of `s` at or after `from`, or `s.len()` if none.
pub open spec fn first_nul(s: Seq<u8>, from: int) -> int
    decreases s.len() - from,
{
    if from >= s.len() || from < 0 {
        s.len() as int
    } else if s[from] == 0 {
        from
    } else {
        first_nul(s, from + 1)
    }
}

/// The value of the four bytes at `off` read as a little-endian number.
pub open spec fn le_u32_at(b: Seq<u8>, off: int) -> int {
    b[off] + b[off + 1] * 0x100 + b[off + 2] * 0x1_0000 + b[off + 3] * 0x100_0000
}

/// The value of the two bytes at `off` read as a little-endian number.
pub open spec fn le_u16_at(b: Seq<u8>, off: int) -> int {
    b[off] + b[off + 1] * 0x100
}

/// The value of the eight bytes at `off` read as a little-endian number.
pub open spec fn le_u64_at(b: Seq<u8>, off: int) -> int {
    le_u32_at(b, off) + le_u32_at(b, off + 4) * 0x1_0000_0000
}

/// The four octets of an IPv4 address held in network byte order in a
/// little-endian `u32`, lowest byte first, written in dotted-decimal form.
pub open spec fn dotted_quad(ip: u32) -> Seq<char> {
    decimal((ip & 0xff) as nat) + seq!['.'] + decimal(((ip >> 8) & 0xff) as nat) + seq!['.']
        + decimal(((ip >> 16) & 0xff) as nat) + seq!['.'] + decimal(((ip >> 24) & 0xff) as nat)
}

/// Reading the code of an event type gives that event type back; every code
/// other than 1 and 2 reads as `Unknown`.
pub proof fn lemma_event_type_code_roundtrip(t: EventType, code: u32)
    ensures
        event_type_of(wire_code(t)) == t,
        code != 1 && code != 2 ==> event_type_of(code) == EventType::Unknown,
{
}

/// Splits `x + "." + r` at its first dot, when `x` holds no dot.
proof fn lemma_split_at_dot(x: Seq<char>, r: Seq<char>, y: Seq<char>, t: Seq<char>)
    requires
        all_digits(x),
        all_digits(y),
        x + seq!['.'] + r == y + seq!['.'] + t,
    ensures
        x == y,
        r == t,
{
    let l = x + seq!['.'] + r;
    let m = y + seq!['.'] + t;
    if x.len() < y.len() {
        assert(l[x.len() as int] == '.');
        assert(m[x.len() as int] == y[x.len() as int]);
        assert(is_digit(y[x.len() as int]));
    } else if y.len() < x.len() {
        assert(m[y.len() as int] == '.');
        assert(l[y.len() as int] == x[y.len() as int]);
        assert(is_digit(x[y.len() as int]));
    }
    assert(x =~= l.subrange(0, x.len() as int));
    assert(y =~= m.subrange(0, y.len() as int));
    assert(r =~= l.subrange(x.len() as int + 1, l.len() as int));
    assert(t =~= m.subrange(y.len() as int + 1, m.len() as int));
}

/// Splits a dotted form of four digit strings into its parts.
proof fn lemma_split_dotted(
    a0: Seq<char>, a1: Seq<char>, a2: Seq<char>, a3: Seq<char>,
    b0: Seq<char>, b1: Seq<char>, b2: Seq<char>, b3: Seq<char>,
)
    requires
        all_digits(a0), all_digits(a1), all_digits(a2),
        all_digits(b0), all_digits(b1), all_digits(b2),
        a0 + seq!['.'] + a1 + seq!['.'] + a2 + seq!['.'] + a3
            == b0 + seq!['.'] + b1 + seq!['.'] + b2 + seq!['.'] + b3,
    ensures
        a0 == b0 && a1 == b1 && a2 == b2 && a3 == b3,
{
    let d = seq!['.'];
    assert(a0 + d + a1 + d + a2 + d + a3 =~= a0 + d + (a1 + d + (a2 + d + a3)));
    assert(b0 + d + b1 + d + b2 + d + b3 =~= b0 + d + (b1 + d + (b2 + d + b3)));
    lemma_split_at_dot(a0, a1 + d + (a2 + d + a3), b0, b1 + d + (b2 + d + b3));
    lemma_split_at_dot(a1, a2 + d + a3, b1, b2 + d + b3);
    lemma_split_at_dot(a2, a3, b2, b3);
}

/// Different destination addresses are shown differently: the dotted form
/// determines the address.
pub proof fn lemma_dotted_quad_injective(a: u32, b: u32)
    ensures
        dotted_quad(a) == dotted_quad(b) ==> a == b,
{
    let x0 = a & 0xff;
    let x1 = (a >> 8) & 0xff;
    let x2 = (a >> 16) & 0xff;
    let x3 = (a >> 24) & 0xff;
    let y0 = b & 0xff;
    let y1 = (b >> 8) & 0xff;
    let y2 = (b >> 16) & 0xff;
    let y3 = (b >> 24) & 0xff;
    if dotted_quad(a) == dotted_quad(b) {
        lemma_decimal_digits(x0 as nat);
        lemma_decimal_digits(x1 as nat);
        lemma_decimal_digits(x2 as nat);
        lemma_decimal_digits(y0 as nat);
        lemma_decimal_digits(y1 as nat);
        lemma_decimal_digits(y2 as nat);
        lemma_split_dotted(
            decimal(x0 as nat), decimal(x1 as nat), decimal(x2 as nat), decimal(x3 as nat),
            decimal(y0 as nat), decimal(y1 as nat), decimal(y2 as nat), decimal(y3 as nat),
        );
        lemma_decimal_injective(x0 as nat, y0 as nat);
        lemma_decimal_injective(x1 as nat, y1 as nat);
        lemma_decimal_injective(x2 as nat, y2 as nat);
        lemma_decimal_injective(x3 as nat, y3 as nat);
        assert(a == b) by (bit_vector)
            requires
                a & 0xff == b & 0xff,
                (a >> 8) & 0xff == (b >> 8) & 0xff,
                (a >> 16) & 0xff == (b >> 16) & 0xff,
                (a >> 24) & 0xff == (b >> 24) & 0xff,
        ;
    }
}

/// The dotted form of an address is four fields split by dots; each field is
/// a canonical decimal numeral of an octet below 256, and the four octets,
/// lowest first, recombine into the address.
pub proof fn lemma_dotted_quad_fields(ip: u32)
    ensures
        ({
            let o0 = ip & 0xff;
            let o1 = (ip >> 8) & 0xff;
            let o2 = (ip >> 16) & 0xff;
            let o3 = (ip >> 24) & 0xff;
            &&& dotted_quad(ip) == decimal(o0 as nat) + seq!['.'] + decimal(o1 as nat) + seq!['.']
                + decimal(o2 as nat) + seq!['.'] + decimal(o3 as nat)
            &&& o0 < 256 && o1 < 256 && o2 < 256 && o3 < 256
            &&& canonical_decimal(decimal(o0 as nat)) && digits_value(decimal(o0 as nat)) == o0
            &&& canonical_decimal(decimal(o1 as nat)) && digits_value(decimal(o1 as nat)) == o1
            &&& canonical_decimal(decimal(o2 as nat)) && digits_value(decimal(o2 as nat)) == o2
            &&& canonical_decimal(decimal(o3 as nat)) && digits_value(decimal(o3 as nat)) == o3
            &&& o0 + o1 * 0x100 + o2 * 0x1_0000 + o3 * 0x100_0000 == ip
        }),
{
    let o0 = ip & 0xff;
    let o1 = (ip >> 8) & 0xff;
    let o2 = (ip >> 16) & 0xff;
    let o3 = (ip >> 24) & 0xff;
    lemma_decimal_canonical(o0 as nat);
    lemma_decimal_canonical(o1 as nat);
    lemma_decimal_canonical(o2 as nat);
    lemma_decimal_canonical(o3 as nat);
    lemma_decimal_digits(o0 as nat);
    lemma_decimal_digits(o1 as nat);
    lemma_decimal_digits(o2 as nat);
    lemma_decimal_digits(o3 as nat);
    assert(o0 < 256 && o1 < 256 && o2 < 256 && o3 < 256) by (bit_vector)
        requires
            o0 == ip & 0xff,
            o1 == (ip >> 8) & 0xff,
            o2 == (ip >> 16) & 0xff,
            o3 == (ip >> 24) & 0xff,
    ;
    assert(o0 + o1 * 0x100 + o2 * 0x1_0000 + o3 * 0x100_0000 == ip) by (bit_vector)
        requires
            o0 == ip & 0xff,
            o1 == (ip >> 8) & 0xff,
            o2 == (ip >> 16) & 0xff,
            o3 == (ip >> 24) & 0xff,
    ;
}

/// One event as the kernel side reports it.
#[derive(Debug, Clone, Copy)]
pub struct Event {
    /// Process that caused the event.
    pub pid: u32,
    /// User the process runs as.
    pub uid: u32,
    /// Kernel timestamp of the event.
    pub timestamp: u64,
    /// Event type code (see `EventType`).
    pub event_type: u32,
    /// Path of the opened file, zero-terminated unless it fills the field.
    pub filename: [u8; 256],
    /// Destination IPv4 address of a connect, in network byte order.
    pub dest_ip: u32,
    /// Destination port of a connect.
    pub dest_port: u16,
    /// Alignment padding of the record; carries no information.
    pub _padding: u16,
}

impl Event {
    /// Length of the file name: the bytes before the first zero byte.
    pub open spec fn spec_filename_len(&self) -> int {
        first_nul(self.filename@, 0)
    }

    /// The bytes of the file name, without the terminating zero.
    pub open spec fn spec_filename_bytes(&self) -> Seq<u8> {
        self.filename@.take(self.spec_filename_len())
    }

    /// Whether the record is one the agent acts on.
    pub open spec fn spec_is_valid(&self) -> bool {
        self.pid > 0 && self.event_type > 0
    }

    /// An event with the given fields.
    pub fn new(
        pid: u32,
        uid: u32,
        timestamp: u64,
        event_type: u32,
        filename: [u8; 256],
        dest_ip: u32,
        dest_port: u16,
    ) -> (e: Event)
        ensures
            e.pid == pid,
            e.uid == uid,
            e.timestamp == timestamp,
            e.event_type == event_type,
            e.filename == filename,
            e.dest_ip == dest_ip,
            e.dest_port == dest_port,
    {
        Event { pid, uid, timestamp, event_type, filename, dest_ip, dest_port, _padding: 0 }
    }

    /// The length of the file name: the index of the first zero byte of the
    /// field, or the field's length when it holds none.
    pub fn filename_len(&self) -> (n: usize)
        ensures
            n == self.spec_filename_len(),
            n <= FILENAME_LEN,
            forall|i: int| 0 <= i < n ==> self.filename@[i] != 0,
            n < FILENAME_LEN ==> self.filename@[n as int] == 0,
    {
        let mut i: usize = 0;
        while i < FILENAME_LEN
            invariant
                i <= FILENAME_LEN,
                self.filename@.len() == FILENAME_LEN,
                forall|j: int| 0 <= j < i ==> self.filename@[j] != 0,
                first_nul(self.filename@, i as int) == first_nul(self.filename@, 0),
            decreases FILENAME_LEN - i,
        {
            if self.filename[i] == 0 {
                return i;
            }
            i = i + 1;
        }
        i
    }

    /// The file name as text; an error when its bytes are not UTF-8.
    pub fn get_filename(&self) -> (r: Result<String, std::str::Utf8Error>)
        ensures
            r is Ok <==> valid_utf8(self.spec_filename_bytes()),
            r matches Ok(s) ==> s@ == decode_utf8(self.spec_filename_bytes()),
    {
        let len = self.filename_len();
        let (name, _) = self.filename.as_slice().split_at(len);
        utf8_to_string(name)
    }

    /// The file name as text, with each ill-formed part replaced by U+FFFD.
    pub fn get_filename_lossy(&self) -> (s: String)
        ensures
            s@ == utf8_lossy(self.spec_filename_bytes()),
            valid_utf8(self.spec_filename_bytes()) ==> s@ == decode_utf8(self.spec_filename_bytes()),
            !valid_utf8(self.spec_filename_bytes()) ==> s@.contains('\u{FFFD}'),
            s@.len() <= self.spec_filename_len(),
            !s@.contains('\0'),
    {
        let len = self.filename_len();
        let (name, _) = self.filename.as_slice().split_at(len);
        utf8_to_string_lossy(name)
    }

    /// The destination address in dotted-decimal form, lowest byte first.
    pub fn get_dest_ip(&self) -> (s: String)
        ensures
            s@ == dotted_quad(self.dest_ip),
    {
        let ip = self.dest_ip;
        let mut s = String::new();
        push_decimal(&mut s, (ip & 0xff) as u64);
        s.append(".");
        push_decimal(&mut s, ((ip >> 8) & 0xff) as u64);
        s.append(".");
        push_decimal(&mut s, ((ip >> 16) & 0xff) as u64);
        s.append(".");
        push_decimal(&mut s, ((ip >> 24) & 0xff) as u64);
        proof {
            reveal_strlit(".");
            assert(s@ =~= dotted_quad(ip));
        }
        s
    }

    /// What the event reports.
    pub fn get_event_type(&self) -> (t: EventType)
        ensures
            t == event_type_of(self.event_type),
    {
        EventType::from(self.event_type)
    }

    /// Whether the record names a process and an event type.
    pub fn is_valid(&self) -> (b: bool)
        ensures
            b == self.spec_is_valid(),
            b <==> (self.pid != 0 && self.event_type != 0),
    {
        self.pid > 0 && self.event_type > 0
    }
}


/// `e` is what the record in `b` holds: C layout, little-endian, `pid` at
/// byte 0, `uid` at 4, `timestamp` at 8, `event_type` at 16, the file name in
/// bytes 20 to 275, `dest_ip` at 276, `dest_port` at 280 and padding at 282.
pub open spec fn decodes_to(b: Seq<u8>, e: Event) -> bool {
    &&& e.pid == le_u32_at(b, 0)
    &&& e.uid == le_u32_at(b, 4)
    &&& e.timestamp == le_u64_at(b, 8)
    &&& e.event_type == le_u32_at(b, 16)
    &&& e.filename@ == b.subrange(20, 276)
    &&& e.dest_ip == le_u32_at(b, 276)
    &&& e.dest_port == le_u16_at(b, 280)
    &&& e._padding == le_u16_at(b, 282)
}

proof fn lemma_first_nul(s: Seq<u8>, from: int)
    requires
        0 <= from <= s.len(),
    ensures
        from <= first_nul(s, from) <= s.len(),
        forall|i: int| from <= i < first_nul(s, from) ==> s[i] != 0,
        first_nul(s, from) < s.len() ==> s[first_nul(s, from)] == 0,
    decreases s.len() - from,
{
    if from < s.len() && s[from] != 0 {
        lemma_first_nul(s, from + 1);
    }
}

/// The file name is exactly the bytes of the field before its first zero
/// byte: a prefix of the field, free of zero bytes, and followed by a zero
/// byte unless it fills the whole field.
pub proof fn lemma_filename_bytes(e: Event)
    ensures
        e.spec_filename_bytes().len() <= FILENAME_LEN,
        e.spec_filename_bytes() == e.filename@.subrange(0, e.spec_filename_bytes().len() as int),
        forall|i: int| 0 <= i < e.spec_filename_bytes().len() ==> e.spec_filename_bytes()[i] != 0,
        e.spec_filename_bytes().len() < FILENAME_LEN ==> e.filename@[e.spec_filename_bytes().len() as int] == 0,
{
    lemma_first_nul(e.filename@, 0);
    let n = e.spec_filename_len();
    assert(e.spec_filename_bytes() =~= e.filename@.subrange(0, n));
}

/// An event is valid exactly when it names a process (a non-zero pid) and
/// an event type (a non-zero code), whatever the code is: file opens,
/// network connects and unknown codes alike.
pub proof fn lemma_validity(e: Event)
    ensures
        e.spec_is_valid() <==> (e.pid != 0 && e.event_type != 0),
        e.pid != 0 && event_type_of(e.event_type) == EventType::FileOpen ==> e.spec_is_valid(),
        e.pid != 0 && event_type_of(e.event_type) == EventType::NetworkConnect ==> e.spec_is_valid(),
{
}

/// The four bytes of `x`, lowest first.
pub open spec fn u32_bytes(x: u32) -> Seq<u8> {
    seq![(x & 0xff) as u8, ((x >> 8) & 0xff) as u8, ((x >> 16) & 0xff) as u8, ((x >> 24) & 0xff) as u8]
}

/// The two bytes of `x`, lowest first.
pub open spec fn u16_bytes(x: u16) -> Seq<u8> {
    seq![(x & 0xff) as u8, ((x >> 8) & 0xff) as u8]
}

/// The eight bytes of `x`, lowest first.
pub open spec fn u64_bytes(x: u64) -> Seq<u8> {
    u32_bytes((x & 0xffff_ffff) as u32) + u32_bytes((x >> 32) as u32)
}

/// The record the kernel side writes for `e`: its fields in C layout,
/// little-endian, followed by four bytes of trailing alignment padding.
pub open spec fn record_of(e: Event) -> Seq<u8> {
    u32_bytes(e.pid) + u32_bytes(e.uid) + u64_bytes(e.timestamp) + u32_bytes(e.event_type)
        + e.filename@ + u32_bytes(e.dest_ip) + u16_bytes(e.dest_port) + u16_bytes(e._padding)
        + seq![0u8, 0u8, 0u8, 0u8]
}

proof fn lemma_u32_bytes(x: u32)
    ensures
        u32_bytes(x).len() == 4,
        u32_bytes(x)[0] + u32_bytes(x)[1] * 0x100 + u32_bytes(x)[2] * 0x1_0000 + u32_bytes(x)[3] * 0x100_0000 == x,
{
    let b0 = (x & 0xff) as u8;
    let b1 = ((x >> 8) & 0xff) as u8;
    let b2 = ((x >> 16) & 0xff) as u8;
    let b3 = ((x >> 24) & 0xff) as u8;
    assert(b0 as u32 + (b1 as u32) * 0x100 + (b2 as u32) * 0x1_0000 + (b3 as u32) * 0x100_0000 == x) by (bit_vector)
        requires
            b0 == (x & 0xff) as u8,
            b1 == ((x >> 8) & 0xff) as u8,
            b2 == ((x >> 16) & 0xff) as u8,
            b3 == ((x >> 24) & 0xff) as u8,
    ;
}

proof fn lemma_u16_bytes(x: u16)
    ensures
        u16_bytes(x).len() == 2,
        u16_bytes(x)[0] + u16_bytes(x)[1] * 0x100 == x,
{
    let b0 = (x & 0xff) as u8;
    let b1 = ((x >> 8) & 0xff) as u8;
    assert(b0 as u16 + (b1 as u16) * 0x100 == x) by (bit_vector)
        requires
            b0 == (x & 0xff) as u8,
            b1 == ((x >> 8) & 0xff) as u8,
    ;
}

proof fn lemma_u64_halves(x: u64)
    ensures
        (x & 0xffff_ffff) as u32 + ((x >> 32) as u32) * 0x1_0000_0000 == x,
{
    let lo = (x & 0xffff_ffff) as u32;
    let hi = (x >> 32) as u32;
    assert(lo as u64 + (hi as u64) * 0x1_0000_0000 == x) by (bit_vector)
        requires
            lo == (x & 0xffff_ffff) as u32,
            hi == (x >> 32) as u32,
    ;
}

/// Where each field of a record sits: a record that decodes to `e` holds
/// each number little-endian at its offset (`pid` at byte 0, `uid` at 4,
/// `timestamp` at 8, `event_type` at 16, `dest_ip` at 276, `dest_port` at
/// 280) and the file name in bytes 20 to 275.
pub proof fn lemma_record_layout(b: Seq<u8>, e: Event)
    requires
        b.len() >= EVENT_SIZE,
        decodes_to(b, e),
    ensures
        e.pid as int == b[0] + b[1] * 0x100 + b[2] * 0x1_0000 + b[3] * 0x100_0000,
        e.uid as int == b[4] + b[5] * 0x100 + b[6] * 0x1_0000 + b[7] * 0x100_0000,
        e.timestamp as int == b[8] + b[9] * 0x100 + b[10] * 0x1_0000 + b[11] * 0x100_0000
            + b[12] * 0x1_0000_0000 + b[13] * 0x100_0000_0000 + b[14] * 0x1_0000_0000_0000
            + b[15] * 0x100_0000_0000_0000,
        e.event_type as int == b[16] + b[17] * 0x100 + b[18] * 0x1_0000 + b[19] * 0x100_0000,
        forall|i: int| 0 <= i < FILENAME_LEN ==> e.filename@[i] == b[20 + i],
        e.dest_ip as int == b[276] + b[277] * 0x100 + b[278] * 0x1_0000 + b[279] * 0x100_0000,
        e.dest_port as int == b[280] + b[281] * 0x100,
{
    assert forall|i: int| 0 <= i < FILENAME_LEN implies e.filename@[i] == b[20 + i] by {
        assert(e.filename@[i] == b.subrange(20, 276)[i]);
    }
}

/// A record determines its event: two events that the same record decodes
/// to are equal.
pub proof fn lemma_record_determines_event(b: Seq<u8>, e1: Event, e2: Event)
    requires
        decodes_to(b, e1),
        decodes_to(b, e2),
    ensures
        e1 == e2,
{
    assert(e1.filename =~= e2.filename);
}

/// The record written for any event decodes back to that event: the
/// decoding reads every field where the kernel side writes it.
pub proof fn lemma_record_roundtrip(e: Event)
    ensures
        record_of(e).len() == EVENT_SIZE,
        decodes_to(record_of(e), e),
{
    let r = record_of(e);
    lemma_u32_bytes(e.pid);
    lemma_u32_bytes(e.uid);
    lemma_u32_bytes((e.timestamp & 0xffff_ffff) as u32);
    lemma_u32_bytes((e.timestamp >> 32) as u32);
    lemma_u64_halves(e.timestamp);
    lemma_u32_bytes(e.event_type);
    lemma_u32_bytes(e.dest_ip);
    lemma_u16_bytes(e.dest_port);
    lemma_u16_bytes(e._padding);
    let ts = u64_bytes(e.timestamp);
    assert(r.subrange(0, 4) =~= u32_bytes(e.pid));
    assert(r.subrange(4, 8) =~= u32_bytes(e.uid));
    assert(r.subrange(8, 16) =~= ts);
    assert(r.subrange(16, 20) =~= u32_bytes(e.event_type));
    assert(r.subrange(20, 276) =~= e.filename@);
    assert(r.subrange(276, 280) =~= u32_bytes(e.dest_ip));
    assert(r.subrange(280, 282) =~= u16_bytes(e.dest_port));
    assert(r.subrange(282, 284) =~= u16_bytes(e._padding));
    assert(r[0] == r.subrange(0, 4)[0] && r[1] == r.subrange(0, 4)[1]
        && r[2] == r.subrange(0, 4)[2] && r[3] == r.subrange(0, 4)[3]);
    assert(r[4] == r.subrange(4, 8)[0] && r[5] == r.subrange(4, 8)[1]
        && r[6] == r.subrange(4, 8)[2] && r[7] == r.subrange(4, 8)[3]);
    assert(r[8] == ts[0] && r[9] == ts[1] && r[10] == ts[2] && r[11] == ts[3]);
    assert(r[12] == ts[4] && r[13] == ts[5] && r[14] == ts[6] && r[15] == ts[7]);
    assert(r[16] == r.subrange(16, 20)[0] && r[17] == r.subrange(16, 20)[1]
        && r[18] == r.subrange(16, 20)[2] && r[19] == r.subrange(16, 20)[3]);
    assert(r[276] == r.subrange(276, 280)[0] && r[277] == r.subrange(276, 280)[1]
        && r[278] == r.subrange(276, 280)[2] && r[279] == r.subrange(276, 280)[3]);
    assert(r[280] == r.subrange(280, 282)[0] && r[281] == r.subrange(280, 282)[1]);
    assert(r[282] == r.subrange(282, 284)[0] && r[283] == r.subrange(282, 284)[1]);
    assert(ts.subrange(0, 4) =~= u32_bytes((e.timestamp & 0xffff_ffff) as u32));
    assert(ts.subrange(4, 8) =~= u32_bytes((e.timestamp >> 32) as u32));
    assert(ts[0] == ts.subrange(0, 4)[0] && ts[1] == ts.subrange(0, 4)[1]
        && ts[2] == ts.subrange(0, 4)[2] && ts[3] == ts.subrange(0, 4)[3]);
    assert(ts[4] == ts.subrange(4, 8)[0] && ts[5] == ts.subrange(4, 8)[1]
        && ts[6] == ts.subrange(4, 8)[2] && ts[7] == ts.subrange(4, 8)[3]);
}

/// Reads the little-endian `u32` at `off`.
fn read_u32_le(b: &[u8], off: usize) -> (v: u32)
    requires
        off + 4 <= b@.len(),
    ensures
        v == le_u32_at(b@, off as int),
{
    (b[off] as u32) + (b[off + 1] as u32) * 0x100 + (b[off + 2] as u32) * 0x1_0000
        + (b[off + 3] as u32) * 0x100_0000
}

/// Reads the little-endian `u16` at `off`.
fn read_u16_le(b: &[u8], off: usize) -> (v: u16)
    requires
        off + 2 <= b@.len(),
    ensures
        v == le_u16_at(b@, off as int),
{
    (b[off] as u16) + (b[off + 1] as u16) * 0x100
}

/// Reads the little-endian `u64` at `off`.
fn read_u64_le(b: &[u8], off: usize) -> (v: u64)
    requires
        off + 8 <= b@.len(),
    ensures
        v == le_u64_at(b@, off as int),
{
    let n = b.len();
    assert(off + 4 <= n);
    let lo = read_u32_le(b, off);
    let hi = read_u32_le(b, off + 4);
    (lo as u64) + (hi as u64) * 0x1_0000_0000
}

impl Event {
    /// Decodes one event record as the kernel side writes it (see
    /// `decodes_to`). `None` when fewer than `EVENT_SIZE` bytes are given;
    /// bytes past the record are ignored.
    pub fn from_bytes(bytes: &[u8]) -> (r: Option<Event>)
        ensures
            r is Some <==> bytes@.len() >= EVENT_SIZE,
            r matches Some(e) ==> decodes_to(bytes@, e),
    {
        if bytes.len() < EVENT_SIZE {
            return None;
        }
        let mut filename = [0u8; 256];
        let mut i: usize = 0;
        while i < FILENAME_LEN
            invariant
                i <= FILENAME_LEN,
                bytes@.len() >= EVENT_SIZE,
                filename@.len() == FILENAME_LEN,
                forall|j: int| 0 <= j < i ==> filename@[j] == bytes@[20 + j],
            decreases FILENAME_LEN - i,
        {
            filename[i] = bytes[20 + i];
            i = i + 1;
        }
        assert(filename@ =~= bytes@.subrange(20, 276));
        Some(Event {
            pid: read_u32_le(bytes, 0),
            uid: read_u32_le(bytes, 4),
            timestamp: read_u64_le(bytes, 8),
            event_type: read_u32_le(bytes, 16),
            filename,
            dest_ip: read_u32_le(bytes, 276),
            dest_port: read_u16_le(bytes, 280),
            _padding: read_u16_le(bytes, 282),
        })
    }
}

/// An event in the form the backend and the logs take it.
pub struct EventDto {
    /// Process that caused the event.
    pub pid: u32,
    /// User the process runs as.
    pub uid: u32,
    /// Kernel timestamp of the event.
    pub timestamp: u64,
    /// Name of the event type.
    pub event_type: String,
    /// The opened file, for file opens.
    pub filename: Option<String>,
    /// The destination address, for network connects.
    pub dest_ip: Option<String>,
    /// The destination port, for network connects.
    pub dest_port: Option<u16>,
}

impl EventDto {
    /// The form of `event` that is sent on: the type's name, the file name
    /// (lossily decoded) for a file open, address and port for a network
    /// connect, neither for an unknown type.
    pub fn from(event: &Event) -> (d: EventDto)
        ensures
            d.pid == event.pid,
            d.uid == event.uid,
            d.timestamp == event.timestamp,
            d.event_type@ == event_type_name(event_type_of(event.event_type)),
            match event_type_of(event.event_type) {
                EventType::FileOpen => {
                    &&& d.filename matches Some(f) && f@ == utf8_lossy(event.spec_filename_bytes())
                    &&& d.dest_ip is None
                    &&& d.dest_port is None
                },
                EventType::NetworkConnect => {
                    &&& d.filename is None
                    &&& d.dest_ip matches Some(ip) && ip@ == dotted_quad(event.dest_ip)
                    &&& d.dest_port == Some(event.dest_port)
                },
                EventType::Unknown => {
                    &&& d.filename is None
                    &&& d.dest_ip is None
                    &&& d.dest_port is None
                },
            },
    {
        let kind = event.get_event_type();
        let (filename, dest_ip, dest_port) = match kind {
            EventType::FileOpen => (Some(event.get_filename_lossy()), None, None),
            EventType::NetworkConnect => (None, Some(event.get_dest_ip()), Some(event.dest_port)),
            EventType::Unknown => (None, None, None),
        };
        EventDto {
            pid: event.pid,
            uid: event.uid,
            timestamp: event.timestamp,
            event_type: kind.to_string(),
            filename,
            dest_ip,
            dest_port,
        }
    }
}

} // verus!
