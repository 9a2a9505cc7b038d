//! The smartsocket host protocol on the wire: framing, status replies and
//! transport ids.
use vstd::prelude::*;
use vstd::utf8::{
    decode_utf8, encode_utf8, encode_utf8_decode_utf8, encode_utf8_valid_utf8,
    is_ascii_chars_encode_utf8, is_char_boundary, valid_utf8, valid_utf8_split,
};

use crate::number::{decimal, decimal_is_ascii, decimal_length, decimal_string, ten_to};
use crate::order::{
    lex_irreflexive, lex_less, lex_transitive, sorted_distinct, sorted_set, sorted_set_is_the_set,
    strictly_sorted, strictly_sorted_is_distinct, strictly_sorted_lists_agree,
};
use crate::text::{str_eq, texts};

verus! {

/// The longest payload that a four-digit hexadecimal length can announce.
pub const MAX_FRAME: usize = 0xffff;

/// The ASCII code of the lower-case hexadecimal digit with value `d`.
pub open spec fn hex_digit(d: nat) -> u8 {
    if d < 10 {
        (0x30 + d) as u8
    } else {
        (0x61 + (d - 10)) as u8
    }
}

/// `n` as four lower-case hexadecimal digits.
pub open spec fn hex4(n: nat) -> Seq<u8> {
    seq![
        hex_digit(n / 4096 % 16),
        hex_digit(n / 256 % 16),
        hex_digit(n / 16 % 16),
        hex_digit(n % 16),
    ]
}

/// The value of an ASCII hexadecimal digit, upper or lower case.
pub open spec fn hex_value(b: u8) -> Option<nat> {
    if 0x30 <= b <= 0x39 {
        Some((b - 0x30) as nat)
    } else if 0x61 <= b <= 0x66 {
        Some((b - 0x61 + 10) as nat)
    } else if 0x41 <= b <= 0x46 {
        Some((b - 0x41 + 10) as nat)
    } else {
        None
    }
}

/// The length that four bytes announce: all of them must be hexadecimal digits.
pub open spec fn parsed_hex_len(b: Seq<u8>) -> Option<nat>
    recommends
        b.len() == 4,
{
    match (hex_value(b[0]), hex_value(b[1]), hex_value(b[2]), hex_value(b[3])) {
        (Some(w), Some(x), Some(y), Some(z)) => Some(w * 4096 + x * 256 + y * 16 + z),
        _ => None,
    }
}

/// The status word `OKAY`.
pub open spec fn okay_word() -> Seq<u8> {
    seq![0x4fu8, 0x4bu8, 0x41u8, 0x59u8]
}

/// The status word `FAIL`.
pub open spec fn fail_word() -> Seq<u8> {
    seq![0x46u8, 0x41u8, 0x49u8, 0x4cu8]
}

/// A payload behind its four-digit length.
pub open spec fn framed(payload: Seq<u8>) -> Seq<u8> {
    hex4(payload.len()) + payload
}

/// The last character boundary of `b` that is not beyond `k`.
pub open spec fn boundary_at_most(b: Seq<u8>, k: int) -> int
    decreases k,
{
    if k <= 0 {
        0
    } else if is_char_boundary(b, k) {
        k
    } else {
        boundary_at_most(b, k - 1)
    }
}

/// As many whole characters of the text `b` as fit into one frame.
pub open spec fn clipped(b: Seq<u8>) -> Seq<u8> {
    if b.len() <= MAX_FRAME {
        b
    } else {
        b.subrange(0, boundary_at_most(b, MAX_FRAME as int))
    }
}

/// `FAIL` and the framed reason.
pub open spec fn fail_reply(reason: Seq<char>) -> Seq<u8> {
    fail_word() + framed(clipped(encode_utf8(reason)))
}

/// The framed text, if its length can be announced.
pub open spec fn framed_text(s: Seq<char>) -> Option<Seq<u8>> {
    if encode_utf8(s).len() <= MAX_FRAME {
        Some(framed(encode_utf8(s)))
    } else {
        None
    }
}

/// `OKAY` and the framed text, if its length can be announced.
pub open spec fn okay_data_reply(s: Seq<char>) -> Option<Seq<u8>> {
    match framed_text(s) {
        Some(f) => Some(okay_word() + f),
        None => None,
    }
}

/// `OKAY` twice and the framed decimal port.
pub open spec fn okay_twice_with_port_reply(port: u16) -> Seq<u8> {
    okay_word() + okay_word() + framed(encode_utf8(decimal(port as nat)))
}

/// The `k` low bytes of `n`, least significant first.
pub open spec fn le_bytes(n: nat, k: nat) -> Seq<u8>
    decreases k,
{
    if k == 0 {
        Seq::empty()
    } else {
        seq![(n % 256) as u8] + le_bytes(n / 256, (k - 1) as nat)
    }
}

/// `OKAY` and the transport id as eight little-endian bytes.
pub open spec fn okay_tport_reply(id: u64) -> Seq<u8> {
    okay_word() + le_bytes(id as nat, 8)
}

/// The 1-based place of `serial` in the sorted set of `serials`.
pub open spec fn transport_id(serial: Seq<char>, serials: Seq<Seq<char>>) -> Option<nat> {
    if serials.contains(serial) {
        Some((sorted_set(serials).index_of(serial) + 1) as nat)
    } else {
        None
    }
}

/// The serial at the 1-based place `id` of the sorted set of `serials`.
pub open spec fn serial_at_id(id: nat, serials: Seq<Seq<char>>) -> Option<Seq<char>> {
    if 1 <= id <= sorted_set(serials).len() {
        Some(sorted_set(serials)[id - 1])
    } else {
        None
    }
}

/// A hexadecimal digit reads back as its value.
proof fn hex_digit_reads_back(d: nat)
    requires
        d < 16,
    ensures
        hex_value(hex_digit(d)) == Some(d),
{
}

/// The four digits of a length read back as that length.
pub proof fn length_prefix_reads_back(n: nat)
    requires
        n <= MAX_FRAME,
    ensures
        parsed_hex_len(hex4(n)) == Some(n),
{
    let q1 = n / 16;
    let q2 = q1 / 16;
    let q3 = q2 / 16;
    assert(n / 256 == q2 && n / 4096 == q3 && q3 < 16);
    hex_digit_reads_back(q3 % 16);
    hex_digit_reads_back(q2 % 16);
    hex_digit_reads_back(q1 % 16);
    hex_digit_reads_back(n % 16);
}

/// What is framed can be taken apart again: the first four bytes announce the
/// length of the rest, and the rest is the payload.
pub proof fn frame_reads_back(payload: Seq<u8>)
    requires
        payload.len() <= MAX_FRAME,
    ensures
        parsed_hex_len(framed(payload).take(4)) == Some(payload.len()),
        framed(payload).skip(4) == payload,
{
    length_prefix_reads_back(payload.len());
    assert(framed(payload).take(4) =~= hex4(payload.len()));
    assert(framed(payload).skip(4) =~= payload);
}

/// The boundary that `boundary_at_most` finds is one, and lies within the limit.
proof fn boundary_is_boundary(b: Seq<u8>, k: int)
    requires
        valid_utf8(b),
        0 <= k,
    ensures
        0 <= boundary_at_most(b, k) <= k,
        is_char_boundary(b, boundary_at_most(b, k)),
    decreases k,
{
    if k > 0 && !is_char_boundary(b, k) {
        boundary_is_boundary(b, k - 1);
    }
}

/// Whatever the reason, a failure reply is `FAIL` and one frame that a reader can
/// take apart; what it carries is whole characters from the start of the reason,
/// and all of the reason whenever that fits.
pub proof fn fail_reply_is_one_frame(reason: Seq<char>)
    ensures
        ({
            let r = fail_reply(reason);
            let payload = r.skip(8);
            &&& r.take(4) == fail_word()
            &&& parsed_hex_len(r.subrange(4, 8)) == Some(payload.len())
            &&& payload.len() <= MAX_FRAME
            &&& valid_utf8(payload)
            &&& payload == encode_utf8(reason).take(payload.len() as int)
            &&& encode_utf8(reason).len() <= MAX_FRAME ==> payload == encode_utf8(reason)
        }),
{
    let b = encode_utf8(reason);
    encode_utf8_valid_utf8(reason);
    boundary_is_boundary(b, MAX_FRAME as int);
    let p = clipped(b);
    if b.len() > MAX_FRAME {
        valid_utf8_split(b, boundary_at_most(b, MAX_FRAME as int));
    }
    let r = fail_reply(reason);
    frame_reads_back(p);
    assert(r.take(4) =~= fail_word());
    assert(r.subrange(4, 8) =~= framed(p).take(4));
    assert(r.skip(8) =~= p);
    assert(p =~= b.take(p.len() as int));
}

/// A data reply is `OKAY` and one frame that carries the whole text.
pub proof fn okay_data_reads_back(s: Seq<char>)
    requires
        okay_data_reply(s) is Some,
    ensures
        ({
            let r = okay_data_reply(s)->0;
            &&& r.take(4) == okay_word()
            &&& parsed_hex_len(r.subrange(4, 8)) == Some(encode_utf8(s).len())
            &&& r.skip(8) == encode_utf8(s)
        }),
{
    let r = okay_data_reply(s)->0;
    frame_reads_back(encode_utf8(s));
    assert(r.take(4) =~= okay_word());
    assert(r.subrange(4, 8) =~= framed(encode_utf8(s)).take(4));
    assert(r.skip(8) =~= encode_utf8(s));
}

/// No reply that begins with `OKAY` is a failure reply.
pub proof fn okay_is_not_fail(r: Seq<u8>, reason: Seq<char>)
    requires
        r.len() >= 4,
        r.take(4) == okay_word(),
    ensures
        r != fail_reply(reason),
{
    assert(r.take(4)[0] == 0x4fu8);
    assert(fail_reply(reason)[0] == 0x46u8);
}

/// The number that little-endian bytes stand for.
pub open spec fn le_value(b: Seq<u8>) -> nat
    decreases b.len(),
{
    if b.len() == 0 {
        0
    } else {
        b[0] as nat + 256 * le_value(b.skip(1))
    }
}

/// Two hundred and fifty-six to the `k`.
pub open spec fn byte_range(k: nat) -> nat
    decreases k,
{
    if k == 0 {
        1
    } else {
        256 * byte_range((k - 1) as nat)
    }
}

/// A number that fits into `k` bytes reads back from its `k` bytes.
pub proof fn le_bytes_read_back(n: nat, k: nat)
    requires
        n < byte_range(k),
    ensures
        le_bytes(n, k).len() == k,
        le_value(le_bytes(n, k)) == n,
    decreases k,
{
    if k > 0 {
        le_bytes_read_back(n / 256, (k - 1) as nat);
        assert(le_bytes(n, k).skip(1) =~= le_bytes(n / 256, (k - 1) as nat));
    }
}

/// A transport selection reply carries its id: `OKAY`, then eight bytes that read
/// back as the id.
pub proof fn tport_reply_reads_back(id: u64)
    ensures
        okay_tport_reply(id).len() == 12,
        okay_tport_reply(id).take(4) == okay_word(),
        le_value(okay_tport_reply(id).skip(4)) == id,
{
    reveal_with_fuel(byte_range, 9);
    le_bytes_read_back(id as nat, 8);
    assert(okay_tport_reply(id).take(4) =~= okay_word());
    assert(okay_tport_reply(id).skip(4) =~= le_bytes(id as nat, 8));
}

/// Serials and transport ids name each other: a serial has an id exactly if that
/// id leads back to the serial.
pub proof fn transport_ids_invert(serial: Seq<char>, id: nat, serials: Seq<Seq<char>>)
    ensures
        transport_id(serial, serials) == Some(id) <==> serial_at_id(id, serials) == Some(serial),
{
    let t = sorted_set(serials);
    sorted_set_is_the_set(serials);
    if serials.contains(serial) {
        assert(t.contains(serial));
        if serial_at_id(id, serials) == Some(serial) {
            strictly_sorted_is_distinct(t, id - 1, t.index_of(serial));
        }
    } else if serial_at_id(id, serials) == Some(serial) {
        assert(t[id - 1] == serial);
        assert(t.contains(serial));
    }
}

/// Transport ids follow the order of the serials.
pub proof fn transport_ids_follow_order(a: Seq<char>, b: Seq<char>, serials: Seq<Seq<char>>)
    requires
        serials.contains(a),
        serials.contains(b),
        lex_less(a, b),
    ensures
        transport_id(a, serials)->0 < transport_id(b, serials)->0,
{
    let t = sorted_set(serials);
    sorted_set_is_the_set(serials);
    assert(t.contains(a) && t.contains(b));
    let i = t.index_of(a);
    let j = t.index_of(b);
    lex_irreflexive(a);
    if j < i {
        assert(lex_less(t[j], t[i]));
        lex_transitive(a, b, a);
    }
}

/// Only the set of serials counts for a transport id, not how often or in which
/// order they are listed.
pub proof fn transport_ids_depend_on_the_set(
    serial: Seq<char>,
    s1: Seq<Seq<char>>,
    s2: Seq<Seq<char>>,
)
    requires
        forall|y: Seq<char>| s1.contains(y) <==> s2.contains(y),
    ensures
        transport_id(serial, s1) == transport_id(serial, s2),
{
    sorted_set_is_the_set(s1);
    sorted_set_is_the_set(s2);
    assert forall|y: Seq<char>|
        sorted_set(s1).contains(y) <==> sorted_set(s2).contains(y) by {
        assert(s1.contains(y) <==> s2.contains(y));
    }
    strictly_sorted_lists_agree(sorted_set(s1), sorted_set(s2));
}

/// A port number takes at most five digits, so it fits into a frame.
proof fn port_text_is_short(port: u16)
    ensures
        encode_utf8(decimal(port as nat)).len() <= MAX_FRAME,
{
    reveal_with_fuel(ten_to, 6);
    decimal_length(port as nat, 5);
    decimal_is_ascii(port as nat);
    is_ascii_chars_encode_utf8(decimal(port as nat));
}

/// The ASCII code of the lower-case hexadecimal digit with value `d`.
fn hex_digit_byte(d: usize) -> (b: u8)
    requires
        d < 16,
    ensures
        b == hex_digit(d as nat),
{
    if d < 10 {
        0x30 + d as u8
    } else {
        0x61 + (d as u8 - 10)
    }
}

/// `payload` behind its four-digit length.
fn frame(payload: &[u8]) -> (r: Vec<u8>)
    requires
        payload@.len() <= MAX_FRAME,
    ensures
        r@ == framed(payload@),
{
    let n: usize = payload.len();
    let mut r: Vec<u8> = Vec::new();
    r.push(hex_digit_byte(n / 4096 % 16));
    r.push(hex_digit_byte(n / 256 % 16));
    r.push(hex_digit_byte(n / 16 % 16));
    r.push(hex_digit_byte(n % 16));
    assert(r@ =~= hex4(payload@.len()));
    r.extend_from_slice(payload);
    assert(r@ =~= framed(payload@));
    r
}

/// A bare `OKAY`.
pub fn okay() -> (r: Vec<u8>)
    ensures
        r@ == okay_word(),
{
    let r: Vec<u8> = vec![0x4f, 0x4b, 0x41, 0x59];
    assert(r@ =~= okay_word());
    r
}

/// `FAIL` and the framed reason. A reason too long for one frame is cut at the
/// last character that still fits.
pub fn fail(reason: &str) -> (r: Vec<u8>)
    ensures
        r@ == fail_reply(reason@),
{
    let mut r: Vec<u8> = vec![0x46, 0x41, 0x49, 0x4c];
    assert(r@ =~= fail_word());
    let bytes = reason.as_bytes();
    let mut f = if bytes.len() <= MAX_FRAME {
        frame(bytes)
    } else {
        let mut k: usize = MAX_FRAME;
        while k > 0 && !reason.is_char_boundary(k)
            invariant
                k <= MAX_FRAME,
                boundary_at_most(encode_utf8(reason@), MAX_FRAME as int) == boundary_at_most(
                    encode_utf8(reason@),
                    k as int,
                ),
            decreases k,
        {
            k -= 1;
        }
        frame(vstd::slice::slice_subrange(bytes, 0, k))
    };
    r.append(&mut f);
    r
}

/// The framed text, or `None` if it is too long to be announced.
pub fn encode_framed(s: &str) -> (r: Option<Vec<u8>>)
    ensures
        match r {
            Some(f) => framed_text(s@) == Some(f@),
            None => framed_text(s@) is None,
        },
{
    let bytes = s.as_bytes();
    if bytes.len() <= MAX_FRAME {
        Some(frame(bytes))
    } else {
        None
    }
}

/// `OKAY` and the framed text, or `None` if the text is too long to be announced.
pub fn okay_data(s: &str) -> (r: Option<Vec<u8>>)
    ensures
        match r {
            Some(f) => okay_data_reply(s@) == Some(f@),
            None => okay_data_reply(s@) is None,
        },
{
    match encode_framed(s) {
        Some(mut f) => {
            let mut r = okay();
            r.append(&mut f);
            Some(r)
        },
        None => None,
    }
}

/// Two `OKAY`s: request accepted, then request done.
pub fn okay_twice() -> (r: Vec<u8>)
    ensures
        r@ == okay_word() + okay_word(),
{
    let mut r = okay();
    let mut s = okay();
    r.append(&mut s);
    r
}

/// Two `OKAY`s and the framed decimal port.
pub fn okay_twice_with_port(port: u16) -> (r: Vec<u8>)
    ensures
        r@ == okay_twice_with_port_reply(port),
{
    let mut r = okay_twice();
    let digits = decimal_string(port as u64);
    proof {
        port_text_is_short(port);
    }
    let mut f = frame(digits.as_str().as_bytes());
    r.append(&mut f);
    r
}

/// `OKAY` and the transport id as eight little-endian bytes.
pub fn okay_tport(id: u64) -> (r: Vec<u8>)
    ensures
        r@ == okay_tport_reply(id),
{
    let mut r = okay();
    let mut rest: u64 = id;
    let mut k: u64 = 8;
    assert(r@ + le_bytes(id as nat, 8) =~= okay_tport_reply(id));
    while k > 0
        invariant
            k <= 8,
            r@ + le_bytes(rest as nat, k as nat) == okay_tport_reply(id),
        decreases k,
    {
        let ghost before = r@;
        r.push((rest % 256) as u8);
        assert(r@ + le_bytes((rest / 256) as nat, (k - 1) as nat) =~= before + le_bytes(
            rest as nat,
            k as nat,
        ));
        rest = rest / 256;
        k -= 1;
    }
    assert(r@ =~= r@ + le_bytes(rest as nat, 0));
    r
}

/// The value of an ASCII hexadecimal digit.
fn hex_digit_value(b: u8) -> (r: Option<usize>)
    ensures
        match r {
            Some(d) => d < 16 && hex_value(b) == Some(d as nat),
            None => hex_value(b) is None,
        },
{
    if 0x30 <= b && b <= 0x39 {
        Some((b - 0x30) as usize)
    } else if 0x61 <= b && b <= 0x66 {
        Some((b - 0x61 + 10) as usize)
    } else if 0x41 <= b && b <= 0x46 {
        Some((b - 0x41 + 10) as usize)
    } else {
        None
    }
}

/// The length announced by four ASCII hexadecimal digits.
pub fn parse_hex_len(b: &[u8; 4]) -> (r: Option<usize>)
    ensures
        match r {
            Some(n) => parsed_hex_len(b@) == Some(n as nat) && n <= MAX_FRAME,
            None => parsed_hex_len(b@) is None,
        },
{
    match (hex_digit_value(b[0]), hex_digit_value(b[1]), hex_digit_value(b[2]), hex_digit_value(
        b[3],
    )) {
        (Some(w), Some(x), Some(y), Some(z)) => Some(w * 4096 + x * 256 + y * 16 + z),
        _ => None,
    }
}

/// The transport id of `serial` among `serials`.
pub fn transport_id_for(serial: &str, serials: &Vec<String>) -> (r: Option<u64>)
    ensures
        match r {
            Some(id) => transport_id(serial@, texts(serials@)) == Some(id as nat),
            None => transport_id(serial@, texts(serials@)) is None,
        },
{
    let sorted = sorted_distinct(serials);
    let ghost t = texts(sorted@);
    proof {
        sorted_set_is_the_set(texts(serials@));
    }
    let mut i: usize = 0;
    while i < sorted.len()
        invariant
            i <= sorted.len(),
            t == texts(sorted@),
            t == sorted_set(texts(serials@)),
            strictly_sorted(t),
            forall|y: Seq<char>| t.contains(y) <==> texts(serials@).contains(y),
            forall|j: int| 0 <= j < i ==> t[j] != serial@,
        decreases sorted.len() - i,
    {
        if str_eq(sorted[i].as_str(), serial) {
            proof {
                assert(t[i as int] == serial@);
                assert(t.contains(serial@));
                strictly_sorted_is_distinct(t, i as int, t.index_of(serial@));
            }
            return Some(i as u64 + 1);
        }
        assert(t[i as int] != serial@);
        i += 1;
    }
    assert(!t.contains(serial@));
    None
}

/// The serial that has transport id `id` among `serials`.
pub fn transport_id_for_index(id: u64, serials: &Vec<String>) -> (r: Option<String>)
    ensures
        match r {
            Some(s) => serial_at_id(id as nat, texts(serials@)) == Some(s@),
            None => serial_at_id(id as nat, texts(serials@)) is None,
        },
{
    let sorted = sorted_distinct(serials);
    assert(texts(sorted@).len() == sorted.len());
    if 1 <= id && id <= sorted.len() as u64 {
        let k: usize = (id - 1) as usize;
        assert(texts(sorted@)[k as int] == sorted@[k as int]@);
        Some(sorted[k].clone())
    } else {
        None
    }
}

/// The length of a request that its first four bytes announce; the error is the
/// reason to drop the connection.
pub fn request_length(prefix: &[u8; 4]) -> (r: Result<usize, &'static str>)
    ensures
        match r {
            Ok(n) => parsed_hex_len(prefix@) == Some(n as nat) && n <= MAX_FRAME,
            Err(reason) => parsed_hex_len(prefix@) is None && reason@
                == "non-hex request length prefix"@,
        },
{
    match parse_hex_len(prefix) {
        Some(n) => Ok(n),
        None => Err("non-hex request length prefix"),
    }
}

/// The length of a request that its first bytes announce, or why the connection is
/// dropped.
pub open spec fn announced(got: Seq<u8>) -> Result<Option<nat>, Seq<char>> {
    if got.len() == 0 {
        Ok(None)
    } else if got.len() < 4 {
        Err("partial request length prefix"@)
    } else {
        match parsed_hex_len(got.take(4)) {
            Some(n) => Ok(Some(n)),
            None => Err("non-hex request length prefix"@),
        }
    }
}

/// The contents of an announced length.
pub open spec fn announced_view(
    r: Result<Option<usize>, &'static str>,
) -> Result<Option<nat>, Seq<char>> {
    match r {
        Ok(Some(n)) => Ok(Some(n as nat)),
        Ok(None) => Ok(None),
        Err(reason) => Err(reason@),
    }
}

/// The length of a request, from as many of its first four bytes as came before the
/// client hung up: no byte is a client that has nothing more to ask. The error is the
/// reason to drop the connection.
pub fn request_prefix(got: &Vec<u8>) -> (r: Result<Option<usize>, &'static str>)
    ensures
        announced_view(r) == announced(got@),
        r matches Ok(Some(n)) ==> n <= MAX_FRAME,
{
    if got.len() == 0 {
        return Ok(None);
    }
    if got.len() < 4 {
        return Err("partial request length prefix");
    }
    let prefix: [u8; 4] = [got[0], got[1], got[2], got[3]];
    assert(prefix@ =~= got@.take(4));
    match request_length(&prefix) {
        Ok(n) => Ok(Some(n)),
        Err(reason) => Err(reason),
    }
}

/// The service string that a request holds, or why the connection is dropped.
pub open spec fn request_said(body: Seq<u8>) -> Result<Seq<char>, Seq<char>> {
    if valid_utf8(body) {
        Ok(decode_utf8(body))
    } else {
        Err("non-UTF8 service string"@)
    }
}

/// The service string that a request holds; the error is the reason to drop the
/// connection.
pub fn request_text(body: Vec<u8>) -> (r: Result<String, &'static str>)
    ensures
        (match r {
            Ok(s) => Ok::<Seq<char>, Seq<char>>(s@),
            Err(reason) => Err(reason@),
        }) == request_said(body@),
{
    match string_from_utf8(body) {
        Some(s) => Ok(s),
        None => Err("non-UTF8 service string"),
    }
}

/// [`String::from_utf8`]: a string if and only if the bytes are valid UTF-8, and
/// then the one that they encode.
#[verifier::external_body]
fn string_from_utf8(bytes: Vec<u8>) -> (r: Option<String>)
    ensures
        match r {
            Some(s) => valid_utf8(bytes@) && s@ == decode_utf8(bytes@),
            None => !valid_utf8(bytes@),
        },
{
    String::from_utf8(bytes).ok()
}

/// A service string that a client frames arrives as it is: the length is announced
/// rightly, and the body is that text.
pub proof fn request_reads_back(service: Seq<char>)
    requires
        encode_utf8(service).len() <= MAX_FRAME,
    ensures
        framed_text(service) matches Some(frame) && parsed_hex_len(frame.take(4)) == Some(
            encode_utf8(service).len(),
        ) && valid_utf8(frame.skip(4)) && decode_utf8(frame.skip(4)) == service,
{
    frame_reads_back(encode_utf8(service));
    encode_utf8_valid_utf8(service);
    encode_utf8_decode_utf8(service);
}

/// The status words are the four letters that clients look for.
pub proof fn status_words_are_spelled_out()
    ensures
        okay_word() == encode_utf8("OKAY"@),
        fail_word() == encode_utf8("FAIL"@),
{
    reveal_strlit("OKAY");
    reveal_strlit("FAIL");
    is_ascii_chars_encode_utf8("OKAY"@);
    is_ascii_chars_encode_utf8("FAIL"@);
    assert("OKAY"@[0] as u8 == 0x4f && "OKAY"@[1] as u8 == 0x4b && "OKAY"@[2] as u8 == 0x41
        && "OKAY"@[3] as u8 == 0x59);
    assert("FAIL"@[0] as u8 == 0x46 && "FAIL"@[1] as u8 == 0x41 && "FAIL"@[2] as u8 == 0x49
        && "FAIL"@[3] as u8 == 0x4c);
    assert(encode_utf8("OKAY"@) =~= okay_word());
    assert(encode_utf8("FAIL"@) =~= fail_word());
}

/// A length is announced in lower-case hexadecimal digits, and read in either case: each
/// digit counts sixteen times the one behind it.
pub proof fn lengths_are_hexadecimal(n: nat, b: Seq<u8>, i: int)
    requires
        0 <= i < 4,
        b.len() == 4,
    ensures
        hex4(n).len() == 4,
        0x30 <= hex4(n)[i] <= 0x39 || 0x61 <= hex4(n)[i] <= 0x66,
        parsed_hex_len(b) is Some <==> forall|j: int|
            0 <= j < 4 ==> {
                ||| 0x30 <= #[trigger] b[j] <= 0x39
                ||| 0x41 <= b[j] <= 0x46
                ||| 0x61 <= b[j] <= 0x66
            },
        0x41 <= b[i] <= 0x46 ==> parsed_hex_len(b) == parsed_hex_len(
            b.update(i, (b[i] + 0x20) as u8),
        ),
        parsed_hex_len(seq![0x30u8, 0x30u8, 0x30u8, 0x31u8]) == Some(1nat),
        parsed_hex_len(seq![0x30u8, 0x30u8, 0x31u8, 0x30u8]) == Some(16nat),
        parsed_hex_len(seq![0x30u8, 0x31u8, 0x30u8, 0x30u8]) == Some(256nat),
        parsed_hex_len(seq![0x31u8, 0x30u8, 0x30u8, 0x30u8]) == Some(4096nat),
{
    if parsed_hex_len(b) is None {
        assert(hex_value(b[0]) is None || hex_value(b[1]) is None || hex_value(b[2]) is None
            || hex_value(b[3]) is None);
    }
}

/// The reply with a port is two status words and one frame, which carries the port in
/// decimal.
pub proof fn port_reply_reads_back(port: u16)
    ensures
        ({
            let r = okay_twice_with_port_reply(port);
            &&& r.take(4) == encode_utf8("OKAY"@)
            &&& r.subrange(4, 8) == encode_utf8("OKAY"@)
            &&& parsed_hex_len(r.subrange(8, 12)) == Some(encode_utf8(decimal(port as nat)).len())
            &&& r.skip(12) == encode_utf8(decimal(port as nat))
        }),
{
    let r = okay_twice_with_port_reply(port);
    let p = encode_utf8(decimal(port as nat));
    status_words_are_spelled_out();
    port_text_is_short(port);
    frame_reads_back(p);
    assert(r.take(4) =~= okay_word());
    assert(r.subrange(4, 8) =~= okay_word());
    assert(r.subrange(8, 12) =~= framed(p).take(4));
    assert(r.skip(12) =~= p);
}

/// The length of every request that a client frames is read from the front of the frame,
/// whatever follows. A client that sends nothing has nothing to ask; one that breaks off
/// in the length, or announces none, is told apart from it and from each other.
pub proof fn announced_lengths_are_read(service: Seq<char>, more: Seq<u8>, got: Seq<u8>)
    requires
        encode_utf8(service).len() <= MAX_FRAME,
    ensures
        announced(framed_text(service)->Some_0 + more) == Ok::<Option<nat>, Seq<char>>(
            Some(encode_utf8(service).len()),
        ),
        announced(Seq::empty()) == Ok::<Option<nat>, Seq<char>>(None),
        0 < got.len() < 4 ==> announced(got) == Err::<Option<nat>, Seq<char>>(
            "partial request length prefix"@,
        ),
        got.len() >= 4 && (exists|i: int| 0 <= i < 4 && hex_value(#[trigger] got[i]) is None)
            ==> announced(got) == Err::<Option<nat>, Seq<char>>("non-hex request length prefix"@),
{
    request_reads_back(service);
    let frame = framed_text(service)->Some_0;
    frame_reads_back(encode_utf8(service));
    assert((frame + more).take(4) =~= frame.take(4));
    if got.len() >= 4 && (exists|i: int| 0 <= i < 4 && hex_value(#[trigger] got[i]) is None) {
        let i = choose|i: int| 0 <= i < 4 && hex_value(#[trigger] got[i]) is None;
        assert(got.take(4)[i] == got[i]);
        let b = got.take(4);
        if parsed_hex_len(b) is Some {
            assert(hex_value(b[0]) is Some && hex_value(b[1]) is Some && hex_value(b[2]) is Some
                && hex_value(b[3]) is Some);
        }
    }
}

/// Every service string that a client sends is read as it was sent; what is no text is
/// refused.
pub proof fn service_strings_are_read(service: Seq<char>, body: Seq<u8>)
    ensures
        request_said(encode_utf8(service)) == Ok::<Seq<char>, Seq<char>>(service),
        !valid_utf8(body) ==> request_said(body) == Err::<Seq<char>, Seq<char>>(
            "non-UTF8 service string"@,
        ),
{
    encode_utf8_valid_utf8(service);
    encode_utf8_decode_utf8(service);
}

} // verus!
