//! The Generic Netlink messages that the broker exchanges with the Cilux
//! kernel module: request framing, reply checking and the attribute
//! (type-length-value) codec, all in the host's byte order.
//!
//! Sending and receiving stay with the caller: a request is built here as
//! bytes, and the bytes of the reply are interpreted here.

use vstd::prelude::*;
use crate::error::{CiluxError, MissingAttribute};
use crate::protocol::{FAMILY_NAME, FAMILY_VERSION};
use vstd::string::StringSliceAdditionalSpecFns;

verus! {

pub const NLMSG_HDR_LEN: usize = 16;
pub const GENL_HDR_LEN: usize = 4;
pub const NLA_HDR_LEN: usize = 4;

pub const GENL_ID_CTRL: u16 = 0x10;
pub const CTRL_CMD_GETFAMILY: u8 = 3;
pub const CTRL_ATTR_FAMILY_ID: u16 = 1;
pub const CTRL_ATTR_FAMILY_NAME: u16 = 2;
pub const NLM_F_REQUEST: u16 = 0x01;
pub const GENL_CTRL_VERSION: u8 = 2;
pub const NLMSG_ERROR: u16 = 0x02;

pub const CILUX_CMD_PING: u8 = 1;
pub const CILUX_CMD_GET_CAPS: u8 = 2;
pub const CILUX_CMD_GET_STATE: u8 = 3;
pub const CILUX_CMD_SET_TRACE_MASK: u8 = 4;
pub const CILUX_CMD_CLEAR_EVENTS: u8 = 5;

pub const CILUX_A_TRACE_MASK: u16 = 1;
pub const CILUX_A_SUPPORTED_MASK: u16 = 2;
pub const CILUX_A_DROP_COUNT: u16 = 3;
pub const CILUX_A_EVENT_COUNT: u16 = 4;
pub const CILUX_A_RING_CAPACITY: u16 = 5;
pub const CILUX_A_STATUS: u16 = 6;

/// The order in which the bytes of a multi-byte integer are laid out.
#[derive(Debug, Clone, Copy, PartialEq, Eq)]
pub enum ByteOrder {
    Little,
    Big,
}

/// The two bytes of `x`.
pub open spec fn u16_bytes(x: u16, order: ByteOrder) -> Seq<u8> {
    let lo = (x % 256) as u8;
    let hi = (x / 256) as u8;
    match order {
        ByteOrder::Little => seq![lo, hi],
        ByteOrder::Big => seq![hi, lo],
    }
}

/// The `u16` laid out in the first two bytes of `b`.
pub open spec fn u16_of(b: Seq<u8>, order: ByteOrder) -> u16 {
    match order {
        ByteOrder::Little => (b[0] + 256 * b[1]) as u16,
        ByteOrder::Big => (256 * b[0] + b[1]) as u16,
    }
}

/// The four bytes of `x`.
pub open spec fn u32_bytes(x: u32, order: ByteOrder) -> Seq<u8> {
    let b0 = (x % 256) as u8;
    let b1 = ((x / 256) % 256) as u8;
    let b2 = ((x / 65536) % 256) as u8;
    let b3 = (x / 16777216) as u8;
    match order {
        ByteOrder::Little => seq![b0, b1, b2, b3],
        ByteOrder::Big => seq![b3, b2, b1, b0],
    }
}

/// The `u32` laid out in the first four bytes of `b`.
pub open spec fn u32_of(b: Seq<u8>, order: ByteOrder) -> u32 {
    match order {
        ByteOrder::Little => (b[0] + 256 * b[1] + 65536 * b[2] + 16777216 * b[3]) as u32,
        ByteOrder::Big => (16777216 * b[0] + 65536 * b[1] + 256 * b[2] + b[3]) as u32,
    }
}

/// Reading back the bytes of a `u16` gives the `u16`.
pub proof fn lemma_u16_round_trip(x: u16, order: ByteOrder)
    ensures
        u16_bytes(x, order).len() == 2,
        u16_of(u16_bytes(x, order), order) == x,
{
}

/// Reading back the bytes of a `u32` gives the `u32`.
pub proof fn lemma_u32_round_trip(x: u32, order: ByteOrder)
    ensures
        u32_bytes(x, order).len() == 4,
        u32_of(u32_bytes(x, order), order) == x,
{
    let b0 = x % 256;
    let b1 = (x / 256) % 256;
    let b2 = (x / 65536) % 256;
    let b3 = x / 16777216;
    assert(b0 + 256 * b1 + 65536 * b2 + 16777216 * b3 == x) by (nonlinear_arith)
        requires
            b0 == x % 256,
            b1 == (x / 256) % 256,
            b2 == (x / 65536) % 256,
            b3 == x / 16777216,
            0 <= x,
    {
    }
}

/// Lays out `u16::to_ne_bytes`: the integer in the machine's native byte
/// order, which is either the little-endian or the big-endian layout.
#[verifier::external_body]
fn native_u16_bytes(x: u16) -> (r: [u8; 2])
    ensures
        r@ == u16_bytes(x, ByteOrder::Little) || r@ == u16_bytes(x, ByteOrder::Big),
{
    x.to_ne_bytes()
}

/// The byte order in which `probe` lays out the integer 1.
pub fn byte_order_of(probe: [u8; 2]) -> (r: ByteOrder)
    requires
        probe@ == u16_bytes(1, ByteOrder::Little) || probe@ == u16_bytes(1, ByteOrder::Big),
    ensures
        probe@ == u16_bytes(1, r),
{
    if probe[0] == 1 {
        ByteOrder::Little
    } else {
        ByteOrder::Big
    }
}

/// The byte order of the machine the broker runs on, read from how
/// `u16::to_ne_bytes` lays out the integer 1; Netlink headers and attribute
/// payloads are in this order.
pub fn host_byte_order() -> ByteOrder {
    byte_order_of(native_u16_bytes(1))
}

fn push_u16(out: &mut Vec<u8>, x: u16, order: ByteOrder)
    ensures
        final(out)@ == old(out)@ + u16_bytes(x, order),
{
    let lo = (x % 256) as u8;
    let hi = (x / 256) as u8;
    match order {
        ByteOrder::Little => {
            out.push(lo);
            out.push(hi);
        },
        ByteOrder::Big => {
            out.push(hi);
            out.push(lo);
        },
    }
    assert(final(out)@ =~= old(out)@ + u16_bytes(x, order));
}

fn push_u32(out: &mut Vec<u8>, x: u32, order: ByteOrder)
    ensures
        final(out)@ == old(out)@ + u32_bytes(x, order),
{
    let b0 = (x % 256) as u8;
    let b1 = ((x / 256) % 256) as u8;
    let b2 = ((x / 65536) % 256) as u8;
    let b3 = (x / 16777216) as u8;
    match order {
        ByteOrder::Little => {
            out.push(b0);
            out.push(b1);
            out.push(b2);
            out.push(b3);
        },
        ByteOrder::Big => {
            out.push(b3);
            out.push(b2);
            out.push(b1);
            out.push(b0);
        },
    }
    assert(final(out)@ =~= old(out)@ + u32_bytes(x, order));
}

fn push_bytes(out: &mut Vec<u8>, bytes: &[u8])
    ensures
        final(out)@ == old(out)@ + bytes@,
{
    let ghost start = out@;
    let mut i: usize = 0;
    while i < bytes.len()
        invariant
            i <= bytes@.len(),
            out@ == start + bytes@.take(i as int),
        decreases bytes@.len() - i,
    {
        out.push(bytes[i]);
        i = i + 1;
        assert(out@ =~= start + bytes@.take(i as int));
    }
    assert(bytes@.take(bytes@.len() as int) =~= bytes@);
}

fn read_u16(b: &[u8], at: usize, order: ByteOrder) -> (x: u16)
    requires
        at + 2 <= b@.len(),
    ensures
        x == u16_of(b@.subrange(at as int, at + 2), order),
{
    let b0 = b[at] as u16;
    let b1 = b[at + 1] as u16;
    match order {
        ByteOrder::Little => b0 + 256 * b1,
        ByteOrder::Big => 256 * b0 + b1,
    }
}

fn read_u32(b: &[u8], at: usize, order: ByteOrder) -> (x: u32)
    requires
        at + 4 <= b@.len(),
    ensures
        x == u32_of(b@.subrange(at as int, at + 4), order),
{
    let b0 = b[at] as u32;
    let b1 = b[at + 1] as u32;
    let b2 = b[at + 2] as u32;
    let b3 = b[at + 3] as u32;
    match order {
        ByteOrder::Little => b0 + 256 * b1 + 65536 * b2 + 16777216 * b3,
        ByteOrder::Big => 16777216 * b0 + 65536 * b1 + 256 * b2 + b3,
    }
}

/// `n` rounded up to a multiple of four.
pub open spec fn align4_spec(n: int) -> int {
    (n + 3) / 4 * 4
}

/// Rounds `len` up to a multiple of four, the alignment of Netlink attributes.
pub fn align4(len: usize) -> (r: usize)
    requires
        len + 3 <= usize::MAX,
    ensures
        r == align4_spec(len as int),
{
    (len + 3) / 4 * 4
}

/// `align4` gives the least multiple of four that is at least `n`.
pub proof fn lemma_align4(n: int)
    requires
        n >= 0,
    ensures
        align4_spec(n) % 4 == 0,
        n <= align4_spec(n) < n + 4,
{
}

/// The zero bytes that pad an attribute of `n` bytes to the next multiple of four.
pub open spec fn padding(n: int) -> Seq<u8> {
    Seq::new((align4_spec(n) - n) as nat, |i: int| 0u8)
}

/// An attribute: its length (header included, padding excluded) and its
/// type, then the value, then zero padding to a multiple of four bytes.
pub open spec fn encoded_attr(attr_type: u16, value: Seq<u8>, order: ByteOrder) -> Seq<u8> {
    let len = NLA_HDR_LEN + value.len();
    u16_bytes(len as u16, order) + u16_bytes(attr_type, order) + value + padding(len)
}

/// Encodes one attribute.
pub fn encode_attr(attr_type: u16, value: &[u8], order: ByteOrder) -> (out: Vec<u8>)
    requires
        value@.len() + 7 <= usize::MAX,
    ensures
        out@ == encoded_attr(attr_type, value@, order),
{
    let len = NLA_HDR_LEN + value.len();
    let mut out: Vec<u8> = Vec::with_capacity(align4(len));
    #[verifier::truncate]
    let wire_len = len as u16;
    push_u16(&mut out, wire_len, order);
    push_u16(&mut out, attr_type, order);
    push_bytes(&mut out, value);
    let ghost unpadded = out@;
    assert(unpadded.len() == len);
    while out.len() % 4 != 0
        invariant
            len <= out@.len() <= align4_spec(len as int),
            out@ == unpadded + Seq::new((out@.len() - len) as nat, |i: int| 0u8),
        decreases align4_spec(len as int) - out@.len(),
    {
        out.push(0);
        assert(out@ =~= unpadded + Seq::new((out@.len() - len) as nat, |i: int| 0u8));
    }
    assert(out@ =~= encoded_attr(attr_type, value@, order));
    out
}

/// Encodes an attribute whose value is a `u32`.
pub fn encode_u32_attr(attr_type: u16, value: u32, order: ByteOrder) -> (out: Vec<u8>)
    ensures
        out@ == encoded_attr(attr_type, u32_bytes(value, order), order),
{
    let mut bytes: Vec<u8> = Vec::new();
    push_u32(&mut bytes, value, order);
    assert(bytes@ =~= u32_bytes(value, order));
    encode_attr(attr_type, bytes.as_slice(), order)
}

/// Encodes an attribute whose value is a string: its UTF-8 bytes and a
/// terminating zero byte.
pub fn encode_string_attr(attr_type: u16, value: &str, order: ByteOrder) -> (out: Vec<u8>)
    requires
        value.spec_bytes().len() + 8 <= usize::MAX,
    ensures
        out@ == encoded_attr(attr_type, value.spec_bytes().push(0), order),
{
    let mut bytes: Vec<u8> = Vec::new();
    push_bytes(&mut bytes, value.as_bytes());
    bytes.push(0);
    encode_attr(attr_type, bytes.as_slice(), order)
}

/// The value of the first attribute of type `attr_type` in `attrs`. The
/// walk stops, with no value, at the first attribute whose length field
/// is shorter than a header or runs past the end of `attrs`.
pub open spec fn find_attr_spec(attrs: Seq<u8>, attr_type: u16, order: ByteOrder) -> Option<Seq<u8>>
    decreases attrs.len(),
{
    if attrs.len() < NLA_HDR_LEN {
        None
    } else {
        let len = u16_of(attrs.subrange(0, 2), order) as int;
        if len < NLA_HDR_LEN || len > attrs.len() {
            None
        } else if u16_of(attrs.subrange(2, 4), order) == attr_type {
            Some(attrs.subrange(NLA_HDR_LEN as int, len))
        } else if align4_spec(len) > attrs.len() {
            None
        } else {
            find_attr_spec(attrs.skip(align4_spec(len)), attr_type, order)
        }
    }
}

/// Finds the value of the first attribute of the given type.
pub fn find_attr<'a>(attrs: &'a [u8], attr_type: u16, order: ByteOrder) -> (r: Option<&'a [u8]>)
    ensures
        match r {
            Some(value) => find_attr_spec(attrs@, attr_type, order) == Some(value@),
            None => find_attr_spec(attrs@, attr_type, order) is None,
        },
{
    let mut offset: usize = 0;
    assert(attrs@.skip(0) =~= attrs@);
    while NLA_HDR_LEN <= attrs.len() - offset
        invariant
            offset <= attrs@.len(),
            find_attr_spec(attrs@, attr_type, order) == find_attr_spec(attrs@.skip(offset as int), attr_type, order),
        decreases attrs@.len() - offset,
    {
        let ghost rest = attrs@.skip(offset as int);
        assert(rest.subrange(0, 2) =~= attrs@.subrange(offset as int, offset + 2));
        assert(rest.subrange(2, 4) =~= attrs@.subrange(offset + 2, offset + 4));
        let len = read_u16(attrs, offset, order) as usize;
        if len < NLA_HDR_LEN || len > attrs.len() - offset {
            return None;
        }
        if read_u16(attrs, offset + 2, order) == attr_type {
            let value = &attrs[offset + NLA_HDR_LEN..offset + len];
            assert(value@ =~= rest.subrange(NLA_HDR_LEN as int, len as int));
            return Some(value);
        }
        let step = align4(len);
        if step > attrs.len() - offset {
            return None;
        }
        assert(rest.skip(step as int) =~= attrs@.skip(offset + step));
        offset = offset + step;
    }
    None
}

/// The `u32` value of the first attribute of the given type, when that
/// value has at least four bytes.
pub open spec fn u32_attr_spec(attrs: Seq<u8>, attr_type: u16, order: ByteOrder) -> Option<u32> {
    match find_attr_spec(attrs, attr_type, order) {
        Some(value) => if value.len() < 4 {
            None
        } else {
            Some(u32_of(value, order))
        },
        None => None,
    }
}

/// The `u16` value of the first attribute of the given type, when that
/// value has at least two bytes.
pub open spec fn u16_attr_spec(attrs: Seq<u8>, attr_type: u16, order: ByteOrder) -> Option<u16> {
    match find_attr_spec(attrs, attr_type, order) {
        Some(value) => if value.len() < 2 {
            None
        } else {
            Some(u16_of(value, order))
        },
        None => None,
    }
}

/// Reads a `u32` attribute.
pub fn parse_u32_attr(attrs: &[u8], attr_type: u16, order: ByteOrder) -> (r: Option<u32>)
    ensures
        r == u32_attr_spec(attrs@, attr_type, order),
{
    match find_attr(attrs, attr_type, order) {
        Some(value) => {
            if value.len() < 4 {
                None
            } else {
                Some(read_u32(value, 0, order))
            }
        },
        None => None,
    }
}

/// Reads a `u16` attribute.
pub fn parse_u16_attr(attrs: &[u8], attr_type: u16, order: ByteOrder) -> (r: Option<u16>)
    ensures
        r == u16_attr_spec(attrs@, attr_type, order),
{
    match find_attr(attrs, attr_type, order) {
        Some(value) => {
            if value.len() < 2 {
                None
            } else {
                Some(read_u16(value, 0, order))
            }
        },
        None => None,
    }
}

/// A whole request: the Netlink header (total length, message type, the
/// request flag, sequence number 1, port 0), the Generic Netlink header
/// (command, version, a reserved zero) and the attributes.
pub open spec fn message_spec(message_type: u16, cmd: u8, version: u8, attrs: Seq<u8>, order: ByteOrder) -> Seq<u8> {
    u32_bytes((NLMSG_HDR_LEN + GENL_HDR_LEN + attrs.len()) as u32, order)
        + u16_bytes(message_type, order)
        + u16_bytes(NLM_F_REQUEST, order)
        + u32_bytes(1, order)
        + u32_bytes(0, order)
        + seq![cmd, version]
        + u16_bytes(0, order)
        + attrs
}

/// Frames a request.
pub fn build_message(message_type: u16, cmd: u8, version: u8, attrs: &[u8], order: ByteOrder) -> (wire: Vec<u8>)
    requires
        attrs@.len() + NLMSG_HDR_LEN + GENL_HDR_LEN <= usize::MAX,
    ensures
        wire@ == message_spec(message_type, cmd, version, attrs@, order),
{
    let total = NLMSG_HDR_LEN + GENL_HDR_LEN + attrs.len();
    #[verifier::truncate]
    let wire_len = total as u32;
    let mut wire: Vec<u8> = Vec::new();
    push_u32(&mut wire, wire_len, order);
    push_u16(&mut wire, message_type, order);
    push_u16(&mut wire, NLM_F_REQUEST, order);
    push_u32(&mut wire, 1, order);
    push_u32(&mut wire, 0, order);
    wire.push(cmd);
    wire.push(version);
    push_u16(&mut wire, 0, order);
    push_bytes(&mut wire, attrs);
    assert(wire@ =~= message_spec(message_type, cmd, version, attrs@, order));
    wire
}

/// What a reply reduces to: its attributes, or why it was refused.
pub open spec fn reply_attrs_spec(reply: Seq<u8>, order: ByteOrder) -> Result<Seq<u8>, CiluxError> {
    if reply.len() < NLMSG_HDR_LEN {
        Err(CiluxError::ShortResponse)
    } else if u16_of(reply.subrange(4, 6), order) == NLMSG_ERROR {
        Err(CiluxError::KernelReturnedError)
    } else if reply.len() < NLMSG_HDR_LEN + GENL_HDR_LEN {
        Err(CiluxError::ShortGenericResponse)
    } else {
        Ok(reply.skip((NLMSG_HDR_LEN + GENL_HDR_LEN) as int))
    }
}

/// Checks a reply's headers and returns its attributes.
pub fn parse_reply(reply: &[u8], order: ByteOrder) -> (r: Result<Vec<u8>, CiluxError>)
    ensures
        match r {
            Ok(attrs) => reply_attrs_spec(reply@, order) == Ok::<Seq<u8>, CiluxError>(attrs@),
            Err(e) => reply_attrs_spec(reply@, order) == Err::<Seq<u8>, CiluxError>(e),
        },
{
    if reply.len() < NLMSG_HDR_LEN {
        return Err(CiluxError::ShortResponse);
    }
    if read_u16(reply, 4, order) == NLMSG_ERROR {
        return Err(CiluxError::KernelReturnedError);
    }
    let attr_offset = NLMSG_HDR_LEN + GENL_HDR_LEN;
    if reply.len() < attr_offset {
        return Err(CiluxError::ShortGenericResponse);
    }
    let attrs = vstd::slice::slice_to_vec(&reply[attr_offset..reply.len()]);
    assert(attrs@ =~= reply@.skip(attr_offset as int));
    Ok(attrs)
}

/// The first attribute of a run of attributes is found by its own type.
pub proof fn lemma_find_first_attr(attr_type: u16, value: Seq<u8>, rest: Seq<u8>, order: ByteOrder)
    requires
        value.len() + NLA_HDR_LEN <= u16::MAX,
    ensures
        find_attr_spec(encoded_attr(attr_type, value, order) + rest, attr_type, order) == Some(value),
{
    let len = NLA_HDR_LEN + value.len();
    let all = encoded_attr(attr_type, value, order) + rest;
    lemma_u16_round_trip(len as u16, order);
    lemma_u16_round_trip(attr_type, order);
    assert(all.subrange(0, 2) =~= u16_bytes(len as u16, order));
    assert(all.subrange(2, 4) =~= u16_bytes(attr_type, order));
    assert(all.subrange(NLA_HDR_LEN as int, len as int) =~= value);
}

/// An attribute of another type is stepped over: the search goes on in
/// the attributes after it.
pub proof fn lemma_find_skips_attr(attr_type: u16, other: u16, value: Seq<u8>, rest: Seq<u8>, order: ByteOrder)
    requires
        other != attr_type,
        value.len() + NLA_HDR_LEN <= u16::MAX,
    ensures
        find_attr_spec(encoded_attr(other, value, order) + rest, attr_type, order)
            == find_attr_spec(rest, attr_type, order),
{
    let len = NLA_HDR_LEN + value.len();
    let enc = encoded_attr(other, value, order);
    let all = enc + rest;
    lemma_u16_round_trip(len as u16, order);
    lemma_u16_round_trip(other, order);
    lemma_align4(len as int);
    assert(enc.len() == align4_spec(len as int));
    assert(all.subrange(0, 2) =~= u16_bytes(len as u16, order));
    assert(all.subrange(2, 4) =~= u16_bytes(other, order));
    assert(all.skip(align4_spec(len as int)) =~= rest);
}

/// A `u32` attribute written by `encode_u32_attr` is read back by
/// `parse_u32_attr`, whatever attributes follow it.
pub proof fn lemma_u32_attr_round_trip(attr_type: u16, x: u32, rest: Seq<u8>, order: ByteOrder)
    ensures
        u32_attr_spec(encoded_attr(attr_type, u32_bytes(x, order), order) + rest, attr_type, order) == Some(x),
{
    lemma_u32_round_trip(x, order);
    lemma_find_first_attr(attr_type, u32_bytes(x, order), rest, order);
}

/// A run of attributes, each given by its type and value, encoded one
/// after the other.
pub open spec fn encoded_attrs(attrs: Seq<(u16, Seq<u8>)>, order: ByteOrder) -> Seq<u8>
    decreases attrs.len(),
{
    if attrs.len() == 0 {
        Seq::empty()
    } else {
        encoded_attr(attrs[0].0, attrs[0].1, order) + encoded_attrs(attrs.drop_first(), order)
    }
}

/// The search for an attribute steps over a run of attributes of other
/// types whose values fit the length field.
pub proof fn lemma_find_skips_attrs(others: Seq<(u16, Seq<u8>)>, attr_type: u16, tail: Seq<u8>, order: ByteOrder)
    requires
        forall|i: int| 0 <= i < others.len() ==> (#[trigger] others[i]).0 != attr_type
            && others[i].1.len() + NLA_HDR_LEN <= u16::MAX,
    ensures
        find_attr_spec(encoded_attrs(others, order) + tail, attr_type, order) == find_attr_spec(tail, attr_type, order),
    decreases others.len(),
{
    if others.len() == 0 {
        assert(encoded_attrs(others, order) + tail =~= tail);
    } else {
        let first = others[0];
        let later = others.drop_first();
        assert forall|i: int| 0 <= i < later.len() implies (#[trigger] later[i]).0 != attr_type
            && later[i].1.len() + NLA_HDR_LEN <= u16::MAX by {
            assert(later[i] == others[i + 1]);
        }
        lemma_find_skips_attrs(later, attr_type, tail, order);
        let after = encoded_attrs(later, order) + tail;
        lemma_find_skips_attr(attr_type, first.0, first.1, after, order);
        assert(encoded_attrs(others, order) + tail =~= encoded_attr(first.0, first.1, order) + after);
    }
}

/// A `u32` attribute is read back after any run of attributes of other
/// types whose values fit the length field, whatever follows it.
pub proof fn lemma_u32_attr_found_after_others(
    others: Seq<(u16, Seq<u8>)>,
    attr_type: u16,
    x: u32,
    rest: Seq<u8>,
    order: ByteOrder,
)
    requires
        forall|i: int| 0 <= i < others.len() ==> (#[trigger] others[i]).0 != attr_type
            && others[i].1.len() + NLA_HDR_LEN <= u16::MAX,
    ensures
        u32_attr_spec(encoded_attrs(others, order) + (encoded_attr(attr_type, u32_bytes(x, order), order) + rest), attr_type, order)
            == Some(x),
{
    let tail = encoded_attr(attr_type, u32_bytes(x, order), order) + rest;
    lemma_find_skips_attrs(others, attr_type, tail, order);
    lemma_u32_attr_round_trip(attr_type, x, rest, order);
}

/// A request that is not an error message passes the reply checks, and
/// they hand back exactly the attributes it was built with.
pub proof fn lemma_reply_of_message(message_type: u16, cmd: u8, version: u8, attrs: Seq<u8>, order: ByteOrder)
    requires
        message_type != NLMSG_ERROR,
    ensures
        reply_attrs_spec(message_spec(message_type, cmd, version, attrs, order), order) == Ok::<Seq<u8>, CiluxError>(attrs),
{
    let m = message_spec(message_type, cmd, version, attrs, order);
    lemma_u16_round_trip(message_type, order);
    assert(m.subrange(4, 6) =~= u16_bytes(message_type, order));
    assert(m.skip((NLMSG_HDR_LEN + GENL_HDR_LEN) as int) =~= attrs);
}

/// The length field of a framed request is its length in bytes, when that
/// fits in the field.
pub proof fn lemma_message_length_field(message_type: u16, cmd: u8, version: u8, attrs: Seq<u8>, order: ByteOrder)
    requires
        attrs.len() + NLMSG_HDR_LEN + GENL_HDR_LEN <= u32::MAX,
    ensures
        message_spec(message_type, cmd, version, attrs, order).len() == attrs.len() + NLMSG_HDR_LEN + GENL_HDR_LEN,
        u32_of(message_spec(message_type, cmd, version, attrs, order), order)
            == attrs.len() + NLMSG_HDR_LEN + GENL_HDR_LEN,
{
    let m = message_spec(message_type, cmd, version, attrs, order);
    let n = (NLMSG_HDR_LEN + GENL_HDR_LEN + attrs.len()) as u32;
    lemma_u32_round_trip(n, order);
    assert(m.subrange(0, 4) =~= u32_bytes(n, order));
}

/// What the kernel reports about its tracing support.
#[derive(Debug, Clone, Copy, PartialEq, Eq)]
pub struct KernelCaps {
    pub supported_mask: u32,
    pub ring_capacity: u32,
}

/// The kernel's trace mask and event-ring counters.
#[derive(Debug, Clone, Copy, PartialEq, Eq)]
pub struct KernelState {
    pub trace_mask: u32,
    pub supported_mask: u32,
    pub drop_count: u32,
    pub event_count: u32,
    pub ring_capacity: u32,
}

/// The commands of the Cilux Generic Netlink family.
#[derive(Debug, Clone, Copy, PartialEq, Eq)]
pub enum KernelCommand {
    Ping,
    GetCaps,
    GetState,
    SetTraceMask(u32),
    ClearEvents,
}

impl KernelCommand {
    /// The command number.
    pub open spec fn cmd(self) -> u8 {
        match self {
            KernelCommand::Ping => CILUX_CMD_PING,
            KernelCommand::GetCaps => CILUX_CMD_GET_CAPS,
            KernelCommand::GetState => CILUX_CMD_GET_STATE,
            KernelCommand::SetTraceMask(_) => CILUX_CMD_SET_TRACE_MASK,
            KernelCommand::ClearEvents => CILUX_CMD_CLEAR_EVENTS,
        }
    }

    /// The attributes the request carries: the new mask for
    /// `SetTraceMask`, none otherwise.
    pub open spec fn attrs(self, order: ByteOrder) -> Seq<u8> {
        match self {
            KernelCommand::SetTraceMask(mask) => encoded_attr(CILUX_A_TRACE_MASK, u32_bytes(mask, order), order),
            _ => Seq::empty(),
        }
    }

    /// The request for this command, addressed to the family `family_id`.
    pub fn request(self, family_id: u16, order: ByteOrder) -> (wire: Vec<u8>)
        ensures
            wire@ == message_spec(family_id, self.cmd(), FAMILY_VERSION, self.attrs(order), order),
    {
        let (cmd, attrs) = match self {
            KernelCommand::Ping => (CILUX_CMD_PING, Vec::new()),
            KernelCommand::GetCaps => (CILUX_CMD_GET_CAPS, Vec::new()),
            KernelCommand::GetState => (CILUX_CMD_GET_STATE, Vec::new()),
            KernelCommand::SetTraceMask(mask) => (
                CILUX_CMD_SET_TRACE_MASK,
                encode_u32_attr(CILUX_A_TRACE_MASK, mask, order),
            ),
            KernelCommand::ClearEvents => (CILUX_CMD_CLEAR_EVENTS, Vec::new()),
        };
        assert(attrs@ =~= self.attrs(order));
        build_message(family_id, cmd, FAMILY_VERSION, attrs.as_slice(), order)
    }
}

/// The position of a command among the family's commands, ignoring any argument.
pub open spec fn command_kind(c: KernelCommand) -> int {
    match c {
        KernelCommand::Ping => 0,
        KernelCommand::GetCaps => 1,
        KernelCommand::GetState => 2,
        KernelCommand::SetTraceMask(_) => 3,
        KernelCommand::ClearEvents => 4,
    }
}

/// The request for a command carries, in the Generic Netlink command byte
/// that follows the 16-byte Netlink header, the number the Cilux family
/// gives that command (ping 1, get caps 2, get state 3, set trace mask 4,
/// clear events 5), then the family version; so requests for different
/// commands are told apart by the kernel.
pub proof fn lemma_request_command_byte(c: KernelCommand, d: KernelCommand, family_id: u16, order: ByteOrder)
    ensures
        message_spec(family_id, c.cmd(), FAMILY_VERSION, c.attrs(order), order)[16] == match c {
            KernelCommand::Ping => 1u8,
            KernelCommand::GetCaps => 2u8,
            KernelCommand::GetState => 3u8,
            KernelCommand::SetTraceMask(_) => 4u8,
            KernelCommand::ClearEvents => 5u8,
        },
        message_spec(family_id, c.cmd(), FAMILY_VERSION, c.attrs(order), order)[17] == FAMILY_VERSION,
        command_kind(c) != command_kind(d) ==> message_spec(family_id, c.cmd(), FAMILY_VERSION, c.attrs(order), order)[16]
            != message_spec(family_id, d.cmd(), FAMILY_VERSION, d.attrs(order), order)[16],
{
    lemma_message_command_bytes(family_id, c.cmd(), FAMILY_VERSION, c.attrs(order), order);
    lemma_message_command_bytes(family_id, d.cmd(), FAMILY_VERSION, d.attrs(order), order);
}

proof fn lemma_message_command_bytes(message_type: u16, cmd: u8, version: u8, attrs: Seq<u8>, order: ByteOrder)
    ensures
        message_spec(message_type, cmd, version, attrs, order)[16] == cmd,
        message_spec(message_type, cmd, version, attrs, order)[17] == version,
{
    let n = (NLMSG_HDR_LEN + GENL_HDR_LEN + attrs.len()) as u32;
    lemma_u32_round_trip(n, order);
    lemma_u16_round_trip(message_type, order);
    lemma_u16_round_trip(NLM_F_REQUEST, order);
    lemma_u32_round_trip(1, order);
    lemma_u32_round_trip(0, order);
    let head = u32_bytes(n, order) + u16_bytes(message_type, order) + u16_bytes(NLM_F_REQUEST, order)
        + u32_bytes(1, order) + u32_bytes(0, order);
    assert(head.len() == 16);
    let m = message_spec(message_type, cmd, version, attrs, order);
    assert(m == head + seq![cmd, version] + u16_bytes(0, order) + attrs);
    assert(m[16] == (head + seq![cmd, version])[16]);
    assert(m[17] == (head + seq![cmd, version])[17]);
}

proof fn lemma_utf8_len_bound(chars: Seq<char>)
    ensures
        vstd::utf8::encode_utf8(chars).len() <= 4 * chars.len(),
    decreases chars.len(),
{
    if chars.len() > 0 {
        lemma_utf8_len_bound(chars.drop_first());
    }
}

/// The attributes of the request that asks the Generic Netlink controller
/// for the id of the `cilux` family.
pub open spec fn family_request_attrs(order: ByteOrder) -> Seq<u8> {
    encoded_attr(CTRL_ATTR_FAMILY_NAME, FAMILY_NAME.spec_bytes().push(0), order)
}

/// The request that asks the Generic Netlink controller for the id of the
/// `cilux` family.
pub fn family_request(order: ByteOrder) -> (wire: Vec<u8>)
    ensures
        wire@ == message_spec(GENL_ID_CTRL, CTRL_CMD_GETFAMILY, GENL_CTRL_VERSION, family_request_attrs(order), order),
{
    proof {
        reveal_strlit("cilux");
        lemma_utf8_len_bound(FAMILY_NAME@);
    }
    let attrs = encode_string_attr(CTRL_ATTR_FAMILY_NAME, FAMILY_NAME, order);
    build_message(GENL_ID_CTRL, CTRL_CMD_GETFAMILY, GENL_CTRL_VERSION, attrs.as_slice(), order)
}

/// A required attribute: its value, or the error naming it.
pub open spec fn required(value: Option<u32>, missing: MissingAttribute) -> Result<u32, CiluxError> {
    match value {
        Some(v) => Ok(v),
        None => Err(CiluxError::MissingAttribute(missing)),
    }
}

/// What the controller's reply says the family id is.
pub open spec fn family_id_spec(reply: Seq<u8>, order: ByteOrder) -> Result<u16, CiluxError> {
    match reply_attrs_spec(reply, order) {
        Err(e) => Err(e),
        Ok(attrs) => match u16_attr_spec(attrs, CTRL_ATTR_FAMILY_ID, order) {
            Some(id) => Ok(id),
            None => Err(CiluxError::MissingAttribute(MissingAttribute::FamilyId)),
        },
    }
}

/// Reads the family id from the controller's reply.
pub fn resolve_family_id(reply: &[u8], order: ByteOrder) -> (r: Result<u16, CiluxError>)
    ensures
        r == family_id_spec(reply@, order),
{
    let attrs = parse_reply(reply, order)?;
    match parse_u16_attr(attrs.as_slice(), CTRL_ATTR_FAMILY_ID, order) {
        Some(id) => Ok(id),
        None => Err(CiluxError::MissingAttribute(MissingAttribute::FamilyId)),
    }
}

/// What a ping reply means: success exactly when its status attribute is 1.
pub open spec fn ping_spec(reply: Seq<u8>, order: ByteOrder) -> Result<(), CiluxError> {
    match reply_attrs_spec(reply, order) {
        Err(e) => Err(e),
        Ok(attrs) => match u32_attr_spec(attrs, CILUX_A_STATUS, order) {
            None => Err(CiluxError::MissingAttribute(MissingAttribute::PingStatus)),
            Some(status) => if status != 1 {
                Err(CiluxError::UnexpectedPingStatus { status })
            } else {
                Ok(())
            },
        },
    }
}

/// Interprets the reply to `KernelCommand::Ping`.
pub fn ping(reply: &[u8], order: ByteOrder) -> (r: Result<(), CiluxError>)
    ensures
        r == ping_spec(reply@, order),
{
    let attrs = parse_reply(reply, order)?;
    match parse_u32_attr(attrs.as_slice(), CILUX_A_STATUS, order) {
        None => Err(CiluxError::MissingAttribute(MissingAttribute::PingStatus)),
        Some(status) => {
            if status != 1 {
                Err(CiluxError::UnexpectedPingStatus { status })
            } else {
                Ok(())
            }
        },
    }
}

/// What a capabilities reply says.
pub open spec fn caps_spec(reply: Seq<u8>, order: ByteOrder) -> Result<KernelCaps, CiluxError> {
    match reply_attrs_spec(reply, order) {
        Err(e) => Err(e),
        Ok(attrs) => match required(u32_attr_spec(attrs, CILUX_A_SUPPORTED_MASK, order), MissingAttribute::SupportedMask) {
            Err(e) => Err(e),
            Ok(supported_mask) => match required(u32_attr_spec(attrs, CILUX_A_RING_CAPACITY, order), MissingAttribute::RingCapacity) {
                Err(e) => Err(e),
                Ok(ring_capacity) => Ok(KernelCaps { supported_mask, ring_capacity }),
            },
        },
    }
}

fn require_u32(attrs: &[u8], attr_type: u16, missing: MissingAttribute, order: ByteOrder) -> (r: Result<u32, CiluxError>)
    ensures
        r == required(u32_attr_spec(attrs@, attr_type, order), missing),
{
    match parse_u32_attr(attrs, attr_type, order) {
        Some(v) => Ok(v),
        None => Err(CiluxError::MissingAttribute(missing)),
    }
}

/// Interprets the reply to `KernelCommand::GetCaps`.
pub fn get_caps(reply: &[u8], order: ByteOrder) -> (r: Result<KernelCaps, CiluxError>)
    ensures
        r == caps_spec(reply@, order),
{
    let attrs = parse_reply(reply, order)?;
    let supported_mask = require_u32(attrs.as_slice(), CILUX_A_SUPPORTED_MASK, MissingAttribute::SupportedMask, order)?;
    let ring_capacity = require_u32(attrs.as_slice(), CILUX_A_RING_CAPACITY, MissingAttribute::RingCapacity, order)?;
    Ok(KernelCaps { supported_mask, ring_capacity })
}

/// What a state reply says; the first missing attribute, in the order
/// trace mask, supported mask, drop count, event count, ring capacity, is
/// the one reported.
pub open spec fn state_spec(reply: Seq<u8>, order: ByteOrder) -> Result<KernelState, CiluxError> {
    match reply_attrs_spec(reply, order) {
        Err(e) => Err(e),
        Ok(attrs) => match required(u32_attr_spec(attrs, CILUX_A_TRACE_MASK, order), MissingAttribute::TraceMask) {
            Err(e) => Err(e),
            Ok(trace_mask) => match required(u32_attr_spec(attrs, CILUX_A_SUPPORTED_MASK, order), MissingAttribute::SupportedMask) {
                Err(e) => Err(e),
                Ok(supported_mask) => match required(u32_attr_spec(attrs, CILUX_A_DROP_COUNT, order), MissingAttribute::DropCount) {
                    Err(e) => Err(e),
                    Ok(drop_count) => match required(u32_attr_spec(attrs, CILUX_A_EVENT_COUNT, order), MissingAttribute::EventCount) {
                        Err(e) => Err(e),
                        Ok(event_count) => match required(u32_attr_spec(attrs, CILUX_A_RING_CAPACITY, order), MissingAttribute::RingCapacity) {
                            Err(e) => Err(e),
                            Ok(ring_capacity) => Ok(KernelState { trace_mask, supported_mask, drop_count, event_count, ring_capacity }),
                        },
                    },
                },
            },
        },
    }
}

/// Interprets the reply to `KernelCommand::GetState`.
pub fn get_state(reply: &[u8], order: ByteOrder) -> (r: Result<KernelState, CiluxError>)
    ensures
        r == state_spec(reply@, order),
{
    let attrs = parse_reply(reply, order)?;
    let a = attrs.as_slice();
    let trace_mask = require_u32(a, CILUX_A_TRACE_MASK, MissingAttribute::TraceMask, order)?;
    let supported_mask = require_u32(a, CILUX_A_SUPPORTED_MASK, MissingAttribute::SupportedMask, order)?;
    let drop_count = require_u32(a, CILUX_A_DROP_COUNT, MissingAttribute::DropCount, order)?;
    let event_count = require_u32(a, CILUX_A_EVENT_COUNT, MissingAttribute::EventCount, order)?;
    let ring_capacity = require_u32(a, CILUX_A_RING_CAPACITY, MissingAttribute::RingCapacity, order)?;
    Ok(KernelState { trace_mask, supported_mask, drop_count, event_count, ring_capacity })
}

/// What the reply to a mask change says the mask now is.
pub open spec fn set_trace_mask_spec(reply: Seq<u8>, order: ByteOrder) -> Result<u32, CiluxError> {
    match reply_attrs_spec(reply, order) {
        Err(e) => Err(e),
        Ok(attrs) => required(u32_attr_spec(attrs, CILUX_A_TRACE_MASK, order), MissingAttribute::TraceMaskInReply),
    }
}

/// Interprets the reply to `KernelCommand::SetTraceMask`: the mask the
/// kernel applied.
pub fn set_trace_mask(reply: &[u8], order: ByteOrder) -> (r: Result<u32, CiluxError>)
    ensures
        r == set_trace_mask_spec(reply@, order),
{
    let attrs = parse_reply(reply, order)?;
    require_u32(attrs.as_slice(), CILUX_A_TRACE_MASK, MissingAttribute::TraceMaskInReply, order)
}

/// What the reply to a buffer clear says is left in the ring.
pub open spec fn clear_events_spec(reply: Seq<u8>, order: ByteOrder) -> Result<u32, CiluxError> {
    match reply_attrs_spec(reply, order) {
        Err(e) => Err(e),
        Ok(attrs) => required(u32_attr_spec(attrs, CILUX_A_EVENT_COUNT, order), MissingAttribute::EventCountInClearReply),
    }
}

/// Interprets the reply to `KernelCommand::ClearEvents`: the number of
/// events left in the ring.
pub fn clear_events(reply: &[u8], order: ByteOrder) -> (r: Result<u32, CiluxError>)
    ensures
        r == clear_events_spec(reply@, order),
{
    let attrs = parse_reply(reply, order)?;
    require_u32(attrs.as_slice(), CILUX_A_EVENT_COUNT, MissingAttribute::EventCountInClearReply, order)
}

/// The attributes with which the kernel reports a state: trace mask,
/// supported mask, drop count, event count and ring capacity, in that order.
pub open spec fn state_attrs(s: KernelState, order: ByteOrder) -> Seq<u8> {
    encoded_attr(CILUX_A_TRACE_MASK, u32_bytes(s.trace_mask, order), order)
        + encoded_attr(CILUX_A_SUPPORTED_MASK, u32_bytes(s.supported_mask, order), order)
        + encoded_attr(CILUX_A_DROP_COUNT, u32_bytes(s.drop_count, order), order)
        + encoded_attr(CILUX_A_EVENT_COUNT, u32_bytes(s.event_count, order), order)
        + encoded_attr(CILUX_A_RING_CAPACITY, u32_bytes(s.ring_capacity, order), order)
}

/// A state reply that carries the five state attributes is read back as
/// exactly that state.
#[verifier::rlimit(60)]
pub proof fn lemma_state_reply_round_trip(family_id: u16, version: u8, s: KernelState, order: ByteOrder)
    requires
        family_id != NLMSG_ERROR,
    ensures
        state_spec(message_spec(family_id, CILUX_CMD_GET_STATE, version, state_attrs(s, order), order), order)
            == Ok::<KernelState, CiluxError>(s),
{
    let a1 = encoded_attr(CILUX_A_TRACE_MASK, u32_bytes(s.trace_mask, order), order);
    let a2 = encoded_attr(CILUX_A_SUPPORTED_MASK, u32_bytes(s.supported_mask, order), order);
    let a3 = encoded_attr(CILUX_A_DROP_COUNT, u32_bytes(s.drop_count, order), order);
    let a4 = encoded_attr(CILUX_A_EVENT_COUNT, u32_bytes(s.event_count, order), order);
    let a5 = encoded_attr(CILUX_A_RING_CAPACITY, u32_bytes(s.ring_capacity, order), order);
    let attrs = state_attrs(s, order);
    lemma_reply_of_message(family_id, CILUX_CMD_GET_STATE, version, attrs, order);
    lemma_u32_round_trip(s.trace_mask, order);
    lemma_u32_round_trip(s.supported_mask, order);
    lemma_u32_round_trip(s.drop_count, order);
    lemma_u32_round_trip(s.event_count, order);
    lemma_u32_round_trip(s.ring_capacity, order);
    assert(attrs =~= a1 + (a2 + (a3 + (a4 + a5))));
    assert(a2 + (a3 + (a4 + a5)) =~= (a2 + a3) + (a4 + a5));
    lemma_u32_attr_round_trip(CILUX_A_TRACE_MASK, s.trace_mask, a2 + (a3 + (a4 + a5)), order);
    lemma_find_skips_attr(CILUX_A_SUPPORTED_MASK, CILUX_A_TRACE_MASK, u32_bytes(s.trace_mask, order), a2 + (a3 + (a4 + a5)), order);
    lemma_u32_attr_round_trip(CILUX_A_SUPPORTED_MASK, s.supported_mask, a3 + (a4 + a5), order);
    lemma_find_skips_attr(CILUX_A_DROP_COUNT, CILUX_A_TRACE_MASK, u32_bytes(s.trace_mask, order), a2 + (a3 + (a4 + a5)), order);
    lemma_find_skips_attr(CILUX_A_DROP_COUNT, CILUX_A_SUPPORTED_MASK, u32_bytes(s.supported_mask, order), a3 + (a4 + a5), order);
    lemma_u32_attr_round_trip(CILUX_A_DROP_COUNT, s.drop_count, a4 + a5, order);
    lemma_find_skips_attr(CILUX_A_EVENT_COUNT, CILUX_A_TRACE_MASK, u32_bytes(s.trace_mask, order), a2 + (a3 + (a4 + a5)), order);
    lemma_find_skips_attr(CILUX_A_EVENT_COUNT, CILUX_A_SUPPORTED_MASK, u32_bytes(s.supported_mask, order), a3 + (a4 + a5), order);
    lemma_find_skips_attr(CILUX_A_EVENT_COUNT, CILUX_A_DROP_COUNT, u32_bytes(s.drop_count, order), a4 + a5, order);
    lemma_u32_attr_round_trip(CILUX_A_EVENT_COUNT, s.event_count, a5, order);
    lemma_find_skips_attr(CILUX_A_RING_CAPACITY, CILUX_A_TRACE_MASK, u32_bytes(s.trace_mask, order), a2 + (a3 + (a4 + a5)), order);
    lemma_find_skips_attr(CILUX_A_RING_CAPACITY, CILUX_A_SUPPORTED_MASK, u32_bytes(s.supported_mask, order), a3 + (a4 + a5), order);
    lemma_find_skips_attr(CILUX_A_RING_CAPACITY, CILUX_A_DROP_COUNT, u32_bytes(s.drop_count, order), a4 + a5, order);
    lemma_find_skips_attr(CILUX_A_RING_CAPACITY, CILUX_A_EVENT_COUNT, u32_bytes(s.event_count, order), a5, order);
    assert(a5 =~= a5 + Seq::<u8>::empty());
    lemma_u32_attr_round_trip(CILUX_A_RING_CAPACITY, s.ring_capacity, Seq::empty(), order);
}

} // verus!
