use cilux::error::{CiluxError, MissingAttribute};
use cilux::netlink::{
    align4, clear_events, encode_attr, encode_string_attr, encode_u32_attr, family_request, find_attr,
    byte_order_of, get_caps, get_state, host_byte_order, parse_reply, parse_u16_attr, parse_u32_attr, ping,
    resolve_family_id, set_trace_mask, ByteOrder, KernelCaps, KernelCommand, KernelState,
};

/// A reply as the kernel would send it: headers, then the attributes.
fn reply(message_type: u16, attrs: &[u8], order: ByteOrder) -> Vec<u8> {
    let mut out = KernelCommand::Ping.request(message_type, order);
    out.truncate(20);
    out.extend_from_slice(attrs);
    out
}

#[test]
fn align4_rounds_up() {
    assert_eq!(align4(0), 0);
    assert_eq!(align4(1), 4);
    assert_eq!(align4(4), 4);
    assert_eq!(align4(9), 12);
}

#[test]
fn attributes_are_length_type_value_and_padding() {
    assert_eq!(
        encode_attr(6, &[7], ByteOrder::Little),
        vec![5, 0, 6, 0, 7, 0, 0, 0]
    );
    assert_eq!(
        encode_u32_attr(1, 0x0102_0304, ByteOrder::Big),
        vec![0, 8, 0, 1, 1, 2, 3, 4]
    );
    assert_eq!(
        encode_string_attr(2, "cilux", ByteOrder::Little),
        vec![10, 0, 2, 0, b'c', b'i', b'l', b'u', b'x', 0, 0, 0]
    );
}

#[test]
fn attributes_are_found_by_type() {
    let order = ByteOrder::Little;
    let mut attrs = encode_u32_attr(1, 17, order);
    attrs.extend(encode_attr(3, &[1, 2, 3], order));
    attrs.extend(encode_u32_attr(1, 99, order));
    assert_eq!(parse_u32_attr(&attrs, 1, order), Some(17));
    assert_eq!(find_attr(&attrs, 3, order), Some(&[1u8, 2, 3][..]));
    assert_eq!(parse_u32_attr(&attrs, 3, order), None);
    assert_eq!(parse_u16_attr(&attrs, 3, order), Some(0x0201));
    assert_eq!(parse_u32_attr(&attrs, 4, order), None);
    // A length field shorter than a header stops the walk.
    let broken = vec![2, 0, 1, 0, 9, 9, 9, 9];
    assert_eq!(find_attr(&broken, 1, order), None);
    // A length field past the end stops the walk.
    let long = vec![40, 0, 1, 0, 9, 9, 9, 9];
    assert_eq!(find_attr(&long, 1, order), None);
}

#[test]
fn requests_are_framed_with_their_length() {
    let order = ByteOrder::Little;
    let wire = KernelCommand::SetTraceMask(5).request(0x1c, order);
    assert_eq!(wire.len(), 28);
    assert_eq!(&wire[0..4], &[28, 0, 0, 0]);
    assert_eq!(&wire[4..6], &[0x1c, 0]);
    assert_eq!(&wire[6..8], &[1, 0]);
    assert_eq!(&wire[8..12], &[1, 0, 0, 0]);
    assert_eq!(&wire[12..16], &[0, 0, 0, 0]);
    assert_eq!(&wire[16..20], &[4, 1, 0, 0]);
    assert_eq!(&wire[20..28], &[8, 0, 1, 0, 5, 0, 0, 0]);

    let family = family_request(order);
    assert_eq!(&family[4..6], &[0x10, 0]);
    assert_eq!(&family[16..18], &[3, 2]);
    assert_eq!(parse_reply(&family, order).unwrap(), encode_string_attr(2, "cilux", order));
}

#[test]
fn native_byte_order_matches_std() {
    let order = host_byte_order();
    let wire = KernelCommand::GetState.request(0x1234, order);
    assert_eq!(u32::from_ne_bytes([wire[0], wire[1], wire[2], wire[3]]), 20);
    assert_eq!(u16::from_ne_bytes([wire[4], wire[5]]), 0x1234);
}

#[test]
fn replies_are_checked_before_their_attributes_are_read() {
    let order = ByteOrder::Little;
    assert_eq!(parse_reply(&[0; 8], order), Err(CiluxError::ShortResponse));
    let mut error = vec![0u8; 24];
    error[4] = 2;
    assert_eq!(parse_reply(&error, order), Err(CiluxError::KernelReturnedError));
    assert_eq!(parse_reply(&[0; 18], order), Err(CiluxError::ShortGenericResponse));
    assert_eq!(ping(&[0; 8], order).unwrap_err().message(), "short netlink response");
    assert_eq!(
        ping(&error, order).unwrap_err().message(),
        "kernel returned NLMSG_ERROR"
    );
}

#[test]
fn commands_read_their_replies() {
    let order = ByteOrder::Little;
    assert_eq!(ping(&reply(0x1c, &encode_u32_attr(6, 1, order), order), order), Ok(()));
    let bad = ping(&reply(0x1c, &encode_u32_attr(6, 7, order), order), order).unwrap_err();
    assert_eq!(bad, CiluxError::UnexpectedPingStatus { status: 7 });
    assert_eq!(bad.message(), "unexpected ping status 7");
    let missing = ping(&reply(0x1c, &[], order), order).unwrap_err();
    assert_eq!(missing, CiluxError::MissingAttribute(MissingAttribute::PingStatus));
    assert_eq!(missing.message(), "status missing from ping");

    let mut attrs = Vec::new();
    for (t, v) in [(1u16, 3u32), (2, 15), (3, 4), (4, 5), (5, 64)] {
        attrs.extend(encode_u32_attr(t, v, order));
    }
    let state = get_state(&reply(0x1c, &attrs, order), order).unwrap();
    assert_eq!(
        state,
        KernelState { trace_mask: 3, supported_mask: 15, drop_count: 4, event_count: 5, ring_capacity: 64 }
    );
    assert_eq!(
        get_caps(&reply(0x1c, &attrs, order), order),
        Ok(KernelCaps { supported_mask: 15, ring_capacity: 64 })
    );
    assert_eq!(set_trace_mask(&reply(0x1c, &attrs, order), order), Ok(3));
    assert_eq!(clear_events(&reply(0x1c, &attrs, order), order), Ok(5));
    let partial = encode_u32_attr(1, 3, order);
    assert_eq!(
        get_state(&reply(0x1c, &partial, order), order).unwrap_err().message(),
        "supported mask missing"
    );
    assert_eq!(
        clear_events(&reply(0x1c, &partial, order), order).unwrap_err().message(),
        "event count missing from clear reply"
    );
    assert_eq!(
        set_trace_mask(&reply(0x1c, &[], order), order).unwrap_err().message(),
        "trace mask missing from response"
    );

    let mut family = encode_string_attr(2, "cilux", order);
    family.extend(encode_attr(1, &[0x1c, 0], order));
    assert_eq!(resolve_family_id(&reply(0x10, &family, order), order), Ok(0x1c));
    assert_eq!(
        resolve_family_id(&reply(0x10, &[], order), order).unwrap_err().message(),
        "family id missing from ctrl reply"
    );
}

#[test]
fn the_probe_decides_the_byte_order() {
    assert_eq!(byte_order_of([1, 0]), ByteOrder::Little);
    assert_eq!(byte_order_of([0, 1]), ByteOrder::Big);
    assert_eq!(byte_order_of(1u16.to_ne_bytes()), host_byte_order());
}
