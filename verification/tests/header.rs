use vhost_user_gpu::{
    ByteOrder, Error, GpuBackendReq, Req, VhostUserGpuHeaderFlag, VhostUserGpuMsgHeader,
    VhostUserMsgValidator, HEADER_SIZE, REPLY_BIT, VERSION_BIT,
};

type Header = VhostUserGpuMsgHeader<GpuBackendReq>;

/// The three fields of a header, read back from its little-endian bytes.
fn fields(header: &Header) -> (u32, u32, u32) {
    let bytes = header.to_bytes(ByteOrder::LittleEndian);
    (
        u32::from_le_bytes([bytes[0], bytes[1], bytes[2], bytes[3]]),
        u32::from_le_bytes([bytes[4], bytes[5], bytes[6], bytes[7]]),
        u32::from_le_bytes([bytes[8], bytes[9], bytes[10], bytes[11]]),
    )
}

/// A header with the given fields, as it comes off the wire.
fn raw(request: u32, flags: u32, size: u32) -> Header {
    let mut bytes = Vec::new();
    bytes.extend_from_slice(&request.to_le_bytes());
    bytes.extend_from_slice(&flags.to_le_bytes());
    bytes.extend_from_slice(&size.to_le_bytes());
    Header::from_bytes(&bytes, ByteOrder::LittleEndian).unwrap()
}

#[test]
fn flag_constants() {
    assert_eq!(VERSION_BIT, 0x1);
    assert_eq!(REPLY_BIT, 0x4);
    assert_eq!(VhostUserGpuHeaderFlag::REPLY.bits(), 0x4);
    assert_eq!(VhostUserGpuHeaderFlag::all_bits(), 0x4);
    assert_eq!(HEADER_SIZE, 12);
}

#[test]
fn new_stores_code_flags_and_size() {
    let header = Header::new(GpuBackendReq::SCANOUT, 0, 0x1234);
    assert_eq!(fields(&header), (6, 0x1, 0x1234));
    assert_eq!(header.get_code(), Ok(GpuBackendReq::SCANOUT));
    assert_eq!(header.get_size(), 0x1234);
    assert!(!header.is_reply());
    assert!(header.is_valid());
}

#[test]
fn new_sets_the_version_bit_whatever_the_flags() {
    for flags in [0u32, 0x1, 0x2, 0x4, 0x5, 0x8, 0xfffe, 0x8000_0000, u32::MAX - 1, u32::MAX] {
        let header = Header::new(GpuBackendReq::UPDATE, flags, 0);
        let (_, stored, _) = fields(&header);
        assert_eq!(stored & VERSION_BIT, VERSION_BIT);
    }
}

#[test]
fn new_drops_undefined_flags() {
    for flags in [0u32, 0x1, 0x2, 0x4, 0x5, 0x8, 0xfffe, 0x8000_0000, u32::MAX - 1, u32::MAX] {
        let header = Header::new(GpuBackendReq::UPDATE, flags, 0);
        let (_, stored, _) = fields(&header);
        assert_eq!(stored & !(VERSION_BIT | REPLY_BIT), 0);
        assert_eq!(stored, (flags & 0x4) | 0x1);
    }
}

#[test]
fn new_keeps_the_reply_flag() {
    let header = Header::new(GpuBackendReq::GET_EDID, VhostUserGpuHeaderFlag::REPLY.bits(), 0);
    assert!(header.is_reply());
    assert_eq!(fields(&header), (10, 0x5, 0));
}

#[test]
fn new_with_all_bits_set_stores_version_and_reply() {
    let header = Header::new(GpuBackendReq::GET_EDID, u32::MAX, u32::MAX);
    assert_eq!(fields(&header), (10, 0x5, u32::MAX));
    assert!(header.is_reply());
}

#[test]
fn new_with_need_reply_bit_of_other_channels_drops_it() {
    let header = Header::new(GpuBackendReq::GET_EDID, 0x8, 0);
    assert_eq!(fields(&header), (10, 0x1, 0));
    assert!(!header.is_reply());
}

#[test]
fn set_reply_true_then_is_reply() {
    let mut header = Header::new(GpuBackendReq::CURSOR_POS, 0, 8);
    header.set_reply(true);
    assert!(header.is_reply());
    assert_eq!(fields(&header), (4, 0x5, 8));
}

#[test]
fn set_reply_false_after_true() {
    let mut header = Header::new(GpuBackendReq::CURSOR_POS, 0, 8);
    header.set_reply(true);
    header.set_reply(false);
    assert!(!header.is_reply());
    assert_eq!(fields(&header), (4, 0x1, 8));
}

#[test]
fn set_reply_is_idempotent() {
    let mut once = Header::new(GpuBackendReq::CURSOR_POS, 0, 8);
    once.set_reply(true);
    let mut twice = once;
    twice.set_reply(true);
    assert_eq!(once, twice);

    let mut off_once = once;
    off_once.set_reply(false);
    let mut off_twice = off_once;
    off_twice.set_reply(false);
    assert_eq!(off_once, off_twice);
}

#[test]
fn set_reply_touches_no_other_bit() {
    let mut header = raw(7, 0xffff_fffb, 3);
    header.set_reply(true);
    assert_eq!(fields(&header), (7, 0xffff_ffff, 3));
    header.set_reply(false);
    assert_eq!(fields(&header), (7, 0xffff_fffb, 3));
}

#[test]
fn set_size_then_get_size() {
    let mut header = Header::new(GpuBackendReq::UPDATE, 0x4, 1);
    header.set_size(0xdead_beef);
    assert_eq!(header.get_size(), 0xdead_beef);
    assert_eq!(fields(&header), (7, 0x5, 0xdead_beef));
    header.set_size(0);
    assert_eq!(header.get_size(), 0);
}

#[test]
fn size_is_not_checked() {
    let mut header = Header::new(GpuBackendReq::UPDATE, 0, u32::MAX);
    assert!(header.is_valid());
    header.set_size(u32::MAX);
    assert!(header.is_valid());
    assert_eq!(header.get_size(), u32::MAX);
}

#[test]
fn is_valid_for_a_registered_request() {
    let header = raw(3, 0x1, 0);
    assert!(header.is_valid());
    assert_eq!(header.get_code(), Ok(GpuBackendReq::GET_DISPLAY_INFO));
}

#[test]
fn is_valid_rejects_zero() {
    let header = raw(0, 0x1, 0);
    assert!(!header.is_valid());
    assert_eq!(header.get_code(), Err(Error::InvalidMessage));
}

#[test]
fn is_valid_rejects_unknown_request() {
    let header = raw(999, 0x1, 0);
    assert!(!header.is_valid());
    assert_eq!(header.get_code(), Err(Error::InvalidMessage));
}

#[test]
fn is_valid_for_each_registered_value_only() {
    for request in 0u32..40 {
        let header = raw(request, 0x1, 0);
        assert_eq!(header.is_valid(), 1 <= request && request <= 11);
    }
    assert!(!raw(12, 0x1, 0).is_valid());
    assert!(!raw(u32::MAX, 0x1, 0).is_valid());
}

#[test]
fn is_valid_ignores_flags_and_size() {
    assert!(raw(11, 0, 0).is_valid());
    assert!(raw(11, u32::MAX, u32::MAX).is_valid());
    assert!(!raw(12, 0x5, 16).is_valid());
}

#[test]
fn is_reply_for_matching_reply() {
    let request = Header::new(GpuBackendReq::CURSOR_POS, 0, 0);
    let reply = Header::new(GpuBackendReq::CURSOR_POS, VhostUserGpuHeaderFlag::REPLY.bits(), 0);
    assert_eq!(fields(&request).1, VERSION_BIT);
    assert_eq!(fields(&reply).1, VERSION_BIT | REPLY_BIT);
    assert!(reply.is_reply_for(&request));
}

#[test]
fn is_reply_for_swapped_is_false() {
    let request = Header::new(GpuBackendReq::CURSOR_POS, 0, 0);
    let reply = Header::new(GpuBackendReq::CURSOR_POS, VhostUserGpuHeaderFlag::REPLY.bits(), 0);
    assert!(!request.is_reply_for(&reply));
}

#[test]
fn is_reply_for_code_mismatch_is_false() {
    let request = Header::new(GpuBackendReq::CURSOR_POS, 0, 0);
    let reply = Header::new(GpuBackendReq::SCANOUT, VhostUserGpuHeaderFlag::REPLY.bits(), 0);
    assert!(!reply.is_reply_for(&request));
}

#[test]
fn is_reply_for_two_requests_is_false() {
    let first = Header::new(GpuBackendReq::CURSOR_POS, 0, 0);
    let second = Header::new(GpuBackendReq::CURSOR_POS, 0, 0);
    assert!(!first.is_reply_for(&second));
    assert!(!first.is_reply_for(&first));
}

#[test]
fn is_reply_for_two_replies_is_false() {
    let first = Header::new(GpuBackendReq::CURSOR_POS, 0x4, 0);
    let second = Header::new(GpuBackendReq::CURSOR_POS, 0x4, 0);
    assert!(!first.is_reply_for(&second));
}

#[test]
fn is_reply_for_invalid_codes_is_false() {
    let request = raw(999, 0x1, 0);
    let reply = raw(999, 0x5, 0);
    assert!(!reply.is_reply_for(&request));
    let known_request = Header::new(GpuBackendReq::CURSOR_POS, 0, 0);
    assert!(!reply.is_reply_for(&known_request));
    let known_reply = Header::new(GpuBackendReq::CURSOR_POS, 0x4, 0);
    assert!(!known_reply.is_reply_for(&request));
    let zero_request = raw(0, 0x1, 0);
    let zero_reply = raw(0, 0x5, 0);
    assert!(!zero_reply.is_reply_for(&zero_request));
}

#[test]
fn is_reply_for_ignores_the_size() {
    let request = Header::new(GpuBackendReq::GET_EDID, 0, 4);
    let reply = Header::new(GpuBackendReq::GET_EDID, 0x4, 1024);
    assert!(reply.is_reply_for(&request));
}

#[test]
fn default_header() {
    let header = Header::default();
    assert_eq!(fields(&header), (0, 0x1, 0));
    assert_eq!(header.get_size(), 0);
    assert!(!header.is_reply());
    assert!(!header.is_valid());
    assert_eq!(header.get_code(), Err(Error::InvalidMessage));
}

#[test]
fn equality_is_by_the_three_fields() {
    let a = Header::new(GpuBackendReq::UPDATE, 0, 5);
    let b = Header::new(GpuBackendReq::UPDATE, 0x1, 5);
    assert_eq!(a, b);
    assert_ne!(a, Header::new(GpuBackendReq::SCANOUT, 0, 5));
    assert_ne!(a, Header::new(GpuBackendReq::UPDATE, 0x4, 5));
    assert_ne!(a, Header::new(GpuBackendReq::UPDATE, 0, 6));
    assert_eq!(a, raw(7, 0x1, 5));
}

#[test]
fn clone_is_equal() {
    let a = Header::new(GpuBackendReq::DMABUF_UPDATE, 0x4, 77);
    let b = a.clone();
    assert_eq!(a, b);
    assert_eq!(fields(&b), (9, 0x5, 77));
}

#[test]
fn encode_of_code_matches_the_request_field() {
    let header = Header::new(GpuBackendReq::DMABUF_SCANOUT2, 0, 0);
    assert_eq!(fields(&header).0, GpuBackendReq::DMABUF_SCANOUT2.encode());
    assert_eq!(fields(&header).0, 11);
}
