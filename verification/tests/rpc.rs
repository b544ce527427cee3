use nfs_fuzzer::rpc::{
    auth_flavor, auth_none, auth_sys, msg_type, next_xid, program, simple_rpc_call, RpcCall,
    XidGenerator, RPC_VERSION,
};
use nfs_fuzzer::xdr::XdrEncoder;

#[test]
fn test_simple_nfs_null() {
    let mut xids = XidGenerator::new();
    let msg = simple_rpc_call(&mut xids, program::NFS, 3, 0);

    // Should be: 4 (record mark) + 24 (header) + 8 (auth_none) + 8 (verf_none) = 44 bytes
    assert_eq!(msg.len(), 44);

    // Check record mark: 0x80000028 (last fragment, 40 bytes)
    assert_eq!(&msg[0..4], &[0x80, 0x00, 0x00, 0x28]);

    // Check program number (offset 16-19 in body, 20-23 overall)
    // 100003 = 0x000186A3
    assert_eq!(&msg[16..20], &[0x00, 0x01, 0x86, 0xA3]);
}

#[test]
fn test_auth_sys() {
    let auth = auth_sys("fuzzer", 0, 0, &[]);

    // Flavor (4) + length (4) + stamp (4) + name_len (4) + "fuzzer" (6) + pad (2) + uid (4) + gid (4) + gid_count (4)
    // = 4 + 4 + 4 + 4 + 8 + 4 + 4 + 4 = 36 bytes
    assert_eq!(auth.len(), 36);
}

#[test]
fn constants_have_their_protocol_values() {
    assert_eq!(msg_type::CALL, 0);
    assert_eq!(msg_type::REPLY, 1);
    assert_eq!(program::PORTMAP, 100000);
    assert_eq!(program::NFS, 100003);
    assert_eq!(program::MOUNT, 100005);
    assert_eq!(RPC_VERSION, 2);
    assert_eq!(auth_flavor::AUTH_NONE, 0);
    assert_eq!(auth_flavor::AUTH_SYS, 1);
    assert_eq!(auth_flavor::AUTH_SHORT, 2);
    assert_eq!(auth_flavor::AUTH_DES, 3);
    assert_eq!(auth_flavor::RPCSEC_GSS, 6);
}

#[test]
fn fresh_generator_starts_at_one() {
    let mut xids = XidGenerator::new();
    assert_eq!(next_xid(&mut xids), 1);
    assert_eq!(next_xid(&mut xids), 2);
    assert_eq!(next_xid(&mut xids), 3);
}

#[test]
fn xids_are_increasing_and_distinct() {
    let mut xids = XidGenerator::new();
    let mut last = next_xid(&mut xids);
    let mut seen = std::collections::HashSet::new();
    seen.insert(last);
    for _ in 0..10_000 {
        let xid = next_xid(&mut xids);
        assert!(xid > last);
        assert_eq!(xid, last + 1);
        assert!(seen.insert(xid));
        last = xid;
    }
}

#[test]
fn xids_wrap_around() {
    let mut xids = XidGenerator::starting_at(u32::MAX - 1);
    assert_eq!(next_xid(&mut xids), u32::MAX - 1);
    assert_eq!(next_xid(&mut xids), u32::MAX);
    assert_eq!(next_xid(&mut xids), 0);
    assert_eq!(next_xid(&mut xids), 1);
}

#[test]
fn generators_do_not_share_state() {
    let mut a = XidGenerator::new();
    let mut b = XidGenerator::starting_at(100);
    assert_eq!(next_xid(&mut a), 1);
    assert_eq!(next_xid(&mut b), 100);
    assert_eq!(next_xid(&mut a), 2);
    assert_eq!(next_xid(&mut b), 101);
}

#[test]
fn auth_none_is_flavor_zero_length_zero() {
    assert_eq!(auth_none(), vec![0, 0, 0, 0, 0, 0, 0, 0]);
}

#[test]
fn auth_sys_bytes_for_fuzzer() {
    let auth = auth_sys("fuzzer", 0, 0, &[]);
    assert_eq!(
        auth,
        vec![
            0, 0, 0, 1, // flavor
            0, 0, 0, 28, // body length
            0, 0, 0, 0, // stamp
            0, 0, 0, 6, b'f', b'u', b'z', b'z', b'e', b'r', 0, 0, // machine name
            0, 0, 0, 0, // uid
            0, 0, 0, 0, // gid
            0, 0, 0, 0, // group count
        ]
    );
}

#[test]
fn auth_sys_with_groups() {
    let auth = auth_sys("ab", 1000, 0x0102_0304, &[5, 0xFFFF_FFFF, 7]);
    assert_eq!(
        auth,
        vec![
            0, 0, 0, 1, // flavor
            0, 0, 0, 36, // body length
            0, 0, 0, 0, // stamp
            0, 0, 0, 2, b'a', b'b', 0, 0, // machine name
            0, 0, 0x03, 0xE8, // uid
            1, 2, 3, 4, // gid
            0, 0, 0, 3, // group count
            0, 0, 0, 5, 0xFF, 0xFF, 0xFF, 0xFF, 0, 0, 0, 7, // groups
        ]
    );
}

#[test]
fn auth_sys_with_empty_name() {
    let auth = auth_sys("", 1, 2, &[]);
    assert_eq!(
        auth,
        vec![
            0, 0, 0, 1, 0, 0, 0, 20, 0, 0, 0, 0, 0, 0, 0, 0, 0, 0, 0, 1, 0, 0, 0, 2, 0, 0, 0, 0
        ]
    );
}

#[test]
fn auth_sys_length_for_names_and_groups() {
    for name_len in 0usize..12 {
        for groups in 0usize..6 {
            let name = "x".repeat(name_len);
            let gids: Vec<u32> = (0..groups as u32).collect();
            let auth = auth_sys(&name, 0, 0, &gids);
            let padded = (name_len + 3) / 4 * 4;
            assert_eq!(auth.len(), 28 + padded + 4 * groups);
            assert_eq!(auth.len() % 4, 0);
            assert_eq!(&auth[4..8], &((auth.len() - 8) as u32).to_be_bytes());
        }
    }
}

#[test]
fn new_call_without_record_mark_is_the_header() {
    let msg = RpcCall::new(0x0A0B_0C0D, program::MOUNT, 3, 1, false).build();
    assert_eq!(
        &msg[..],
        &[
            0x0A, 0x0B, 0x0C, 0x0D, // xid
            0, 0, 0, 0, // CALL
            0, 0, 0, 2, // RPC version
            0x00, 0x01, 0x86, 0xA5, // program
            0, 0, 0, 3, // version
            0, 0, 0, 1, // procedure
        ]
    );
}

#[test]
fn new_call_with_record_mark_counts_the_header() {
    let msg = RpcCall::new(1, program::PORTMAP, 2, 3, true).build();
    assert_eq!(msg.len(), 28);
    assert_eq!(&msg[0..4], &[0x80, 0, 0, 24]);
    assert_eq!(&msg[4..8], &[0, 0, 0, 1]);
    assert_eq!(&msg[8..12], &[0, 0, 0, 0]);
    assert_eq!(&msg[12..16], &[0, 0, 0, 2]);
    assert_eq!(&msg[16..20], &[0x00, 0x01, 0x86, 0xA0]);
    assert_eq!(&msg[20..24], &[0, 0, 0, 2]);
    assert_eq!(&msg[24..28], &[0, 0, 0, 3]);
}

#[test]
fn build_without_record_mark_is_header_auth_args() {
    let cred = [1u8, 2, 3, 4, 5];
    let verf = [6u8, 7];
    let args = [8u8, 9, 10];
    let msg = RpcCall::new(7, 8, 9, 10, false)
        .with_auth(&cred, &verf)
        .with_args(&args)
        .build();
    assert_eq!(msg.len(), 24 + cred.len() + verf.len() + args.len());
    assert_eq!(&msg[0..4], &[0, 0, 0, 7]);
    assert_eq!(&msg[24..], &[1, 2, 3, 4, 5, 6, 7, 8, 9, 10]);
}

#[test]
fn build_with_record_mark_counts_the_body() {
    let cred = auth_none();
    let args = [0xEEu8; 13];
    let msg = RpcCall::new(7, 8, 9, 10, true)
        .with_auth(&cred, &cred)
        .with_args(&args)
        .build();
    let body_len = 24 + 8 + 8 + 13;
    assert_eq!(msg.len(), 4 + body_len);
    assert_eq!(&msg[0..4], &(0x8000_0000u32 | body_len as u32).to_be_bytes());
    assert_eq!(&msg[4..8], &[0, 0, 0, 7]);
    assert_eq!(&msg[44..], &args[..]);
}

#[test]
fn with_auth_none_appends_two_empty_credentials() {
    let msg = RpcCall::new(1, 2, 3, 4, false).with_auth_none().build();
    assert_eq!(msg.len(), 40);
    assert_eq!(&msg[24..], &[0u8; 16]);
}

#[test]
fn with_auth_sys_appends_credential_and_empty_verifier() {
    let msg = RpcCall::new(1, 2, 3, 4, false)
        .with_auth_sys("fuzzer", 501, 20)
        .build();
    let mut expected = auth_sys("fuzzer", 501, 20, &[]);
    expected.extend_from_slice(&auth_none());
    assert_eq!(msg.len(), 24 + 36 + 8);
    assert_eq!(&msg[24..], &expected[..]);
    assert_eq!(&msg[48..52], &[0, 0, 0x01, 0xF5]);
    assert_eq!(&msg[52..56], &[0, 0, 0, 20]);
}

#[test]
fn with_args_appends_verbatim() {
    let msg = RpcCall::new(1, 2, 3, 4, true)
        .with_args(&[1, 2, 3])
        .build();
    assert_eq!(msg.len(), 31);
    assert_eq!(&msg[0..4], &[0x80, 0, 0, 27]);
    assert_eq!(&msg[28..], &[1, 2, 3]);
}

#[test]
fn with_auth_twice_duplicates_the_bytes() {
    let msg = RpcCall::new(1, 2, 3, 4, false)
        .with_auth(&[1], &[2])
        .with_auth(&[1], &[2])
        .build();
    assert_eq!(&msg[24..], &[1, 2, 1, 2]);
}

#[test]
fn encoder_writes_are_counted_in_the_record_mark() {
    let mut call = RpcCall::new(1, 2, 3, 4, true).with_auth_none();
    call.encoder().put_string("abc");
    call.encoder().put_u32(0xFFFF_FFFF);
    let msg = call.build();
    assert_eq!(msg.len(), 4 + 24 + 16 + 8 + 4);
    assert_eq!(&msg[0..4], &[0x80, 0, 0, 52]);
    assert_eq!(&msg[44..52], &[0, 0, 0, 3, b'a', b'b', b'c', 0]);
    assert_eq!(&msg[52..], &[0xFF, 0xFF, 0xFF, 0xFF]);
}

#[test]
fn encoder_can_corrupt_the_header() {
    let mut call = RpcCall::new(1, 2, 3, 4, true);
    assert_eq!(call.encoder().len(), 28);
    call.encoder().fill_u32(12, 0xDEAD_BEEF);
    let msg = call.build();
    assert_eq!(&msg[0..4], &[0x80, 0, 0, 24]);
    assert_eq!(&msg[12..16], &[0xDE, 0xAD, 0xBE, 0xEF]);
}

#[test]
fn record_mark_overwrites_what_was_put_in_its_place() {
    let mut call = RpcCall::new(1, 2, 3, 4, true);
    call.encoder().fill_u32(0, 0x1234_5678);
    let msg = call.build();
    assert_eq!(&msg[0..4], &[0x80, 0, 0, 24]);
}

#[test]
fn simple_call_uses_successive_xids() {
    let mut xids = XidGenerator::new();
    let first = simple_rpc_call(&mut xids, program::NFS, 3, 0);
    let second = simple_rpc_call(&mut xids, program::NFS, 3, 0);
    assert_eq!(&first[4..8], &[0, 0, 0, 1]);
    assert_eq!(&second[4..8], &[0, 0, 0, 2]);
    assert_eq!(&first[8..], &second[8..]);
    assert_eq!(next_xid(&mut xids), 3);
}

#[test]
fn simple_call_bytes_in_full() {
    let mut xids = XidGenerator::starting_at(0xCAFE_F00D);
    let msg = simple_rpc_call(&mut xids, program::MOUNT, 3, 5);
    let mut expected = XdrEncoder::new();
    expected.put_u32(0x8000_0028);
    expected.put_u32(0xCAFE_F00D);
    expected.put_u32(0);
    expected.put_u32(2);
    expected.put_u32(100005);
    expected.put_u32(3);
    expected.put_u32(5);
    expected.put_raw(&[0; 16]);
    assert_eq!(&msg[..], expected.as_bytes());
}
