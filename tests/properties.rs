use dcerpc_udp::{
    evaluate_stub_params, parse_dcerpc_udp_header, rs_dcerpc_udp_get_alstate_progress,
    rs_dcerpc_udp_get_alstate_progress_completion_status, rs_dcerpc_udp_get_tx,
    rs_dcerpc_udp_get_tx_cnt, rs_dcerpc_udp_get_tx_detect_state, rs_dcerpc_udp_parse,
    rs_dcerpc_udp_set_tx_detect_state, rs_dcerpc_udp_state_new,
    rs_dcerpc_udp_state_transaction_free, validate_dcerpc_udp_header, AppLayerResult,
    DCERPCUDPState, HeaderError,
};

/// An 80-byte header; the fragment length is written in the byte order that
/// `drep0` selects.
fn header(version: u8, pkt_type: u8, flags1: u8, drep0: u8, serial_hi: u8, serial_lo: u8, fraglen: u16) -> Vec<u8> {
    let mut h = vec![0u8; 80];
    h[0] = version;
    h[1] = pkt_type;
    h[2] = flags1;
    h[4] = drep0;
    h[7] = serial_hi;
    for i in 0..16 {
        h[40 + i] = 0xa0 + i as u8;
    }
    let fl = if drep0 & 0x10 != 0 { fraglen.to_le_bytes() } else { fraglen.to_be_bytes() };
    h[74] = fl[0];
    h[75] = fl[1];
    h[79] = serial_lo;
    h
}

fn datagram(hdr: Vec<u8>, body_len: usize) -> Vec<u8> {
    let mut d = hdr;
    for i in 0..body_len {
        d.push((i % 251) as u8);
    }
    d
}

#[test]
fn short_buffer_is_rejected_and_creates_nothing() {
    let full = header(4, 0, 0, 0x10, 0, 1, 100);
    for n in [0usize, 1, 40, 79] {
        let mut state = DCERPCUDPState::new();
        assert_eq!(-1, state.process_header(&full[..n]));
        assert_eq!(AppLayerResult::err(), state.handle_input_data(&full[..n]));
        assert!(state.transactions.is_empty());
        assert!(state.uuid_list.is_empty());
        assert!(state.header.is_none());
        assert!(matches!(parse_dcerpc_udp_header(&full[..n]), Err(HeaderError::InsufficientData)));
    }
}

#[test]
fn version_four_header_consumes_eighty_bytes() {
    let h = header(4, 0, 0, 0x10, 0, 1, 100);
    let mut state = DCERPCUDPState::new();
    assert_eq!(80, state.process_header(&h));
    assert_eq!(1, state.uuid_list.len());
    let expected: Vec<u8> = (0..16).map(|i| 0xa0 + i as u8).collect();
    assert_eq!(expected, state.uuid_list[0].uuid);
    assert_eq!(Some(100), state.get_hdr_fraglen());
}

#[test]
fn other_versions_are_rejected() {
    for v in [0u8, 3, 5, 255] {
        let h = header(v, 0, 0, 0x10, 0, 1, 100);
        let mut state = DCERPCUDPState::new();
        assert_eq!(-1, state.process_header(&h));
        assert!(state.header.is_none());
        assert!(state.uuid_list.is_empty());
        assert_eq!(AppLayerResult::err(), state.handle_input_data(&datagram(h.clone(), 20)));
        assert!(state.transactions.is_empty());
        assert!(matches!(
            validate_dcerpc_udp_header(&h),
            Err(HeaderError::ProtocolVersionMismatch)
        ));
    }
}

#[test]
fn header_fields_follow_the_declared_byte_order() {
    let mut h = header(4, 2, 0x08, 0x00, 0x12, 0x34, 0x0102);
    h[56] = 0x01;
    h[57] = 0x02;
    h[58] = 0x03;
    h[59] = 0x04;
    let (hdr, n) = match parse_dcerpc_udp_header(&h) {
        Ok(v) => v,
        Err(_) => panic!("a full header decodes"),
    };
    assert_eq!(80, n);
    assert_eq!(0x0102, hdr.fraglen);
    assert_eq!(0x01020304, hdr.server_boot);
    assert_eq!(2, hdr.pkt_type);
    assert_eq!(0x08, hdr.flags1);
    assert_eq!(vec![0u8, 0, 0], hdr.drep);
    h[4] = 0x10;
    let (hdr, _) = match parse_dcerpc_udp_header(&h) {
        Ok(v) => v,
        Err(_) => panic!("a full header decodes"),
    };
    assert_eq!(0x0201, hdr.fraglen);
    assert_eq!(0x04030201, hdr.server_boot);
}

#[test]
fn serial_number_survives_byte_order_swap() {
    let mut little = DCERPCUDPState::new();
    little.handle_input_data(&header(4, 0, 0, 0x10, 0xab, 0xcd, 80));
    let mut big = DCERPCUDPState::new();
    big.handle_input_data(&header(4, 0, 0, 0x00, 0xcd, 0xab, 80));
    assert_eq!(0xabcd, little.transactions[0].call_id);
    assert_eq!(0xabcd, big.transactions[0].call_id);
    assert_eq!(0x10, little.transactions[0].endianness);
    assert_eq!(0x00, big.transactions[0].endianness);
}

#[test]
fn stub_assembly_takes_the_smaller_of_owed_and_offered() {
    let input = [1u8, 2, 3, 4, 5, 6];
    let mut buf = vec![9u8];
    let mut len: usize = 1;
    assert_eq!(4, evaluate_stub_params(&input, 6, 0, 4, &mut buf, &mut len));
    assert_eq!(vec![9u8, 1, 2, 3, 4], buf);
    assert_eq!(5, len);
    assert_eq!(2, evaluate_stub_params(&input, 2, 0, 10, &mut buf, &mut len));
    assert_eq!(vec![9u8, 1, 2, 3, 4, 1, 2], buf);
    assert_eq!(7, len);
    assert_eq!(0, evaluate_stub_params(&input, 6, 1, 0, &mut buf, &mut len));
    assert_eq!(7, buf.len());
    assert_eq!(7, len);
}

#[test]
fn first_fragment_flag_restarts_the_logical_length() {
    let input = [7u8; 10];
    let mut buf = vec![1u8, 2, 3];
    let mut len: usize = 3;
    assert_eq!(5, evaluate_stub_params(&input, 10, 0x01, 5, &mut buf, &mut len));
    assert_eq!(5, len);
    assert_eq!(8, buf.len());
    assert_eq!(0, evaluate_stub_params(&input, 0, 0x01, 5, &mut buf, &mut len));
    assert_eq!(5, len);
}

#[test]
fn single_datagram_of_fragment_length_body() {
    let d = datagram(header(4, 0, 0, 0x10, 0, 7, 200), 200);
    let mut state = DCERPCUDPState::new();
    assert_eq!(AppLayerResult::ok(), state.handle_input_data(&d));
    assert_eq!(0, state.fraglenleft);
    assert_eq!(1, state.transactions.len());
    assert_eq!(200, state.transactions[0].stub_data_buffer_len_ts);
    assert_eq!(&d[80..], &state.transactions[0].stub_data_buffer_ts[..]);
    assert!(state.transactions[0].req_done);
    assert_eq!(1, state.transactions[0].frag_cnt_ts);
}

#[test]
fn single_datagram_with_header_counted_in_fragment_length() {
    let d = datagram(header(4, 0, 0, 0x10, 0, 7, 200), 120);
    let mut state = DCERPCUDPState::new();
    assert_eq!(AppLayerResult::ok(), state.handle_input_data(&d));
    assert_eq!(120, state.transactions[0].stub_data_buffer_len_ts);
    assert_eq!(80, state.fraglenleft);
}

#[test]
fn body_longer_than_fragment_length_is_cut() {
    let d = datagram(header(4, 2, 0, 0x10, 0, 7, 100), 300);
    let mut state = DCERPCUDPState::new();
    assert_eq!(AppLayerResult::ok(), state.handle_input_data(&d));
    assert_eq!(0, state.fraglenleft);
    assert_eq!(100, state.transactions[0].stub_data_buffer_len_tc);
    assert_eq!(&d[80..180], &state.transactions[0].stub_data_buffer_tc[..]);
    assert!(state.transactions[0].resp_done);
    assert!(!state.transactions[0].req_done);
    assert_eq!(0, state.transactions[0].stub_data_buffer_len_ts);
}

#[test]
fn header_only_datagram_assembles_nothing() {
    let d = header(4, 0, 0, 0x10, 0, 7, 8);
    let mut state = DCERPCUDPState::new();
    assert_eq!(AppLayerResult::ok(), state.handle_input_data(&d));
    assert_eq!(1, state.transactions.len());
    assert_eq!(0, state.transactions[0].stub_data_buffer_len_ts);
    assert_eq!(8, state.fraglenleft);
}

#[test]
fn unrecognized_packet_type_adds_no_bytes() {
    let d = datagram(header(4, 1, 0, 0x10, 0, 7, 200), 50);
    let mut state = DCERPCUDPState::new();
    assert_eq!(AppLayerResult::ok(), state.handle_input_data(&d));
    assert_eq!(1, state.transactions.len());
    assert!(state.transactions[0].stub_data_buffer_ts.is_empty());
    assert!(state.transactions[0].stub_data_buffer_tc.is_empty());
    assert_eq!(0, state.transactions[0].frag_cnt_ts);
    assert_eq!(200, state.fraglenleft);
}

#[test]
fn every_datagram_creates_a_transaction_and_bytes_go_to_the_earliest() {
    let mut state = DCERPCUDPState::new();
    let first = datagram(header(4, 0, 0x01, 0x10, 0, 9, 150), 30);
    let second = datagram(header(4, 0, 0x00, 0x10, 0, 9, 150), 20);
    assert_eq!(AppLayerResult::ok(), state.handle_input_data(&first));
    assert_eq!(AppLayerResult::ok(), state.handle_input_data(&second));
    assert_eq!(2, state.transactions.len());
    assert_eq!(2, state.tx_id);
    assert_eq!(0, state.transactions[0].id);
    assert_eq!(1, state.transactions[1].id);
    assert_eq!(50, state.transactions[0].stub_data_buffer_len_ts);
    assert_eq!(2, state.transactions[0].frag_cnt_ts);
    assert_eq!(0, state.transactions[1].stub_data_buffer_len_ts);
    assert_eq!(2, state.uuid_list.len());
    let third = datagram(header(4, 0, 0x01, 0x10, 0, 9, 150), 10);
    assert_eq!(AppLayerResult::ok(), state.handle_input_data(&third));
    assert_eq!(10, state.transactions[0].stub_data_buffer_len_ts);
    assert_eq!(60, state.transactions[0].stub_data_buffer_ts.len());
}

#[test]
fn fragment_without_matching_transaction_is_dropped() {
    let h = header(4, 0, 0, 0x10, 0, 3, 150);
    let mut state = DCERPCUDPState::new();
    assert_eq!(80, state.process_header(&h));
    state.fraglenleft = 10;
    assert_eq!(0, state.handle_fragment_data(&[1, 2, 3], 3));
    assert_eq!(10, state.fraglenleft);
}

#[test]
fn host_entry_points() {
    let mut boxed = rs_dcerpc_udp_state_new();
    assert!(boxed.transactions.is_empty());
    assert_eq!(AppLayerResult::err(), rs_dcerpc_udp_parse(&mut boxed, &[]));
    let d = datagram(header(4, 0, 0, 0x10, 0, 7, 200), 200);
    assert_eq!(AppLayerResult::ok(), rs_dcerpc_udp_parse(&mut boxed, &d));
    assert_eq!(None, rs_dcerpc_udp_get_tx_detect_state(&boxed));
    assert_eq!(0, rs_dcerpc_udp_set_tx_detect_state(&mut boxed, 42));
    assert_eq!(Some(42), rs_dcerpc_udp_get_tx_detect_state(&boxed));
    assert_eq!(1, rs_dcerpc_udp_get_tx(&boxed, 5).transactions.len());
    assert_eq!(1, rs_dcerpc_udp_get_tx_cnt(&boxed));
    assert_eq!(0, rs_dcerpc_udp_get_alstate_progress(&boxed, 0));
    assert_eq!(1, rs_dcerpc_udp_get_alstate_progress_completion_status(1));
    rs_dcerpc_udp_state_transaction_free(&mut boxed, 0);
    assert_eq!(1, boxed.transactions.len());
}
