//! The per-flow state machine: one datagram in, its header installed, one
//! transaction created and the datagram's stub bytes reassembled.
use crate::header::{
    decodes_to, fraglen_of, join_serial_bytes, lemma_serial_no_byte_order_swap, serial_no_in,
    serial_no_of, validate_dcerpc_udp_header, DCERPCHdrUdp, DCERPC_TYPE_REQUEST, DCERPC_TYPE_RESPONSE,
    DCERPC_UDP_HDR_LEN, DCERPC_UDP_VERSION, DREP_LITTLE_ENDIAN,
};
use crate::transaction::{
    evaluate_stub_params, fresh_tx, min_u16, record_fragment, DCERPCTransaction,
    DCERPCUuidEntry, DetectStateHandle, TxView,
};
use vstd::prelude::*;
use vstd::slice::slice_subrange;
use vstd::slice::slice_to_vec;

verus! {

/// Outcome of handing a datagram to the parser.
#[derive(PartialEq, Eq, Structural, Debug, Clone, Copy)]
pub struct AppLayerResult {
    pub status: i32,
    pub consumed: u32,
    pub needed: u32,
}

impl AppLayerResult {
    pub open spec fn spec_ok() -> AppLayerResult {
        AppLayerResult { status: 0, consumed: 0, needed: 0 }
    }

    pub open spec fn spec_err() -> AppLayerResult {
        AppLayerResult { status: -1i32, consumed: 0, needed: 0 }
    }

    /// The datagram was accepted.
    pub fn ok() -> (r: AppLayerResult)
        ensures
            r == AppLayerResult::spec_ok(),
    {
        AppLayerResult { status: 0, consumed: 0, needed: 0 }
    }

    /// The datagram was rejected.
    pub fn err() -> (r: AppLayerResult)
        ensures
            r == AppLayerResult::spec_err(),
    {
        AppLayerResult { status: -1, consumed: 0, needed: 0 }
    }
}

/// State of one UDP flow.
pub struct DCERPCUDPState {
    /// Id that the next transaction gets.
    pub tx_id: u64,
    /// Header of the latest accepted datagram.
    pub header: Option<DCERPCHdrUdp>,
    /// Transactions in the order they were created.
    pub transactions: Vec<DCERPCTransaction>,
    /// Fragment bytes still owed by the current datagram.
    pub fraglenleft: u16,
    /// One entry per accepted header, with its activity UUID.
    pub uuid_list: Vec<DCERPCUuidEntry>,
    /// Detection state that the inspection engine attached to the flow.
    pub de_state: Option<DetectStateHandle>,
}

/// Index of the first transaction at or after `k` with the given call
/// identifier, or -1 when there is none.
pub open spec fn first_from(txs: Seq<TxView>, call_id: u32, k: int) -> int
    decreases txs.len() - k,
{
    if k < 0 || k >= txs.len() {
        -1
    } else if txs[k].call_id == call_id {
        k
    } else {
        first_from(txs, call_id, k + 1)
    }
}

/// Index of the earliest transaction with the given call identifier, or -1.
pub open spec fn find_index(txs: Seq<TxView>, call_id: u32) -> int {
    first_from(txs, call_id, 0)
}

/// Packet types whose stub data is reassembled.
pub open spec fn is_stub_type(pkt_type: u8) -> bool {
    pkt_type == DCERPC_TYPE_REQUEST || pkt_type == DCERPC_TYPE_RESPONSE
}

/// A header is accepted when it is complete and carries protocol version 4.
pub open spec fn header_accepted(b: Seq<u8>) -> bool {
    b.len() >= DCERPC_UDP_HDR_LEN && b[0] == DCERPC_UDP_VERSION
}

/// `e` is the history entry of an accepted header with activity UUID `uuid`.
pub open spec fn is_activity_entry(e: DCERPCUuidEntry, uuid: Seq<u8>) -> bool {
    &&& e.uuid@ == uuid
    &&& e.ctxid == 0
    &&& e.internal_id == 0
    &&& e.result == 0
    &&& e.version == 0
    &&& e.versionminor == 0
    &&& e.flags == 0
}

/// `new` has the header at the front of `b` installed and its activity UUID
/// appended to the history of `old`.
pub open spec fn header_installed(old: DCERPCUDPState, new: DCERPCUDPState, b: Seq<u8>) -> bool {
    &&& (new.header matches Some(h) && h.wf() && decodes_to(b, h))
    &&& new.uuid_list@.len() == old.uuid_list@.len() + 1
    &&& new.uuid_list@.drop_last() == old.uuid_list@
    &&& is_activity_entry(new.uuid_list@.last(), b.subrange(40, 56))
}

/// Number of stub bytes that a datagram `b` hands to its transaction: its
/// body, up to the declared fragment length.
pub open spec fn stub_bytes_taken(b: Seq<u8>) -> int {
    let body = b.len() - DCERPC_UDP_HDR_LEN;
    if fraglen_of(b) <= body {
        fraglen_of(b)
    } else {
        body
    }
}

/// Whether the body of datagram `b` is reassembled at all: the declared
/// fragment length reaches past the header, a body follows it, and the packet
/// is a request or a response.
pub open spec fn body_reassembled(b: Seq<u8>) -> bool {
    &&& fraglen_of(b) > DCERPC_UDP_HDR_LEN
    &&& b.len() > DCERPC_UDP_HDR_LEN
    &&& is_stub_type(b[1])
}

/// The transactions of `old` with the one that datagram `b` creates.
pub open spec fn txs_with_new(old: DCERPCUDPState, b: Seq<u8>) -> Seq<TxView> {
    old.tx_views().push(fresh_tx(old.tx_id, serial_no_in(b) as u32, b[4] & DREP_LITTLE_ENDIAN))
}

/// What handing datagram `b` to flow `old` does, with result `r` and flow `new`.
/// A datagram without an accepted header is rejected and changes nothing.
/// Otherwise its header is installed, one transaction is created for its call
/// identifier, the owed count is set to the declared fragment length, and when
/// the body is reassembled its first `stub_bytes_taken(b)` bytes go to the
/// earliest transaction with that call identifier.
pub open spec fn datagram_processed(
    old: DCERPCUDPState,
    new: DCERPCUDPState,
    b: Seq<u8>,
    r: AppLayerResult,
) -> bool {
    if header_accepted(b) {
        let txs = txs_with_new(old, b);
        let k = find_index(txs, serial_no_in(b) as u32);
        &&& r == AppLayerResult::spec_ok()
        &&& header_installed(old, new, b)
        &&& new.tx_id == old.tx_id + 1
        &&& new.de_state == old.de_state
        &&& if body_reassembled(b) {
            &&& new.tx_views() == txs.update(
                k,
                record_fragment(
                    txs[k],
                    b[1] == DCERPC_TYPE_REQUEST,
                    b[2],
                    b.subrange(
                        DCERPC_UDP_HDR_LEN as int,
                        DCERPC_UDP_HDR_LEN + stub_bytes_taken(b),
                    ),
                ),
            )
            &&& new.fraglenleft == fraglen_of(b) - stub_bytes_taken(b)
        } else {
            &&& new.tx_views() == txs
            &&& new.fraglenleft == fraglen_of(b)
        }
    } else {
        r == AppLayerResult::spec_err() && new == old
    }
}

/// `first_from` finds a matching transaction at or after `k` when there is one,
/// and none before the first match.
proof fn lemma_first_from(txs: Seq<TxView>, call_id: u32, k: int)
    requires
        0 <= k,
    ensures
        first_from(txs, call_id, k) == -1 || (k <= first_from(txs, call_id, k) < txs.len()
            && txs[first_from(txs, call_id, k)].call_id == call_id),
        forall|j: int|
            k <= j < txs.len() && txs[j].call_id == call_id ==> 0 <= first_from(txs, call_id, k)
                <= j,
    decreases txs.len() - k,
{
    if k < txs.len() && txs[k].call_id != call_id {
        lemma_first_from(txs, call_id, k + 1);
    }
}

impl DCERPCUDPState {
    /// The transactions as mathematical values.
    pub open spec fn tx_views(&self) -> Seq<TxView> {
        self.transactions@.map_values(|t: DCERPCTransaction| t@)
    }

    pub open spec fn wf(&self) -> bool {
        &&& self.tx_id == self.transactions@.len()
        &&& forall|i: int|
            0 <= i < self.transactions@.len() ==> #[trigger] self.transactions@[i].wf()
        &&& (self.header matches Some(h) ==> h.wf())
    }

    /// A flow that has seen nothing.
    pub open spec fn is_fresh(&self) -> bool {
        &&& self.tx_id == 0
        &&& self.header is None
        &&& self.transactions@.len() == 0
        &&& self.fraglenleft == 0
        &&& self.uuid_list@.len() == 0
        &&& self.de_state is None
    }

    pub open spec fn hdr_pkt_type(&self) -> u8 {
        match self.header {
            Some(h) => h.pkt_type,
            None => 0,
        }
    }

    pub open spec fn hdr_flags1(&self) -> u8 {
        match self.header {
            Some(h) => h.flags1,
            None => 0,
        }
    }

    pub open spec fn hdr_drep0(&self) -> u8 {
        match self.header {
            Some(h) => h.drep@[0],
            None => 0,
        }
    }

    /// Call identifier of the installed header.
    pub open spec fn serial_no(&self) -> u16 {
        match self.header {
            Some(h) => serial_no_of(h.drep@[0], h.serial_hi, h.serial_lo),
            None => serial_no_of(0, 0, 0),
        }
    }

    pub fn new() -> (r: DCERPCUDPState)
        ensures
            r.wf(),
            r.is_fresh(),
    {
        DCERPCUDPState {
            tx_id: 0,
            header: None,
            transactions: Vec::new(),
            fraglenleft: 0,
            uuid_list: Vec::new(),
            de_state: None,
        }
    }

    /// A new transaction for `serial_no`, with the flow's next id and the byte
    /// order of the installed header. The flow's id counter moves on by one,
    /// and stays at its largest value once there; nothing else changes. The
    /// caller stores the transaction.
    fn create_tx(&mut self, serial_no: u16) -> (tx: DCERPCTransaction)
        requires
            old(self).wf(),
        ensures
            tx@ == fresh_tx(
                old(self).tx_id,
                serial_no as u32,
                old(self).hdr_drep0() & DREP_LITTLE_ENDIAN,
            ),
            old(self).tx_id < u64::MAX ==> final(self).tx_id == old(self).tx_id + 1,
            old(self).tx_id == u64::MAX ==> final(self).tx_id == old(self).tx_id,
            *final(self) == (DCERPCUDPState { tx_id: final(self).tx_id, ..*old(self) }),
    {
        let mut tx = DCERPCTransaction::new();
        let endianness = self.get_hdr_drep_0() & DREP_LITTLE_ENDIAN;
        tx.id = self.tx_id;
        tx.call_id = serial_no as u32;
        tx.endianness = endianness;
        if self.tx_id < u64::MAX {
            self.tx_id += 1;
        }
        tx
    }

    /// The call identifier of the installed header: its serial bytes in the
    /// order that the byte order bit selects.
    fn evaluate_serial_no(&self) -> (r: u16)
        requires
            self.wf(),
        ensures
            r == self.serial_no(),
    {
        let mut serial_hi: u8 = 0;
        let mut serial_lo: u8 = 0;
        let endianness = self.get_hdr_drep_0();
        if let Some(hdr) = &self.header {
            serial_hi = hdr.serial_hi;
            serial_lo = hdr.serial_lo;
        }
        if endianness & DREP_LITTLE_ENDIAN == 0 {
            join_serial_bytes(serial_lo, serial_hi)
        } else {
            join_serial_bytes(serial_hi, serial_lo)
        }
    }

    /// Position of the earliest transaction with call identifier `serial_no`.
    fn find_tx(&self, serial_no: u16) -> (r: Option<usize>)
        ensures
            match r {
                Some(i) => i == find_index(self.tx_views(), serial_no as u32),
                None => find_index(self.tx_views(), serial_no as u32) == -1,
            },
    {
        let ghost views = self.tx_views();
        let mut i: usize = 0;
        while i < self.transactions.len()
            invariant
                i <= self.transactions@.len(),
                views == self.tx_views(),
                first_from(views, serial_no as u32, i as int) == find_index(views, serial_no as u32),
            decreases self.transactions@.len() - i,
        {
            assert(views[i as int] == self.transactions@[i as int]@);
            if self.transactions[i].call_id == serial_no as u32 {
                return Some(i);
            }
            i += 1;
        }
        None
    }

    /// Routes the front of `input` to the earliest transaction whose call
    /// identifier is that of the installed header: a request's bytes to its
    /// `_ts` buffer, a response's to its `_tc` buffer, at most as many as the
    /// fragment still owes and `input_len` offers. Returns the number of bytes
    /// taken, which the owed count loses. With no such transaction, or another
    /// packet type, nothing changes and 0 comes back.
    pub fn handle_fragment_data(&mut self, input: &[u8], input_len: u16) -> (r: u16)
        requires
            old(self).wf(),
            min_u16(old(self).fraglenleft, input_len) <= input@.len(),
        ensures
            final(self).wf(),
            ({
                let k = find_index(old(self).tx_views(), old(self).serial_no() as u32);
                let ty = old(self).hdr_pkt_type();
                if k >= 0 && is_stub_type(ty) {
                    &&& r == min_u16(old(self).fraglenleft, input_len)
                    &&& final(self).fraglenleft == old(self).fraglenleft - r
                    &&& final(self).tx_views() == old(self).tx_views().update(
                        k,
                        record_fragment(
                            old(self).tx_views()[k],
                            ty == DCERPC_TYPE_REQUEST,
                            old(self).hdr_flags1(),
                            input@.subrange(0, r as int),
                        ),
                    )
                    &&& final(self).tx_id == old(self).tx_id
                    &&& final(self).header == old(self).header
                    &&& final(self).uuid_list == old(self).uuid_list
                    &&& final(self).de_state == old(self).de_state
                } else {
                    r == 0 && *final(self) == *old(self)
                }
            }),
    {
        let hdrflags1 = match self.get_hdr_flags1() {
            Some(f) => f,
            None => 0,
        };
        let fraglenleft = self.fraglenleft;
        let hdrtype = match self.get_hdr_pkt_type() {
            Some(t) => t,
            None => 0,
        };
        let serial_no = self.evaluate_serial_no();
        let idx = match self.find_tx(serial_no) {
            Some(i) => i,
            None => {
                return 0;
            },
        };
        proof {
            lemma_first_from(self.tx_views(), serial_no as u32, 0);
        }
        let ghost before = self.transactions@[idx as int]@;
        assert(self.transactions@[idx as int].wf());
        let retval: u16;
        if hdrtype == DCERPC_TYPE_REQUEST {
            let tx = &mut self.transactions[idx];
            retval = evaluate_stub_params(
                input,
                input_len,
                hdrflags1,
                fraglenleft,
                &mut tx.stub_data_buffer_ts,
                &mut tx.stub_data_buffer_len_ts,
            );
            tx.req_done = true;
            if tx.frag_cnt_ts < u16::MAX {
                tx.frag_cnt_ts += 1;
            }
        } else if hdrtype == DCERPC_TYPE_RESPONSE {
            let tx = &mut self.transactions[idx];
            retval = evaluate_stub_params(
                input,
                input_len,
                hdrflags1,
                fraglenleft,
                &mut tx.stub_data_buffer_tc,
                &mut tx.stub_data_buffer_len_tc,
            );
            tx.resp_done = true;
            if tx.frag_cnt_tc < u16::MAX {
                tx.frag_cnt_tc += 1;
            }
        } else {
            return 0;
        }
        assert(self.transactions@[idx as int]@ == record_fragment(
            before,
            hdrtype == DCERPC_TYPE_REQUEST,
            hdrflags1,
            input@.subrange(0, retval as int),
        ));
        assert(self.tx_views() =~= old(self).tx_views().update(
            idx as int,
            record_fragment(
                before,
                hdrtype == DCERPC_TYPE_REQUEST,
                hdrflags1,
                input@.subrange(0, retval as int),
            ),
        ));
        self.fraglenleft = self.fraglenleft - retval;
        retval
    }

    /// Decodes and checks the header at the front of `input`. On success it
    /// becomes the flow's header, its activity UUID joins the history, and the
    /// header's size, 80, is returned; otherwise -1, with nothing changed.
    pub fn process_header(&mut self, input: &[u8]) -> (r: i32)
        requires
            old(self).wf(),
        ensures
            final(self).wf(),
            header_accepted(input@) ==> {
                &&& r == DCERPC_UDP_HDR_LEN
                &&& header_installed(*old(self), *final(self), input@)
                &&& final(self).tx_id == old(self).tx_id
                &&& final(self).transactions == old(self).transactions
                &&& final(self).fraglenleft == old(self).fraglenleft
                &&& final(self).de_state == old(self).de_state
            },
            !header_accepted(input@) ==> r == -1 && *final(self) == *old(self),
    {
        match validate_dcerpc_udp_header(input) {
            Ok((header, consumed)) => {
                let mut uuidentry = DCERPCUuidEntry::new();
                uuidentry.uuid = slice_to_vec(header.activityuuid.as_slice());
                self.uuid_list.push(uuidentry);
                self.header = Some(header);
                assert(self.uuid_list@.drop_last() =~= old(self).uuid_list@);
                consumed as i32
            },
            Err(_) => -1,
        }
    }

    /// Processes one datagram: header, one new transaction for its call,
    /// then its body handed to the fragment handler until the declared
    /// fragment length or the datagram runs out. A rejected header makes the
    /// result an error; a body that cannot be placed is dropped, and the
    /// datagram still counts as accepted.
    pub fn handle_input_data(&mut self, input: &[u8]) -> (r: AppLayerResult)
        requires
            old(self).wf(),
        ensures
            final(self).wf(),
            datagram_processed(*old(self), *final(self), input@, r),
    {
        if input.len() < DCERPC_UDP_HDR_LEN {
            return AppLayerResult::err();
        }
        let consumed = self.process_header(input);
        if consumed == -1 {
            return AppLayerResult::err();
        }
        let mut parsed: usize = consumed as usize;
        let mut input_left: usize = input.len() - parsed;
        let fraglen = match self.get_hdr_fraglen() {
            Some(f) => f,
            None => 0,
        };
        self.fraglenleft = fraglen;
        let serial_no = self.evaluate_serial_no();
        let ghost before = *self;
        let tx = self.create_tx(serial_no);
        self.transactions.push(tx);
        // the store's length fits in usize, so the counter was below its largest value
        let stored: usize = self.transactions.len();
        assert(before.tx_id < stored);
        assert(self.tx_id == before.tx_id + 1);
        let ghost mid = *self;
        let ghost b = input@;
        proof {
            assert(mid.tx_views() =~= txs_with_new(*old(self), b));
            assert(mid.transactions@[mid.transactions@.len() - 1].wf());
            assert(mid.tx_views()[mid.transactions@.len() - 1].call_id == serial_no_in(b) as u32);
            lemma_first_from(mid.tx_views(), serial_no_in(b) as u32, 0);
        }
        let ghost mut called = false;
        while parsed < fraglen as usize && input_left > 0
            invariant
                self.wf(),
                parsed <= b.len(),
                b == input@,
                header_accepted(b),
                header_installed(*old(self), mid, b),
                mid.tx_id == old(self).tx_id + 1,
                mid.de_state == old(self).de_state,
                mid.tx_views() == txs_with_new(*old(self), b),
                find_index(mid.tx_views(), serial_no_in(b) as u32) >= 0,
                mid.serial_no() == serial_no_in(b),
                mid.hdr_pkt_type() == b[1],
                mid.hdr_flags1() == b[2],
                mid.fraglenleft == fraglen,
                fraglen == fraglen_of(b),
                !called ==> parsed == DCERPC_UDP_HDR_LEN && input_left == b.len() - parsed
                    && *self == mid,
                called ==> !(parsed < fraglen && input_left > 0),
                called ==> fraglen > DCERPC_UDP_HDR_LEN && b.len() > DCERPC_UDP_HDR_LEN,
                called ==> if is_stub_type(b[1]) {
                    let k = find_index(mid.tx_views(), serial_no_in(b) as u32);
                    &&& self.tx_views() == mid.tx_views().update(
                        k,
                        record_fragment(
                            mid.tx_views()[k],
                            b[1] == DCERPC_TYPE_REQUEST,
                            b[2],
                            b.subrange(
                                DCERPC_UDP_HDR_LEN as int,
                                DCERPC_UDP_HDR_LEN + stub_bytes_taken(b),
                            ),
                        ),
                    )
                    &&& self.fraglenleft == fraglen - stub_bytes_taken(b)
                    &&& self.tx_id == mid.tx_id
                    &&& self.header == mid.header
                    &&& self.uuid_list == mid.uuid_list
                    &&& self.de_state == mid.de_state
                } else {
                    *self == mid
                },
            decreases input_left,
        {
            let chunk = slice_subrange(input, parsed, input.len());
            let offered: u16 = if input_left > 65535 {
                65535
            } else {
                input_left as u16
            };
            let retval = self.handle_fragment_data(chunk, offered);
            assert(chunk@.subrange(0, retval as int) =~= b.subrange(
                DCERPC_UDP_HDR_LEN as int,
                DCERPC_UDP_HDR_LEN + retval,
            ));
            if retval > 0 && (retval as usize) <= input_left {
                parsed += retval as usize;
                input_left -= retval as usize;
            } else {
                input_left = 0;
            }
            proof {
                called = true;
            }
        }
        AppLayerResult::ok()
    }

    fn get_hdr_pkt_type(&self) -> (r: Option<u8>)
        ensures
            r == (match self.header {
                Some(h) => Some(h.pkt_type),
                None => None::<u8>,
            }),
    {
        if let Some(hdr) = &self.header {
            return Some(hdr.pkt_type);
        }
        None
    }

    fn get_hdr_flags1(&self) -> (r: Option<u8>)
        ensures
            r == (match self.header {
                Some(h) => Some(h.flags1),
                None => None::<u8>,
            }),
    {
        if let Some(hdr) = &self.header {
            return Some(hdr.flags1);
        }
        None
    }

    fn get_hdr_drep_0(&self) -> (r: u8)
        requires
            self.wf(),
        ensures
            r == self.hdr_drep0(),
    {
        if let Some(hdr) = &self.header {
            return hdr.drep[0];
        }
        0
    }

    /// Fragment length of the installed header, if there is one.
    pub fn get_hdr_fraglen(&self) -> (r: Option<u16>)
        ensures
            r == (match self.header {
                Some(h) => Some(h.fraglen),
                None => None::<u16>,
            }),
    {
        if let Some(hdr) = &self.header {
            return Some(hdr.fraglen);
        }
        None
    }
}

} // verus!

verus! {

/// The first datagram of a call on a flow with no transactions: when it is a
/// request or a response, its declared fragment length L reaches past the
/// header and its body of n bytes fits in L, the one transaction it creates
/// holds that body in its direction, with logical length n, and L - n bytes
/// stay owed.
pub proof fn lemma_single_datagram_reassembly(
    old: DCERPCUDPState,
    new: DCERPCUDPState,
    b: Seq<u8>,
    r: AppLayerResult,
)
    requires
        old.wf(),
        old.transactions@.len() == 0,
        datagram_processed(old, new, b, r),
        header_accepted(b),
        is_stub_type(b[1]),
        fraglen_of(b) > DCERPC_UDP_HDR_LEN,
        DCERPC_UDP_HDR_LEN < b.len() <= DCERPC_UDP_HDR_LEN + fraglen_of(b),
    ensures
        r == AppLayerResult::spec_ok(),
        new.transactions@.len() == 1,
        new.fraglenleft == fraglen_of(b) - (b.len() - DCERPC_UDP_HDR_LEN),
        b[1] == DCERPC_TYPE_REQUEST ==> new.tx_views()[0].stub_ts == b.subrange(
            DCERPC_UDP_HDR_LEN as int,
            b.len() as int,
        ) && new.tx_views()[0].len_ts == b.len() - DCERPC_UDP_HDR_LEN,
        b[1] == DCERPC_TYPE_RESPONSE ==> new.tx_views()[0].stub_tc == b.subrange(
            DCERPC_UDP_HDR_LEN as int,
            b.len() as int,
        ) && new.tx_views()[0].len_tc == b.len() - DCERPC_UDP_HDR_LEN,
{
    let txs = txs_with_new(old, b);
    let body = b.subrange(DCERPC_UDP_HDR_LEN as int, b.len() as int);
    assert(txs.len() == 1);
    assert(find_index(txs, serial_no_in(b) as u32) == 0);
    assert(Seq::<u8>::empty() + body =~= body);
    assert(new.tx_views().len() == new.transactions@.len());
}

/// Two flows whose headers differ only in that the byte order bit is clear
/// in one and set in the other, with the serial bytes swapped, give the same
/// call identifier.
pub proof fn lemma_flow_serial_no_byte_order_swap(s1: DCERPCUDPState, s2: DCERPCUDPState)
    requires
        s1.wf(),
        s2.wf(),
        s1.header is Some,
        s2.header is Some,
        s1.hdr_drep0() & DREP_LITTLE_ENDIAN == 0,
        s2.hdr_drep0() & DREP_LITTLE_ENDIAN != 0,
        s2.header->0.serial_hi == s1.header->0.serial_lo,
        s2.header->0.serial_lo == s1.header->0.serial_hi,
    ensures
        s1.serial_no() == s2.serial_no(),
{
    lemma_serial_no_byte_order_swap(
        s1.hdr_drep0(),
        s2.hdr_drep0(),
        s1.header->0.serial_hi,
        s1.header->0.serial_lo,
    );
}

/// A datagram whose packet type is neither a request nor a response adds no
/// stub byte to any transaction: those already there stay as they were, the
/// one it creates is empty, and the owed count is the declared fragment
/// length.
pub proof fn lemma_unrecognized_type_adds_nothing(
    old: DCERPCUDPState,
    new: DCERPCUDPState,
    b: Seq<u8>,
    r: AppLayerResult,
)
    requires
        old.wf(),
        datagram_processed(old, new, b, r),
        !is_stub_type(b[1]),
    ensures
        new.tx_views() == (if header_accepted(b) {
            txs_with_new(old, b)
        } else {
            old.tx_views()
        }),
        header_accepted(b) ==> new.fraglenleft == fraglen_of(b),
{
}

} // verus!
