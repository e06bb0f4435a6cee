//! Per-call transactions and the stub assembler that fills their buffers.
use crate::header::PFC_FIRST_FRAG;
use vstd::prelude::*;

verus! {

/// Handle of detection state that the inspection engine attaches; never read here.
pub type DetectStateHandle = u64;

/// An entry of a flow's UUID history.
pub struct DCERPCUuidEntry {
    pub ctxid: u16,
    pub internal_id: u16,
    pub result: u16,
    pub uuid: Vec<u8>,
    pub version: u16,
    pub versionminor: u16,
    pub flags: u8,
}

impl DCERPCUuidEntry {
    /// An entry with no UUID and all metadata zero.
    pub open spec fn is_blank(&self) -> bool {
        &&& self.ctxid == 0
        &&& self.internal_id == 0
        &&& self.result == 0
        &&& self.uuid@.len() == 0
        &&& self.version == 0
        &&& self.versionminor == 0
        &&& self.flags == 0
    }

    pub fn new() -> (r: DCERPCUuidEntry)
        ensures
            r.is_blank(),
    {
        DCERPCUuidEntry {
            ctxid: 0,
            internal_id: 0,
            result: 0,
            uuid: Vec::new(),
            version: 0,
            versionminor: 0,
            flags: 0,
        }
    }
}

/// One logical call. `_ts` fields hold what went to the server (requests),
/// `_tc` fields what went to the client (responses).
pub struct DCERPCTransaction {
    pub id: u64,
    pub call_id: u32,
    pub endianness: u8,
    pub stub_data_buffer_ts: Vec<u8>,
    pub stub_data_buffer_tc: Vec<u8>,
    pub stub_data_buffer_len_ts: usize,
    pub stub_data_buffer_len_tc: usize,
    pub req_done: bool,
    pub resp_done: bool,
    pub frag_cnt_ts: u16,
    pub frag_cnt_tc: u16,
    pub de_state: Option<DetectStateHandle>,
}

/// What a transaction holds, as mathematical values.
pub struct TxView {
    pub id: u64,
    pub call_id: u32,
    pub endianness: u8,
    pub stub_ts: Seq<u8>,
    pub stub_tc: Seq<u8>,
    pub len_ts: nat,
    pub len_tc: nat,
    pub req_done: bool,
    pub resp_done: bool,
    pub frag_cnt_ts: u16,
    pub frag_cnt_tc: u16,
    pub de_state: Option<DetectStateHandle>,
}

impl View for DCERPCTransaction {
    type V = TxView;

    open spec fn view(&self) -> TxView {
        TxView {
            id: self.id,
            call_id: self.call_id,
            endianness: self.endianness,
            stub_ts: self.stub_data_buffer_ts@,
            stub_tc: self.stub_data_buffer_tc@,
            len_ts: self.stub_data_buffer_len_ts as nat,
            len_tc: self.stub_data_buffer_len_tc as nat,
            req_done: self.req_done,
            resp_done: self.resp_done,
            frag_cnt_ts: self.frag_cnt_ts,
            frag_cnt_tc: self.frag_cnt_tc,
            de_state: self.de_state,
        }
    }
}

impl TxView {
    /// A logical length never runs past the bytes stored for its direction.
    pub open spec fn wf(&self) -> bool {
        self.len_ts <= self.stub_ts.len() && self.len_tc <= self.stub_tc.len()
    }
}

impl DCERPCTransaction {
    pub open spec fn wf(&self) -> bool {
        self@.wf()
    }

    /// A transaction with empty buffers, nothing done and nothing counted.
    pub fn new() -> (r: DCERPCTransaction)
        ensures
            r@ == fresh_tx(0, 0, 0),
    {
        DCERPCTransaction {
            id: 0,
            call_id: 0,
            endianness: 0,
            stub_data_buffer_ts: Vec::new(),
            stub_data_buffer_tc: Vec::new(),
            stub_data_buffer_len_ts: 0,
            stub_data_buffer_len_tc: 0,
            req_done: false,
            resp_done: false,
            frag_cnt_ts: 0,
            frag_cnt_tc: 0,
            de_state: None,
        }
    }
}

/// A new transaction for a call: empty in both directions.
pub open spec fn fresh_tx(id: u64, call_id: u32, endianness: u8) -> TxView {
    TxView {
        id,
        call_id,
        endianness,
        stub_ts: Seq::empty(),
        stub_tc: Seq::empty(),
        len_ts: 0,
        len_tc: 0,
        req_done: false,
        resp_done: false,
        frag_cnt_ts: 0,
        frag_cnt_tc: 0,
        de_state: None,
    }
}

/// The smaller of two counts.
pub open spec fn min_u16(a: u16, b: u16) -> u16 {
    if a <= b {
        a
    } else {
        b
    }
}

/// Logical length of a stub buffer after `n` bytes were appended under `flags`:
/// the first fragment of a PDU starts the count again.
pub open spec fn stub_len_after(len: nat, flags: u8, n: nat) -> nat {
    if n > 0 && flags & PFC_FIRST_FRAG != 0 {
        n
    } else {
        len + n
    }
}

/// Fragment counters stop at their largest value.
pub open spec fn count_one_more(c: u16) -> u16 {
    if c < u16::MAX {
        (c + 1) as u16
    } else {
        c
    }
}

/// The transaction after a fragment carrying `bytes` of stub data arrived:
/// a request fills the `_ts` side, a response the `_tc` side.
pub open spec fn record_fragment(t: TxView, is_request: bool, flags: u8, bytes: Seq<u8>) -> TxView {
    if is_request {
        TxView {
            stub_ts: t.stub_ts + bytes,
            len_ts: stub_len_after(t.len_ts, flags, bytes.len()),
            req_done: true,
            frag_cnt_ts: count_one_more(t.frag_cnt_ts),
            ..t
        }
    } else {
        TxView {
            stub_tc: t.stub_tc + bytes,
            len_tc: stub_len_after(t.len_tc, flags, bytes.len()),
            resp_done: true,
            frag_cnt_tc: count_one_more(t.frag_cnt_tc),
            ..t
        }
    }
}

/// Appends to a stub buffer the first `min(lenleft, input_len)` bytes of
/// `input`, the fragment bytes still owed, and returns how many it took.
/// With the first-fragment bit in `hdrflags` the logical length restarts at
/// zero before the append; the stored bytes are kept. When nothing is owed or
/// nothing is offered it changes nothing and returns 0.
pub fn evaluate_stub_params(
    input: &[u8],
    input_len: u16,
    hdrflags: u8,
    lenleft: u16,
    stub_data_buffer: &mut Vec<u8>,
    stub_data_buffer_len: &mut usize,
) -> (r: u16)
    requires
        min_u16(lenleft, input_len) <= input@.len(),
        *old(stub_data_buffer_len) <= old(stub_data_buffer)@.len(),
    ensures
        r == min_u16(lenleft, input_len),
        final(stub_data_buffer)@ == old(stub_data_buffer)@ + input@.subrange(0, r as int),
        *final(stub_data_buffer_len) == stub_len_after(
            *old(stub_data_buffer_len) as nat,
            hdrflags,
            r as nat,
        ),
        *final(stub_data_buffer_len) <= final(stub_data_buffer)@.len(),
{
    let stub_len: u16 = if lenleft <= input_len {
        lenleft
    } else {
        input_len
    };
    if stub_len == 0 {
        assert(input@.subrange(0, 0) =~= Seq::<u8>::empty());
        assert(old(stub_data_buffer)@ + Seq::<u8>::empty() =~= old(stub_data_buffer)@);
        return 0;
    }
    if hdrflags & PFC_FIRST_FRAG > 0 {
        *stub_data_buffer_len = 0;
    }
    let input_slice = vstd::slice::slice_subrange(input, 0, stub_len as usize);
    stub_data_buffer.extend_from_slice(input_slice);
    assert(stub_data_buffer@ =~= old(stub_data_buffer)@ + input@.subrange(0, stub_len as int));
    // the stored bytes bound the logical length, and their count fits in usize
    let stored: usize = stub_data_buffer.len();
    assert(*stub_data_buffer_len + stub_len <= stored);
    *stub_data_buffer_len += stub_len as usize;
    stub_len
}

} // verus!
