//! Reassembly of connectionless (UDP) DCE/RPC stub data, one flow at a time.
//!
//! `header` decodes the fixed 80-byte header, `transaction` holds the per-call
//! records and the stub assembler, `udp` the per-flow state machine and
//! `host` the entry points an inspection engine calls.
pub mod header;
pub mod host;
pub mod transaction;
pub mod udp;

pub use header::{
    parse_dcerpc_udp_header, validate_dcerpc_udp_header, DCERPCHdrUdp, HeaderError,
    DCERPC_TYPE_REQUEST, DCERPC_TYPE_RESPONSE, DCERPC_UDP_HDR_LEN, PFC_FIRST_FRAG,
};
pub use host::{
    rs_dcerpc_udp_get_alstate_progress, rs_dcerpc_udp_get_alstate_progress_completion_status,
    rs_dcerpc_udp_get_tx, rs_dcerpc_udp_get_tx_cnt, rs_dcerpc_udp_get_tx_detect_state,
    rs_dcerpc_udp_parse, rs_dcerpc_udp_set_tx_detect_state, rs_dcerpc_udp_state_new,
    rs_dcerpc_udp_state_transaction_free,
};
pub use transaction::{evaluate_stub_params, DCERPCTransaction, DCERPCUuidEntry};
pub use udp::{AppLayerResult, DCERPCUDPState};
