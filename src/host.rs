//! The entry points through which an inspection engine drives a flow and
//! reads its state back.
use crate::transaction::DetectStateHandle;
use crate::udp::{datagram_processed, AppLayerResult, DCERPCUDPState};
use vstd::prelude::*;

verus! {

/// Hands a datagram to a flow; an empty datagram is an error.
pub fn rs_dcerpc_udp_parse(state: &mut DCERPCUDPState, input: &[u8]) -> (r: AppLayerResult)
    requires
        old(state).wf(),
    ensures
        final(state).wf(),
        datagram_processed(*old(state), *final(state), input@, r),
{
    if input.len() > 0 {
        return state.handle_input_data(input);
    }
    AppLayerResult::err()
}

/// A new flow, boxed for the engine to own.
pub fn rs_dcerpc_udp_state_new() -> (r: Box<DCERPCUDPState>)
    ensures
        r.wf(),
        r.is_fresh(),
{
    Box::new(DCERPCUDPState::new())
}

/// Transactions are never freed one by one here: this leaves the flow as it is.
pub fn rs_dcerpc_udp_state_transaction_free(state: &mut DCERPCUDPState, _tx_id: u64)
    ensures
        *final(state) == *old(state),
{
}

/// The detection state attached to the flow, if any.
pub fn rs_dcerpc_udp_get_tx_detect_state(state: &DCERPCUDPState) -> (r: Option<DetectStateHandle>)
    ensures
        r == state.de_state,
{
    state.de_state
}

/// Attaches detection state to the flow; always returns 0.
pub fn rs_dcerpc_udp_set_tx_detect_state(
    state: &mut DCERPCUDPState,
    de_state: DetectStateHandle,
) -> (r: u8)
    ensures
        r == 0,
        *final(state) == (DCERPCUDPState { de_state: Some(de_state), ..*old(state) }),
{
    state.de_state = Some(de_state);
    0
}

/// The flow stands for its one transaction slot, whatever the index.
pub fn rs_dcerpc_udp_get_tx(state: &DCERPCUDPState, _tx_id: u64) -> (r: &DCERPCUDPState)
    ensures
        *r == *state,
{
    state
}

/// The engine sees one transaction slot per flow.
pub fn rs_dcerpc_udp_get_tx_cnt(_state: &DCERPCUDPState) -> (r: u8)
    ensures
        r == 1,
{
    1
}

/// Progress of the transaction slot in a direction: always "in progress".
pub fn rs_dcerpc_udp_get_alstate_progress(_tx: &DCERPCUDPState, _direction: u8) -> (r: u8)
    ensures
        r == 0,
{
    0
}

/// The progress value that means "complete", in either direction.
pub fn rs_dcerpc_udp_get_alstate_progress_completion_status(_direction: u8) -> (r: u8)
    ensures
        r == 1,
{
    1
}

} // verus!
