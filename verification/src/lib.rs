//! Host-side diagnostic client core: UDS (ISO 14229-1) request/response
//! framing carried over ISO-TP (ISO 15765-2) transport segmentation.

pub mod api;
pub mod bytes;
pub mod cli;
pub mod communication_control;
pub mod control_dtc_setting;
pub mod correlator;
pub mod diagnostic_session_control;
pub mod ecu_reset;
pub mod errors;
pub mod frame;
pub mod isotp;
pub mod isotp_link;
pub mod isotp_rx;
pub mod isotp_tx;
pub mod link_control;
pub mod read_data_by_id;
pub mod read_dtc_info;
pub mod routine_control;
pub mod routine_results;
pub mod security_access;
pub mod uds;
pub mod worker;
