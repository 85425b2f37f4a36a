//! The communication-control service: enables or disables message
//! transmission and reception per subnet. The one-byte encoding of the
//! communication type and subnet is done by the `automotive_diag`
//! crate and trusted against its source.

use vstd::prelude::*;

use automotive_diag::uds::CommunicationLevel;
use automotive_diag::uds::CommunicationType;
use automotive_diag::uds::Subnet;

verus! {

/// Declares automotive_diag's CommunicationType so it can stand in
/// signatures and specifications.
#[verifier::external_type_specification]
pub struct ExCommunicationType(CommunicationType);

/// Declares automotive_diag's Subnet so it can stand in signatures
/// and specifications.
#[verifier::external_type_specification]
pub struct ExSubnet(Subnet);

/// Declares automotive_diag's CommunicationLevel so it can stand in
/// signatures and specifications.
#[verifier::external_type_specification]
pub struct ExCommunicationLevel(CommunicationLevel);

/// The byte that encodes a communication type and subnet together:
/// the type in the low nibble, the subnet in the high nibble.
pub open spec fn spec_encode_communication_type(typ: CommunicationType, subnet: Subnet) -> u8 {
    let t: u8 = match typ {
        CommunicationType::NormalCommunication => 0x01,
        CommunicationType::NetworkManagement => 0x02,
        CommunicationType::All => 0x03,
    };
    let s: u8 = match subnet {
        Subnet::All => 0x00,
        Subnet::Custom(x) => x,
        Subnet::RxOnly => 0x0F,
    };
    t | (s << 4)
}

/// Relies on automotive_diag's encode_communication_type: the
/// communication type in the low nibble, the subnet in the high one.
pub assume_specification[ automotive_diag::uds::encode_communication_type ](
    typ: CommunicationType,
    subnet: Subnet,
) -> (r: u8)
    ensures
        r == spec_encode_communication_type(typ, subnet),
;

/// The wire byte of a communication level.
pub open spec fn spec_comm_level_byte(level: CommunicationLevel) -> u8 {
    match level {
        CommunicationLevel::EnableRxAndTx => 0x00,
        CommunicationLevel::EnableRxDisableTx => 0x01,
        CommunicationLevel::DisableRxEnableTx => 0x02,
        CommunicationLevel::DisableRxAndTx => 0x03,
        CommunicationLevel::EnableRxAndDisableTxWithEnhancedAddressInformation => 0x04,
        CommunicationLevel::EnableRxAndTxWithEnhancedAddressInformation => 0x05,
    }
}

/// Relies on automotive_diag's From conversion: each communication
/// level converts to its declared byte.
pub assume_specification[ <u8 as core::convert::From<CommunicationLevel>>::from ](
    value: CommunicationLevel,
) -> (r: u8)
    ensures
        r == spec_comm_level_byte(value),
;

impl crate::uds::UDSClientSession {
    /// The request bytes of a communication-control command: the
    /// service identifier, the level, and the combined type and
    /// subnet byte.
    pub fn uds_communication_control(
        &self,
        communication_type: CommunicationType,
        subnet: Subnet,
        comm_level: CommunicationLevel,
    ) -> (r: Vec<u8>)
        ensures
            r@ == seq![
                0x28u8,
                spec_comm_level_byte(comm_level),
                spec_encode_communication_type(communication_type, subnet),
            ],
    {
        let level: u8 = comm_level.into();
        let ct = automotive_diag::uds::encode_communication_type(communication_type, subnet);
        let mut v: Vec<u8> = Vec::new();
        v.push(0x28);
        v.push(level);
        v.push(ct);
        proof {
            assert(v@ =~= seq![
                0x28u8,
                spec_comm_level_byte(comm_level),
                spec_encode_communication_type(communication_type, subnet),
            ]);
        }
        v
    }
}

} // verus!
