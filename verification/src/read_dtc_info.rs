//! The read-DTC-information service: request builders for each
//! supported trouble-code query.

use vstd::prelude::*;

use crate::uds::UDSClientSession;

verus! {

impl UDSClientSession {
    /// Returns the request bytes asking how many stored trouble codes match a status mask.
    pub fn uds_get_number_of_dtcs_by_status_mask(&self, status_mask: u8) -> (r: Vec<u8>)
        ensures
            r@ == seq![0x19u8, 0x01u8, status_mask],
    {
        let mut v: Vec<u8> = Vec::new();
        v.push(0x19);
        v.push(0x01);
        v.push(status_mask);
        proof {
            assert(v@ =~= seq![0x19u8, 0x01u8, status_mask]);
        }
        v
    }

    /// Returns the request bytes listing the stored trouble codes that match a status mask.
    pub fn uds_get_dtcs_by_status_mask(&self, status_mask: u8) -> (r: Vec<u8>)
        ensures
            r@ == seq![0x19u8, 0x02u8, status_mask],
    {
        let mut v: Vec<u8> = Vec::new();
        v.push(0x19);
        v.push(0x02);
        v.push(status_mask);
        proof {
            assert(v@ =~= seq![0x19u8, 0x02u8, status_mask]);
        }
        v
    }

    /// Returns the request bytes listing the snapshot records the ECU holds.
    pub fn uds_get_dtc_snapshot_identification(&self) -> (r: Vec<u8>)
        ensures
            r@ == seq![0x19u8, 0x03u8],
    {
        let mut v: Vec<u8> = Vec::new();
        v.push(0x19);
        v.push(0x03);
        proof {
            assert(v@ =~= seq![0x19u8, 0x03u8]);
        }
        v
    }

    /// Returns the request bytes for the snapshot records of one trouble code.
    pub fn uds_get_dtc_snapshot_record_by_dtc_number(&self, dtc_mask_record: u32, snapshot_record_number: u8) -> (r: Vec<u8>)
        ensures
            r@ == seq![0x19u8, 0x04u8, ((dtc_mask_record >> 16) as u8), ((dtc_mask_record >> 8) as u8), (dtc_mask_record as u8), snapshot_record_number],
    {
        let mut v: Vec<u8> = Vec::new();
        v.push(0x19);
        v.push(0x04);
        v.push(((dtc_mask_record >> 16) as u8));
        v.push(((dtc_mask_record >> 8) as u8));
        v.push((dtc_mask_record as u8));
        v.push(snapshot_record_number);
        proof {
            assert(v@ =~= seq![0x19u8, 0x04u8, ((dtc_mask_record >> 16) as u8), ((dtc_mask_record >> 8) as u8), (dtc_mask_record as u8), snapshot_record_number]);
        }
        v
    }

    /// Returns the request bytes for one snapshot record by its number.
    pub fn uds_get_dtc_snapshot_record_by_record_number(&self, snapshot_record_number: u8) -> (r: Vec<u8>)
        ensures
            r@ == seq![0x19u8, 0x05u8, snapshot_record_number],
    {
        let mut v: Vec<u8> = Vec::new();
        v.push(0x19);
        v.push(0x05);
        v.push(snapshot_record_number);
        proof {
            assert(v@ =~= seq![0x19u8, 0x05u8, snapshot_record_number]);
        }
        v
    }

    /// Returns the request bytes for the extended data of one trouble code.
    pub fn uds_get_dtc_extended_data_record_by_dtc_number(&self, dtc: u32, extended_data_record_number: u8) -> (r: Vec<u8>)
        ensures
            r@ == seq![0x19u8, 0x06u8, ((dtc >> 16) as u8), ((dtc >> 8) as u8), (dtc as u8), extended_data_record_number],
    {
        let mut v: Vec<u8> = Vec::new();
        v.push(0x19);
        v.push(0x06);
        v.push(((dtc >> 16) as u8));
        v.push(((dtc >> 8) as u8));
        v.push((dtc as u8));
        v.push(extended_data_record_number);
        proof {
            assert(v@ =~= seq![0x19u8, 0x06u8, ((dtc >> 16) as u8), ((dtc >> 8) as u8), (dtc as u8), extended_data_record_number]);
        }
        v
    }

    /// Returns the request bytes asking how many trouble codes match a severity and status mask.
    pub fn uds_get_number_of_dtcs_by_severity_mask_record(&self, severity_mask: u8, status_mask: u8) -> (r: Vec<u8>)
        ensures
            r@ == seq![0x19u8, 0x07u8, severity_mask, status_mask],
    {
        let mut v: Vec<u8> = Vec::new();
        v.push(0x19);
        v.push(0x07);
        v.push(severity_mask);
        v.push(status_mask);
        proof {
            assert(v@ =~= seq![0x19u8, 0x07u8, severity_mask, status_mask]);
        }
        v
    }

    /// Returns the request bytes listing the trouble codes that match a severity and status mask.
    pub fn uds_get_dtcs_by_severity_mask_record(&self, severity_mask: u8, status_mask: u8) -> (r: Vec<u8>)
        ensures
            r@ == seq![0x19u8, 0x08u8, severity_mask, status_mask],
    {
        let mut v: Vec<u8> = Vec::new();
        v.push(0x19);
        v.push(0x08);
        v.push(severity_mask);
        v.push(status_mask);
        proof {
            assert(v@ =~= seq![0x19u8, 0x08u8, severity_mask, status_mask]);
        }
        v
    }

    /// Returns the request bytes for the severity of one trouble code.
    pub fn uds_get_severity_information_of_dtc(&self, dtc: u32) -> (r: Vec<u8>)
        ensures
            r@ == seq![0x19u8, 0x09u8, ((dtc >> 16) as u8), ((dtc >> 8) as u8), (dtc as u8)],
    {
        let mut v: Vec<u8> = Vec::new();
        v.push(0x19);
        v.push(0x09);
        v.push(((dtc >> 16) as u8));
        v.push(((dtc >> 8) as u8));
        v.push((dtc as u8));
        proof {
            assert(v@ =~= seq![0x19u8, 0x09u8, ((dtc >> 16) as u8), ((dtc >> 8) as u8), (dtc as u8)]);
        }
        v
    }

    /// Returns the request bytes listing every trouble code the ECU can report.
    pub fn uds_get_supported_dtc(&self) -> (r: Vec<u8>)
        ensures
            r@ == seq![0x19u8, 0x0Au8],
    {
        let mut v: Vec<u8> = Vec::new();
        v.push(0x19);
        v.push(0x0A);
        proof {
            assert(v@ =~= seq![0x19u8, 0x0Au8]);
        }
        v
    }

    /// Returns the request bytes for the first failed trouble code since the last clear.
    pub fn uds_get_first_test_failed_dtc(&self) -> (r: Vec<u8>)
        ensures
            r@ == seq![0x19u8, 0x0Bu8],
    {
        let mut v: Vec<u8> = Vec::new();
        v.push(0x19);
        v.push(0x0B);
        proof {
            assert(v@ =~= seq![0x19u8, 0x0Bu8]);
        }
        v
    }

    /// Returns the request bytes for the first confirmed trouble code since the last clear.
    pub fn uds_get_first_confirmed_dtc(&self) -> (r: Vec<u8>)
        ensures
            r@ == seq![0x19u8, 0x0Cu8],
    {
        let mut v: Vec<u8> = Vec::new();
        v.push(0x19);
        v.push(0x0C);
        proof {
            assert(v@ =~= seq![0x19u8, 0x0Cu8]);
        }
        v
    }

    /// Returns the request bytes for the most recent failed trouble code.
    pub fn uds_get_most_recent_test_failed_dtc(&self) -> (r: Vec<u8>)
        ensures
            r@ == seq![0x19u8, 0x0Du8],
    {
        let mut v: Vec<u8> = Vec::new();
        v.push(0x19);
        v.push(0x0D);
        proof {
            assert(v@ =~= seq![0x19u8, 0x0Du8]);
        }
        v
    }

    /// Returns the request bytes for the most recent confirmed trouble code.
    pub fn uds_get_most_recent_confirmed_dtc(&self) -> (r: Vec<u8>)
        ensures
            r@ == seq![0x19u8, 0x0Eu8],
    {
        let mut v: Vec<u8> = Vec::new();
        v.push(0x19);
        v.push(0x0E);
        proof {
            assert(v@ =~= seq![0x19u8, 0x0Eu8]);
        }
        v
    }

    /// Returns the request bytes for the fault-detection counters of pre-failed trouble codes.
    pub fn uds_get_dtc_fault_detection_counter(&self) -> (r: Vec<u8>)
        ensures
            r@ == seq![0x19u8, 0x14u8],
    {
        let mut v: Vec<u8> = Vec::new();
        v.push(0x19);
        v.push(0x14);
        proof {
            assert(v@ =~= seq![0x19u8, 0x14u8]);
        }
        v
    }

    /// Returns the request bytes listing trouble codes with permanent status.
    pub fn uds_get_dtc_with_permanent_status(&self) -> (r: Vec<u8>)
        ensures
            r@ == seq![0x19u8, 0x15u8],
    {
        let mut v: Vec<u8> = Vec::new();
        v.push(0x19);
        v.push(0x15);
        proof {
            assert(v@ =~= seq![0x19u8, 0x15u8]);
        }
        v
    }

}

} // verus!
