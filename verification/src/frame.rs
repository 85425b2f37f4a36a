//! Classical CAN frames and hardware description types.

use vstd::prelude::*;
use vstd::slice::slice_subrange;
use vstd::slice::slice_to_vec;

verus! {

/// Largest identifier expressible with 11 bits.
pub open spec fn std_id_limit() -> u32 {
    0x7FF
}

/// Largest identifier expressible with 29 bits.
pub open spec fn ext_id_limit() -> u32 {
    0x1FFFFFFF
}

/// A classical CAN frame: an 11- or 29-bit arbitration identifier, an
/// extended-identifier flag and a payload of at most eight bytes.
/// Immutable once constructed.
#[derive(Clone, Debug)]
pub struct CanFrame {
    id: u32,
    data: Vec<u8>,
    extended: bool,
}

impl CanFrame {
    /// A frame is well formed when its payload fits a classical CAN frame
    /// and its identifier fits the addressing mode.
    pub open spec fn wf(self) -> bool {
        &&& self.spec_data().len() <= 8
        &&& self.spec_address() <= if self.spec_extended() {
            ext_id_limit()
        } else {
            std_id_limit()
        }
    }

    /// The arbitration identifier.
    pub closed spec fn spec_address(self) -> u32 {
        self.id
    }

    /// The payload bytes.
    pub closed spec fn spec_data(self) -> Seq<u8> {
        self.data@
    }

    /// Whether the identifier is a 29-bit one.
    pub closed spec fn spec_extended(self) -> bool {
        self.extended
    }

    /// Builds a frame from an identifier and payload bytes.
    pub fn new(addr: u32, data: &[u8], extended: bool) -> (r: CanFrame)
        requires
            data@.len() <= 8,
            addr <= if extended {
                ext_id_limit()
            } else {
                std_id_limit()
            },
        ensures
            r.wf(),
            r.spec_address() == addr,
            r.spec_data() == data@,
            r.spec_extended() == extended,
    {
        CanFrame { id: addr, data: slice_to_vec(data), extended }
    }

    /// The arbitration identifier.
    pub fn get_address(&self) -> (r: u32)
        ensures
            r == self.spec_address(),
    {
        self.id
    }

    /// The payload bytes.
    pub fn get_data(&self) -> (r: &Vec<u8>)
        ensures
            r@ == self.spec_data(),
    {
        &self.data
    }

    /// Whether the identifier is a 29-bit one.
    pub fn is_extended(&self) -> (r: bool)
        ensures
            r == self.spec_extended(),
    {
        self.extended
    }

    /// The bytes following the protocol control byte: for a single-frame
    /// UDS command this starts with the service identifier.
    pub fn get_sid(&self) -> (r: &[u8])
        requires
            self.spec_data().len() >= 1,
        ensures
            r@ == self.spec_data().skip(1),
    {
        slice_subrange(self.data.as_slice(), 1, self.data.len())
    }
}

/// Bitwise AND of all identifiers in a sequence, starting from all ones.
pub open spec fn and_all(s: Seq<u32>) -> u32
    decreases s.len(),
{
    if s.len() == 0 {
        0xFFFFFFFFu32
    } else {
        and_all(s.drop_last()) & s.last()
    }
}

/// Bitwise OR of all identifiers in a sequence, starting from zero.
pub open spec fn or_all(s: Seq<u32>) -> u32
    decreases s.len(),
{
    if s.len() == 0 {
        0u32
    } else {
        or_all(s.drop_last()) | s.last()
    }
}

/// The identifier-range limit that applies to an addressing mode.
pub open spec fn id_limit(use_ext_can: bool) -> u32 {
    if use_ext_can {
        ext_id_limit()
    } else {
        std_id_limit()
    }
}

/// The acceptance mask derived from a non-empty identifier list: bit
/// positions (within the addressing width) on which all identifiers agree.
pub open spec fn spec_filter_mask(s: Seq<u32>, use_ext_can: bool) -> u32 {
    (or_all(s) ^ and_all(s)) ^ id_limit(use_ext_can)
}

/// The AND of all identifiers keeps every identifier's common bits: the
/// accumulated value stays a bitwise subset of each element.
proof fn lemma_and_all_subset(s: Seq<u32>, k: int)
    requires
        0 <= k < s.len(),
    ensures
        and_all(s) & s[k] == and_all(s),
    decreases s.len(),
{
    let p = and_all(s.drop_last());
    let l = s.last();
    if k == s.len() - 1 {
        assert((p & l) & l == p & l) by (bit_vector);
    } else {
        lemma_and_all_subset(s.drop_last(), k);
        let x = s[k];
        assert(p & x == p ==> (p & l) & x == p & l) by (bit_vector);
    }
}

/// Each identifier is a bitwise subset of the OR of all identifiers.
proof fn lemma_or_all_superset(s: Seq<u32>, k: int)
    requires
        0 <= k < s.len(),
    ensures
        s[k] & or_all(s) == s[k],
    decreases s.len(),
{
    let p = or_all(s.drop_last());
    let l = s.last();
    if k == s.len() - 1 {
        assert(l & (p | l) == l) by (bit_vector);
    } else {
        lemma_or_all_superset(s.drop_last(), k);
        let x = s[k];
        assert(x & p == x ==> x & (p | l) == x) by (bit_vector);
    }
}

/// Every identifier in the list passes the generated filter: masking it
/// yields exactly the common filter value.
pub proof fn lemma_filter_mask_matches(s: Seq<u32>, use_ext_can: bool, k: int)
    requires
        0 <= k < s.len(),
        forall|j: int| 0 <= j < s.len() ==> s[j] & id_limit(use_ext_can) == s[j],
    ensures
        spec_filter_mask(s, use_ext_can) & s[k] == and_all(s),
{
    lemma_and_all_subset(s, k);
    lemma_or_all_superset(s, k);
    let a = and_all(s);
    let o = or_all(s);
    let i = s[k];
    let lim = id_limit(use_ext_can);
    assert((a & i == a && i & o == i && i & lim == i) ==> ((o ^ a) ^ lim) & i == a)
        by (bit_vector);
}

/// On a one-element list both the AND and the OR equal that element.
proof fn lemma_fold_single(s: Seq<u32>)
    requires
        s.len() >= 1,
    ensures
        and_all(s.take(1)) == s[0],
        or_all(s.take(1)) == s[0],
{
    let s0 = s.take(0);
    assert(s0.len() == 0);
    assert(and_all(s0) == 0xFFFFFFFFu32);
    assert(or_all(s0) == 0u32);
    let first = s.take(1);
    assert(first.drop_last() =~= s0);
    assert(first.last() == s[0]);
    let x0 = s[0];
    assert(0xFFFFFFFFu32 & x0 == x0) by (bit_vector);
    assert(0u32 | x0 == x0) by (bit_vector);
}

/// Derives an acceptance (mask, filter) pair from a list of CAN
/// identifiers: identifiers agree on every masked bit position, so a
/// received identifier matches when `id & mask == filter`. An empty list
/// yields the allow-anything pair.
pub fn ids_to_filter_mask(ids: &[u32], use_ext_can: bool) -> (r: (u32, u32))
    ensures
        ids@.len() == 0 ==> r == (0u32, 0u32),
        ids@.len() > 0 ==> r.0 == spec_filter_mask(ids@, use_ext_can) && r.1 == and_all(ids@),
{
    if ids.is_empty() {
        return (0, 0);
    }
    let mut m: u32 = ids[0];
    let mut f: u32 = ids[0];
    let n = ids.len();
    let mut i: usize = 0;
    proof {
        lemma_fold_single(ids@);
    }
    while i < n
        invariant
            0 < n == ids@.len(),
            i <= n,
            f == and_all(ids@.take(if i == 0 {
                1int
            } else {
                i as int
            })),
            m == or_all(ids@.take(if i == 0 {
                1int
            } else {
                i as int
            })),
        decreases n - i,
    {
        let id = ids[i];
        proof {
            if i > 0 {
                assert(ids@.take(i + 1).drop_last() =~= ids@.take(i as int));
                assert(ids@.take(i + 1).last() == ids@[i as int]);
            } else {
                lemma_fold_single(ids@);
                let x = ids@[0];
                assert(x & x == x) by (bit_vector);
                assert(x | x == x) by (bit_vector);
            }
        }
        f = f & id;
        m = m | id;
        i = i + 1;
    }
    m = m ^ f;
    if use_ext_can {
        m = m ^ 0x1FFFFFFF;
    } else {
        m = m ^ 0x7FF;
    }
    proof {
        assert(ids@.take(n as int) =~= ids@);
    }
    (m, f)
}

/// Transport-layer support level offered by an adapter.
#[derive(Debug, Clone, Copy, PartialEq, Eq, PartialOrd, Ord)]
pub enum IsoTpChannelType {
    /// Segmented transport is not available at all on the hardware.
    Unsupported,
    /// Segmented transport is emulated in software over a raw CAN channel.
    Emulated,
    /// Segmented transport is supported natively by the hardware.
    Protocol,
}

/// Communication protocols supported by a physical adapter.
#[derive(Debug, Clone, Copy, PartialEq, Eq, PartialOrd, Ord)]
pub struct HardwareCapabilities {
    /// Segmented-transport support level.
    pub iso_tp: IsoTpChannelType,
    /// Raw CAN support.
    pub can: bool,
    /// K-line (ISO 9141) support.
    pub kline: bool,
    /// KWP2000 over K-line (ISO 14230) support.
    pub kline_kwp: bool,
    /// SAE J1850 support.
    pub sae_j1850: bool,
    /// Serial communication interface support.
    pub sci: bool,
    /// Diagnostics-over-IP support.
    pub ip: bool,
}

impl Default for HardwareCapabilities {
    /// No capability is assumed until an adapter reports one.
    fn default() -> (r: Self)
        ensures
            r.iso_tp == IsoTpChannelType::Unsupported,
            !r.can && !r.kline && !r.kline_kwp && !r.sae_j1850 && !r.sci && !r.ip,
    {
        HardwareCapabilities {
            iso_tp: IsoTpChannelType::Unsupported,
            can: false,
            kline: false,
            kline_kwp: false,
            sae_j1850: false,
            sci: false,
            ip: false,
        }
    }
}

/// Description of one adapter device.
#[derive(Debug, Clone)]
pub struct HardwareInfo {
    /// Name of the hardware.
    pub name: String,
    /// Vendor of the hardware, when known.
    pub vendor: Option<String>,
    /// Firmware version running on the adapter, when known.
    pub device_fw_version: Option<String>,
    /// API standard the device conforms to, when known.
    pub api_version: Option<String>,
    /// Driver library version, when known.
    pub library_version: Option<String>,
    /// File location of the driver library, when known.
    pub library_location: Option<String>,
    /// Capabilities the adapter reports.
    pub capabilities: HardwareCapabilities,
}

impl Default for HardwareInfo {
    /// An unnamed device with no reported capabilities.
    fn default() -> (r: Self)
        ensures
            r.name@.len() == 0,
            r.vendor is None,
    {
        HardwareInfo {
            name: String::new(),
            vendor: None,
            device_fw_version: None,
            api_version: None,
            library_version: None,
            library_location: None,
            capabilities: HardwareCapabilities::default(),
        }
    }
}

} // verus!
