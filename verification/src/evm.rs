//! EVM addresses and the system-contract classifier.
//!
//! An `EvmAddress` is a fixed 20-byte value. Addresses whose first nine
//! bytes are all zero form the reserved system-contract space; inside it
//! lie two disjoint bands, one for protocol precompiles and one for
//! predeployed system contracts.

use vstd::prelude::*;

verus! {

/// Number of bytes in an EVM address.
pub const EVM_ADDRESS_LEN: usize = 20;

/// Number of leading zero bytes that mark a system-contract address.
pub const SYSTEM_CONTRACT_PREFIX_LEN: usize = 9;

/// A 160-bit EVM address, viewed as its byte sequence.
#[derive(Debug)]
pub struct EvmAddress {
    bytes: Vec<u8>,
}

impl View for EvmAddress {
    type V = Seq<u8>;

    closed spec fn view(&self) -> Seq<u8> {
        self.bytes@
    }
}

impl EvmAddress {
    /// A well-formed address holds exactly twenty bytes.
    pub open spec fn wf(&self) -> bool {
        self@.len() == EVM_ADDRESS_LEN
    }

    /// Builds an address from its bytes; fails on any other length.
    pub fn new(bytes: Vec<u8>) -> (r: Option<EvmAddress>)
        ensures
            bytes@.len() == EVM_ADDRESS_LEN ==> (r matches Some(a) && a@ == bytes@ && a.wf()),
            bytes@.len() != EVM_ADDRESS_LEN ==> r is None,
    {
        if bytes.len() == EVM_ADDRESS_LEN {
            Some(EvmAddress { bytes })
        } else {
            None
        }
    }

    /// Builds an address from bytes already known to have the right length.
    pub(crate) fn from_exact(bytes: Vec<u8>) -> (r: EvmAddress)
        requires
            bytes@.len() == EVM_ADDRESS_LEN,
        ensures
            r@ == bytes@,
            r.wf(),
    {
        EvmAddress { bytes }
    }

    /// Reads one byte of the address.
    pub fn byte(&self, i: usize) -> (r: u8)
        requires
            self.wf(),
            i < EVM_ADDRESS_LEN,
        ensures
            r == self@[i as int],
    {
        self.bytes[i]
    }

    /// The address as its underlying byte vector.
    pub fn as_bytes(&self) -> (r: &Vec<u8>)
        ensures
            r@ == self@,
    {
        &self.bytes
    }
}

impl Clone for EvmAddress {
    fn clone(&self) -> (r: Self)
        ensures
            r@ == self@,
    {
        EvmAddress { bytes: copy_bytes(&self.bytes) }
    }
}

impl PartialEq for EvmAddress {
    fn eq(&self, other: &Self) -> (r: bool) {
        bytes_equal(&self.bytes, &other.bytes)
    }
}

impl vstd::std_specs::cmp::PartialEqSpecImpl for EvmAddress {
    open spec fn obeys_eq_spec() -> bool {
        true
    }

    open spec fn eq_spec(&self, other: &Self) -> bool {
        self@ == other@
    }
}

/// Byte-for-byte copy of a vector.
pub(crate) fn copy_bytes(v: &Vec<u8>) -> (r: Vec<u8>)
    ensures
        r@ == v@,
{
    let mut out: Vec<u8> = Vec::new();
    let mut i: usize = 0;
    while i < v.len()
        invariant
            i <= v@.len(),
            out@ == v@.take(i as int),
        decreases v@.len() - i,
    {
        out.push(v[i]);
        proof {
            assert(out@ =~= v@.take(i + 1));
        }
        i += 1;
    }
    proof {
        assert(out@ =~= v@);
    }
    out
}

/// Byte-for-byte comparison of two vectors.
pub(crate) fn bytes_equal(a: &Vec<u8>, b: &Vec<u8>) -> (r: bool)
    ensures
        r == (a@ == b@),
{
    if a.len() != b.len() {
        proof {
            assert(a@ != b@);
        }
        return false;
    }
    let mut i: usize = 0;
    while i < a.len()
        invariant
            i <= a@.len(),
            a@.len() == b@.len(),
            forall|j: int| 0 <= j < i ==> a@[j] == b@[j],
        decreases a@.len() - i,
    {
        if a[i] != b[i] {
            proof {
                assert(a@[i as int] != b@[i as int]);
            }
            return false;
        }
        i += 1;
    }
    proof {
        assert(a@ =~= b@);
    }
    true
}

/// True of the byte sequences whose first nine bytes are all zero.
pub open spec fn system_prefix_zero(a: Seq<u8>) -> bool {
    forall|i: int| 0 <= i < SYSTEM_CONTRACT_PREFIX_LEN ==> a[i] == 0
}

/// Checks whether the given address is a system contract: true exactly
/// when its first nine bytes are all zero.
pub fn is_system_contract(address: &EvmAddress) -> (r: bool)
    requires
        address.wf(),
    ensures
        r == system_prefix_zero(address@),
{
    let mut i: usize = 0;
    while i < SYSTEM_CONTRACT_PREFIX_LEN
        invariant
            address.wf(),
            i <= SYSTEM_CONTRACT_PREFIX_LEN,
            forall|j: int| 0 <= j < i ==> address@[j] == 0,
        decreases SYSTEM_CONTRACT_PREFIX_LEN - i,
    {
        if address.byte(i) != 0 {
            proof {
                assert(address@[i as int] != 0);
            }
            return false;
        }
        i += 1;
    }
    true
}

/// The byte layout of the first protocol-precompile address: nineteen
/// zero bytes around the big-endian value 0x0400 in the last two.
pub open spec fn precompile_start_spec() -> Seq<u8> {
    Seq::new(EVM_ADDRESS_LEN as nat, |i: int| if i == 18 { 4u8 } else { 0u8 })
}

/// The byte layout of the first predeployed-system-contract address:
/// the big-endian value 0x0800 in the last two bytes.
pub open spec fn predeploy_start_spec() -> Seq<u8> {
    Seq::new(EVM_ADDRESS_LEN as nat, |i: int| if i == 18 { 8u8 } else { 0u8 })
}

/// First address of the protocol-precompile band; the band ends where
/// the predeployed band begins.
pub fn precompile_address_start() -> (r: EvmAddress)
    ensures
        r.wf(),
        r@ == precompile_start_spec(),
{
    let mut bytes: Vec<u8> = Vec::new();
    push_zeros(&mut bytes, 18);
    bytes.push(4u8);
    bytes.push(0u8);
    proof {
        assert(bytes@ =~= precompile_start_spec());
    }
    EvmAddress::from_exact(bytes)
}

/// First address of the predeployed-system-contract band.
pub fn predeploy_address_start() -> (r: EvmAddress)
    ensures
        r.wf(),
        r@ == predeploy_start_spec(),
{
    let mut bytes: Vec<u8> = Vec::new();
    push_zeros(&mut bytes, 18);
    bytes.push(8u8);
    bytes.push(0u8);
    proof {
        assert(bytes@ =~= predeploy_start_spec());
    }
    EvmAddress::from_exact(bytes)
}

/// Appends `n` zero bytes.
pub(crate) fn push_zeros(v: &mut Vec<u8>, n: usize)
    requires
        old(v)@.len() + n <= usize::MAX,
    ensures
        final(v)@ == old(v)@ + Seq::new(n as nat, |i: int| 0u8),
{
    let mut i: usize = 0;
    while i < n
        invariant
            i <= n,
            v@ == old(v)@ + Seq::new(i as nat, |j: int| 0u8),
        decreases n - i,
    {
        v.push(0u8);
        proof {
            assert(v@ =~= old(v)@ + Seq::new((i + 1) as nat, |j: int| 0u8));
        }
        i += 1;
    }
    proof {
        assert(v@ =~= old(v)@ + Seq::new(n as nat, |j: int| 0u8));
    }
}

} // verus!
