use vstd::prelude::*;

verus! {

/// Length in bytes of an account identity.
pub const PUBKEY_BYTES: usize = 32;

/// The byte every position of the administrator identity holds.
pub const ADMIN_KEY_BYTE: u8 = 0xAA;

/// The byte every position of the governance identity holds.
pub const GOVERNANCE_KEY_BYTE: u8 = 0xBB;

/// The byte every position of the bridge administrator identity holds.
pub const BRIDGE_ADMIN_KEY_BYTE: u8 = 0xCC;

/// The identity whose 32 bytes are all `b`.
pub open spec fn uniform_key(b: u8) -> Seq<u8> {
    Seq::new(32, |_i: int| b)
}

/// Whether `k` is one of the identities allowed to burn and to execute proposals.
pub open spec fn is_privileged(k: Seq<u8>) -> bool {
    k == uniform_key(ADMIN_KEY_BYTE) || k == uniform_key(GOVERNANCE_KEY_BYTE)
}

/// The administrator identity.
pub fn admin_pubkey() -> (r: Pubkey)
    ensures
        r@ == uniform_key(ADMIN_KEY_BYTE),
{
    let r = Pubkey { bytes: [ADMIN_KEY_BYTE; 32] };
    assert(r@ =~= uniform_key(ADMIN_KEY_BYTE));
    r
}

/// The governance identity.
pub fn governance_pubkey() -> (r: Pubkey)
    ensures
        r@ == uniform_key(GOVERNANCE_KEY_BYTE),
{
    let r = Pubkey { bytes: [GOVERNANCE_KEY_BYTE; 32] };
    assert(r@ =~= uniform_key(GOVERNANCE_KEY_BYTE));
    r
}

/// The bridge administrator identity.
pub fn bridge_admin_pubkey() -> (r: Pubkey)
    ensures
        r@ == uniform_key(BRIDGE_ADMIN_KEY_BYTE),
{
    let r = Pubkey { bytes: [BRIDGE_ADMIN_KEY_BYTE; 32] };
    assert(r@ =~= uniform_key(BRIDGE_ADMIN_KEY_BYTE));
    r
}

/// Whether `k` is the administrator or the governance identity.
pub fn is_privileged_key(k: &Pubkey) -> (r: bool)
    ensures
        r == is_privileged(k@),
{
    k.same_as(&admin_pubkey()) || k.same_as(&governance_pubkey())
}

/// A 32-byte account identity.
#[derive(Clone, Copy, Debug, PartialEq, Eq)]
pub struct Pubkey {
    pub bytes: [u8; 32],
}

impl View for Pubkey {
    type V = Seq<u8>;

    open spec fn view(&self) -> Seq<u8> {
        self.bytes@
    }
}

impl Pubkey {
    /// The identity whose bytes are `bytes`.
    pub fn new_from_array(bytes: [u8; 32]) -> (r: Pubkey)
        ensures
            r.bytes == bytes,
    {
        Pubkey { bytes }
    }

    /// The identity's bytes.
    pub fn to_bytes(&self) -> (r: [u8; 32])
        ensures
            r == self.bytes,
    {
        self.bytes
    }

    /// Whether the two identities have the same bytes.
    pub fn same_as(&self, other: &Pubkey) -> (r: bool)
        ensures
            r == (self@ == other@),
    {
        let mut i: usize = 0;
        while i < PUBKEY_BYTES
            invariant
                0 <= i <= 32,
                self@.len() == 32,
                other@.len() == 32,
                forall|k: int| 0 <= k < i ==> self@[k] == other@[k],
            decreases 32 - i,
        {
            if self.bytes[i] != other.bytes[i] {
                return false;
            }
            i = i + 1;
        }
        assert(self@ =~= other@);
        true
    }
}

} // verus!
