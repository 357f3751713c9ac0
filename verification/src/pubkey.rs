//! Account addresses and the well-known native program ids.

use vstd::prelude::*;

verus! {

/// A 32-byte account address, exactly as the runtime represents every
/// account key. Contracts speak about a key through its byte view.
#[derive(Clone, Copy, Debug)]
pub struct Pubkey {
    pub bytes: [u8; 32],
}

impl View for Pubkey {
    type V = Seq<u8>;

    open spec fn view(&self) -> Seq<u8> {
        self.bytes@
    }
}

impl Pubkey {
    /// Wrap raw bytes as an address.
    pub fn new(bytes: [u8; 32]) -> (r: Pubkey)
        ensures
            r@ == bytes@,
    {
        Pubkey { bytes }
    }

    /// The raw 32 bytes of the address.
    pub fn to_bytes(&self) -> (r: [u8; 32])
        ensures
            r@ == self@,
    {
        self.bytes
    }

    /// The 32 bytes of the address, as a byte vector.
    pub fn to_vec(&self) -> (r: Vec<u8>)
        ensures
            r@ == self@,
    {
        vstd::slice::slice_to_vec(self.bytes.as_slice())
    }

    /// Append the 32 bytes of this address to a byte vector.
    pub fn append_to(&self, out: &mut Vec<u8>)
        ensures
            final(out)@ == old(out)@ + self@,
    {
        let mut i: usize = 0;
        while i < 32
            invariant
                0 <= i <= 32,
                out@ == old(out)@ + self@.take(i as int),
            decreases 32 - i,
        {
            out.push(self.bytes[i]);
            proof {
                assert(out@ == old(out)@ + self@.take(i + 1));
            }
            i = i + 1;
        }
        proof {
            assert(self@.take(32) == self@);
        }
    }
}

impl PartialEq for Pubkey {
    fn eq(&self, other: &Pubkey) -> (r: bool) {
        let mut i: usize = 0;
        while i < 32
            invariant
                0 <= i <= 32,
                forall|j: int| 0 <= j < i ==> self.bytes@[j] == other.bytes@[j],
            decreases 32 - i,
        {
            if self.bytes[i] != other.bytes[i] {
                return false;
            }
            i = i + 1;
        }
        proof {
            assert(self.bytes@ =~= other.bytes@);
        }
        true
    }
}

impl vstd::std_specs::cmp::PartialEqSpecImpl for Pubkey {
    open spec fn obeys_eq_spec() -> bool {
        true
    }

    open spec fn eq_spec(&self, other: &Pubkey) -> bool {
        self@ == other@
    }
}

impl Default for Pubkey {
    /// The all-zero address; an authority record whose `authority` field
    /// still holds it has never been initialized.
    fn default() -> (r: Pubkey)
        ensures
            r@ == zero_pubkey_bytes(),
    {
        let r = Pubkey { bytes: [0u8; 32] };
        proof {
            assert(r@ =~= zero_pubkey_bytes());
        }
        r
    }
}

/// The 32 zero bytes: both the default address and the system program id.
pub open spec fn zero_pubkey_bytes() -> Seq<u8> {
    Seq::new(32, |i: int| 0u8)
}

/// The system program id (the all-zero address,
/// base58 `11111111111111111111111111111111`).
pub fn system_program_id() -> (r: Pubkey)
    ensures
        r@ == zero_pubkey_bytes(),
{
    let r = Pubkey { bytes: [0u8; 32] };
    proof {
        assert(r@ =~= zero_pubkey_bytes());
    }
    r
}

/// Bytes of the clock sysvar id,
/// base58 `SysvarC1ock11111111111111111111111111111111`.
pub open spec fn clock_sysvar_id_bytes() -> Seq<u8> {
    seq![
        6u8, 167, 213, 23, 24, 199, 116, 201, 40, 86, 99, 152, 105, 29, 94, 182, 139, 94, 184,
        163, 155, 75, 109, 92, 115, 85, 91, 33, 0, 0, 0, 0,
    ]
}

/// The clock sysvar id.
pub fn clock_sysvar_id() -> (r: Pubkey)
    ensures
        r@ == clock_sysvar_id_bytes(),
{
    let r = Pubkey {
        bytes: [
            6, 167, 213, 23, 24, 199, 116, 201, 40, 86, 99, 152, 105, 29, 94, 182, 139, 94, 184,
            163, 155, 75, 109, 92, 115, 85, 91, 33, 0, 0, 0, 0,
        ],
    };
    proof {
        assert(r@ =~= clock_sysvar_id_bytes());
    }
    r
}

/// Bytes of the stake history sysvar id,
/// base58 `SysvarStakeHistory1111111111111111111111111`.
pub open spec fn stake_history_sysvar_id_bytes() -> Seq<u8> {
    seq![
        6u8, 167, 213, 23, 25, 53, 132, 208, 254, 237, 155, 179, 67, 29, 19, 32, 107, 229, 68, 40,
        27, 87, 184, 86, 108, 197, 55, 95, 244, 0, 0, 0,
    ]
}

/// The stake history sysvar id.
pub fn stake_history_sysvar_id() -> (r: Pubkey)
    ensures
        r@ == stake_history_sysvar_id_bytes(),
{
    let r = Pubkey {
        bytes: [
            6, 167, 213, 23, 25, 53, 132, 208, 254, 237, 155, 179, 67, 29, 19, 32, 107, 229, 68,
            40, 27, 87, 184, 86, 108, 197, 55, 95, 244, 0, 0, 0,
        ],
    };
    proof {
        assert(r@ =~= stake_history_sysvar_id_bytes());
    }
    r
}

/// Bytes of the stake program id,
/// base58 `Stake11111111111111111111111111111111111111`.
pub open spec fn stake_program_id_bytes() -> Seq<u8> {
    seq![
        6u8, 161, 216, 23, 145, 55, 84, 42, 152, 52, 55, 189, 254, 42, 122, 178, 85, 127, 83, 92,
        138, 120, 114, 43, 104, 164, 157, 192, 0, 0, 0, 0,
    ]
}

/// The stake program id.
pub fn stake_program_id() -> (r: Pubkey)
    ensures
        r@ == stake_program_id_bytes(),
{
    let r = Pubkey {
        bytes: [
            6, 161, 216, 23, 145, 55, 84, 42, 152, 52, 55, 189, 254, 42, 122, 178, 85, 127, 83,
            92, 138, 120, 114, 43, 104, 164, 157, 192, 0, 0, 0, 0,
        ],
    };
    proof {
        assert(r@ =~= stake_program_id_bytes());
    }
    r
}

/// Bytes of the associated token account program id,
/// base58 `ATokenGPvbdGVxr1b2hvZbsiqW5xWH25efTNsLJA8knL`.
pub open spec fn associated_token_program_id_bytes() -> Seq<u8> {
    seq![
        140u8, 151, 37, 143, 78, 36, 137, 241, 187, 61, 16, 41, 20, 142, 13, 131, 11, 90, 19, 153,
        218, 255, 16, 132, 4, 142, 123, 216, 219, 233, 248, 89,
    ]
}

/// The associated token account program id.
pub fn associated_token_program_id() -> (r: Pubkey)
    ensures
        r@ == associated_token_program_id_bytes(),
{
    let r = Pubkey {
        bytes: [
            140, 151, 37, 143, 78, 36, 137, 241, 187, 61, 16, 41, 20, 142, 13, 131, 11, 90, 19,
            153, 218, 255, 16, 132, 4, 142, 123, 216, 219, 233, 248, 89,
        ],
    };
    proof {
        assert(r@ =~= associated_token_program_id_bytes());
    }
    r
}

/// Bytes of the SPL token program id,
/// base58 `TokenkegQfeZyiNwAJbNbGKPFXCWuBvf9Ss623VQ5DA`.
pub open spec fn spl_token_program_id_bytes() -> Seq<u8> {
    seq![
        6u8, 221, 246, 225, 215, 101, 161, 147, 217, 203, 225, 70, 206, 235, 121, 172, 28, 180,
        133, 237, 95, 91, 55, 145, 58, 140, 245, 133, 126, 255, 0, 169,
    ]
}

/// Bytes of the SPL token-2022 program id,
/// base58 `TokenzQdBNbLqP5VEhdkAS6EPFLC1PHnBqCXEpPxuEb`.
pub open spec fn token_2022_program_id_bytes() -> Seq<u8> {
    seq![
        6u8, 221, 246, 225, 238, 117, 143, 222, 24, 66, 93, 188, 228, 108, 205, 218, 182, 26, 252,
        77, 131, 185, 13, 39, 254, 189, 249, 40, 216, 161, 139, 252,
    ]
}

/// The SPL token program id.
pub fn spl_token_program_id() -> (r: Pubkey)
    ensures
        r@ == spl_token_program_id_bytes(),
{
    let r = Pubkey {
        bytes: [
            6, 221, 246, 225, 215, 101, 161, 147, 217, 203, 225, 70, 206, 235, 121, 172, 28, 180,
            133, 237, 95, 91, 55, 145, 58, 140, 245, 133, 126, 255, 0, 169,
        ],
    };
    proof {
        assert(r@ =~= spl_token_program_id_bytes());
    }
    r
}

} // verus!
