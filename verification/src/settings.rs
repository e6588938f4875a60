//! The settings record: the one persisted configuration object of a deployment.

use crate::address::{program_address, try_find_program_address};
use crate::error::ProcessError;
use crate::wire::{read_key, read_u64, u64_le, u64_le_bytes, write_key, write_u64, zero_key};
use crate::wire::lemma_u64_round_trip;
use vstd::prelude::*;

verus! {

/// The number of bytes that a settings record occupies.
pub const SETTINGS_LEN: usize = 72;

/// The seed under which the settings record's address is derived.
pub open spec fn settings_seed() -> Seq<u8> {
    seq![115u8, 101u8, 116u8, 116u8, 105u8, 110u8, 103u8, 115u8]
}

/// The settings record as a mathematical value.
pub struct Settings {
    /// The rate charged for every whole fee unit of a batch total.
    pub fee: u64,
    /// The key that may change the record; the zero key while unclaimed.
    pub admin: Seq<u8>,
    /// The account that collects fees; the zero key while any is accepted.
    pub bank: Seq<u8>,
}

/// The settings record.
#[derive(Clone, Copy, Debug, PartialEq, Eq)]
pub struct Managment {
    pub fee: u64,
    pub admin: [u8; 32],
    pub bank: [u8; 32],
}

impl View for Managment {
    type V = Settings;

    open spec fn view(&self) -> Settings {
        Settings { fee: self.fee, admin: self.admin@, bank: self.bank@ }
    }
}

/// The record that a freshly created, zero-filled settings account holds.
pub open spec fn unclaimed() -> Settings {
    Settings { fee: 0, admin: zero_key(), bank: zero_key() }
}

/// The record that 72 bytes hold: the fee little-endian, then the
/// administrator's key, then the fee destination's. Any other length holds none.
pub open spec fn settings_from_bytes(s: Seq<u8>) -> Option<Settings> {
    if s.len() == 72 {
        Some(Settings { fee: u64_le(s, 0) as u64, admin: s.subrange(8, 40), bank: s.subrange(40, 72) })
    } else {
        None
    }
}

/// The bytes of a record.
pub open spec fn settings_to_bytes(m: Settings) -> Seq<u8> {
    u64_le_bytes(m.fee) + m.admin + m.bank
}

/// Whether `who` may change a record whose administrator is `admin`: anyone may
/// while it is unclaimed, afterwards only the administrator.
pub open spec fn may_administer(admin: Seq<u8>, who: Seq<u8>) -> bool {
    admin == zero_key() || admin == who
}

/// Whether fees may go to `destination` under a record whose fee destination is
/// `bank`: anywhere while none is set, afterwards only there.
pub open spec fn accepts_bank(bank: Seq<u8>, destination: Seq<u8>) -> bool {
    bank == zero_key() || bank == destination
}

/// A record read back from its own bytes is the record.
pub proof fn lemma_settings_round_trip(m: Settings)
    requires
        m.admin.len() == 32,
        m.bank.len() == 32,
    ensures
        settings_to_bytes(m).len() == 72,
        settings_from_bytes(settings_to_bytes(m)) == Some(m),
{
    lemma_u64_round_trip(m.fee);
    let s = settings_to_bytes(m);
    assert(s.subrange(8, 40) =~= m.admin);
    assert(s.subrange(40, 72) =~= m.bank);
    assert(u64_le(s, 0) == u64_le(u64_le_bytes(m.fee), 0));
}

/// A zero-filled account of the record's size holds the unclaimed record.
pub proof fn lemma_zero_filled_is_unclaimed(s: Seq<u8>)
    requires
        s.len() == 72,
        forall|i: int| 0 <= i < 72 ==> s[i] == 0,
    ensures
        settings_from_bytes(s) == Some(unclaimed()),
{
    assert(s.subrange(8, 40) =~= zero_key());
    assert(s.subrange(40, 72) =~= zero_key());
}

impl Managment {
    /// The address of the settings record of the program `program_id`, with the
    /// discriminant that completes its seed; `None` where no discriminant yields
    /// an address. The same program always has the same address.
    pub fn get_settings_pubkey_with_bump(program_id: &[u8; 32]) -> (r: Option<([u8; 32], u8)>)
        ensures
            match r {
                Some((key, bump)) => program_address(settings_seed(), program_id@) == Some(
                    (key@, bump),
                ),
                None => program_address(settings_seed(), program_id@) is None,
            },
    {
        let seed: [u8; 8] = [115u8, 101u8, 116u8, 116u8, 105u8, 110u8, 103u8, 115u8];
        proof {
            assert(seed@ =~= settings_seed());
        }
        try_find_program_address(seed.as_slice(), program_id)
    }

    /// Reads a record from the bytes of the settings account.
    pub fn try_from_slice(data: &[u8]) -> (r: Result<Managment, ProcessError>)
        ensures
            match r {
                Ok(m) => settings_from_bytes(data@) == Some(m@),
                Err(e) => e == ProcessError::InvalidSettingsData && settings_from_bytes(data@)
                    is None,
            },
    {
        if data.len() != SETTINGS_LEN {
            return Err(ProcessError::InvalidSettingsData);
        }
        let fee: u64 = read_u64(data, 0);
        let admin: [u8; 32] = read_key(data, 8);
        let bank: [u8; 32] = read_key(data, 40);
        Ok(Managment { fee, admin, bank })
    }

    /// The bytes of the record, as the settings account stores them.
    pub fn try_to_vec(&self) -> (out: Vec<u8>)
        ensures
            out@ == settings_to_bytes(self@),
            out@.len() == 72,
    {
        let mut out: Vec<u8> = Vec::new();
        write_u64(&mut out, self.fee);
        write_key(&mut out, &self.admin);
        write_key(&mut out, &self.bank);
        proof {
            assert(out@ =~= settings_to_bytes(self@));
            lemma_settings_round_trip(self@);
        }
        out
    }
}

} // verus!
