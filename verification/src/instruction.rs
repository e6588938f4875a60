//! The request body: a one-byte tag, then the fields of the request it names.

use crate::error::ProcessError;
use crate::wire::{
    lemma_u32_round_trip, lemma_u64_round_trip, read_u32, read_u64, u32_le, u32_le_bytes, u64_le,
    u64_le_bytes, write_u32, write_u64,
};
use vstd::prelude::*;

verus! {

/// A request as a mathematical value.
pub enum Request {
    SendLamports { amounts: Seq<u64> },
    SendTokens { amounts: Seq<u64> },
    UpdateSettings { fee: u64 },
}

/// A request: a batch of native-balance transfers, a batch of token transfers,
/// or a change of the settings record.
#[derive(Clone, Debug, PartialEq, Eq)]
pub enum MultisendInstruction {
    SendLamports { amounts: Vec<u64> },
    SendTokens { amounts: Vec<u64> },
    UpdateSettings { fee: u64 },
}

impl View for MultisendInstruction {
    type V = Request;

    open spec fn view(&self) -> Request {
        match self {
            MultisendInstruction::SendLamports { amounts } => Request::SendLamports {
                amounts: amounts@,
            },
            MultisendInstruction::SendTokens { amounts } => Request::SendTokens {
                amounts: amounts@,
            },
            MultisendInstruction::UpdateSettings { fee } => Request::UpdateSettings { fee: *fee },
        }
    }
}

/// The batch of amounts that fills `s` from byte `at` to its end: a 32-bit
/// count, then that many 64-bit amounts, all little-endian, and nothing after
/// them. Bytes of any other length hold no batch.
pub open spec fn amounts_from_bytes(s: Seq<u8>, at: int) -> Option<Seq<u64>> {
    if s.len() < at + 4 {
        None
    } else if s.len() != at + 4 + 8 * u32_le(s, at) {
        None
    } else {
        Some(Seq::new(u32_le(s, at) as nat, |i: int| u64_le(s, at + 4 + 8 * i) as u64))
    }
}

/// The request that a body holds. Tag 0 is a native batch, tag 1 a token batch,
/// tag 2 a settings change with its 64-bit fee; a body with another tag, with
/// too few bytes or with bytes left over holds none.
pub open spec fn request_from_bytes(s: Seq<u8>) -> Option<Request> {
    if s.len() < 1 {
        None
    } else if s[0] == 0 {
        match amounts_from_bytes(s, 1) {
            Some(amounts) => Some(Request::SendLamports { amounts }),
            None => None,
        }
    } else if s[0] == 1 {
        match amounts_from_bytes(s, 1) {
            Some(amounts) => Some(Request::SendTokens { amounts }),
            None => None,
        }
    } else if s[0] == 2 && s.len() == 9 {
        Some(Request::UpdateSettings { fee: u64_le(s, 1) as u64 })
    } else {
        None
    }
}

/// The bytes of the amounts of a batch, eight for each, in order.
pub open spec fn amounts_bytes(amounts: Seq<u64>) -> Seq<u8> {
    Seq::new(8 * amounts.len(), |j: int| u64_le_bytes(amounts[j / 8])[j % 8])
}

/// The body of a request: its tag, then for a batch the count of its amounts and
/// the amounts, for a settings change the fee.
pub open spec fn request_to_bytes(r: Request) -> Seq<u8> {
    match r {
        Request::SendLamports { amounts } => seq![0u8] + u32_le_bytes(amounts.len() as u32)
            + amounts_bytes(amounts),
        Request::SendTokens { amounts } => seq![1u8] + u32_le_bytes(amounts.len() as u32)
            + amounts_bytes(amounts),
        Request::UpdateSettings { fee } => seq![2u8] + u64_le_bytes(fee),
    }
}

/// Whether a request has a body: a batch must not hold more amounts than a
/// 32-bit count can tell.
pub open spec fn encodable(r: Request) -> bool {
    match r {
        Request::SendLamports { amounts } => amounts.len() <= u32::MAX,
        Request::SendTokens { amounts } => amounts.len() <= u32::MAX,
        Request::UpdateSettings { fee } => true,
    }
}

/// A batch read back from a body that holds its count and its amounts after a
/// tag is the batch.
pub proof fn lemma_amounts_round_trip(tag: u8, amounts: Seq<u64>)
    requires
        amounts.len() <= u32::MAX,
    ensures
        amounts_from_bytes(
            seq![tag] + u32_le_bytes(amounts.len() as u32) + amounts_bytes(amounts),
            1,
        ) == Some(amounts),
{
    let n = amounts.len() as u32;
    let s = seq![tag] + u32_le_bytes(n) + amounts_bytes(amounts);
    lemma_u32_round_trip(n);
    assert(u32_le(s, 1) == u32_le(u32_le_bytes(n), 0));
    assert(s.len() == 5 + 8 * amounts.len());
    let back = Seq::new(u32_le(s, 1) as nat, |i: int| u64_le(s, 1 + 4 + 8 * i) as u64);
    assert forall|i: int| 0 <= i < amounts.len() implies back[i] == amounts[i] by {
        lemma_u64_round_trip(amounts[i]);
        let b = u64_le_bytes(amounts[i]);
        assert forall|k: int| 0 <= k < 8 implies s[5 + 8 * i + k] == b[k] by {
            assert(s[5 + 8 * i + k] == amounts_bytes(amounts)[8 * i + k]);
            assert((8 * i + k) / 8 == i && (8 * i + k) % 8 == k);
        }
        assert(u64_le(s, 5 + 8 * i) == u64_le(b, 0));
    }
    assert(back =~= amounts);
}

/// A request read back from its own body is the request.
pub proof fn lemma_request_round_trip(r: Request)
    requires
        encodable(r),
    ensures
        request_from_bytes(request_to_bytes(r)) == Some(r),
{
    match r {
        Request::SendLamports { amounts } => {
            lemma_amounts_round_trip(0, amounts);
        },
        Request::SendTokens { amounts } => {
            lemma_amounts_round_trip(1, amounts);
        },
        Request::UpdateSettings { fee } => {
            lemma_u64_round_trip(fee);
            let s = request_to_bytes(r);
            assert(u64_le(s, 1) == u64_le(u64_le_bytes(fee), 0));
        },
    }
}

/// Appends the count of a batch and its amounts; `false`, with nothing
/// appended, where the batch holds more amounts than a 32-bit count can tell.
pub fn write_amounts(out: &mut Vec<u8>, amounts: &[u64]) -> (done: bool)
    ensures
        done == (amounts@.len() <= u32::MAX),
        done ==> final(out)@ == old(out)@ + u32_le_bytes(amounts@.len() as u32) + amounts_bytes(
            amounts@,
        ),
        !done ==> final(out)@ == old(out)@,
{
    if amounts.len() > 0xffff_ffff {
        return false;
    }
    let ghost start = out@;
    write_u32(out, amounts.len() as u32);
    let ghost head = out@;
    let mut i: usize = 0;
    while i < amounts.len()
        invariant
            0 <= i <= amounts.len(),
            head == start + u32_le_bytes(amounts@.len() as u32),
            out@ == head + amounts_bytes(amounts@.take(i as int)),
        decreases amounts.len() - i,
    {
        write_u64(out, amounts[i]);
        i += 1;
        proof {
            lemma_u64_round_trip(amounts@[i - 1]);
            assert(out@ =~= head + amounts_bytes(amounts@.take(i as int)));
        }
    }
    proof {
        assert(amounts@.take(i as int) =~= amounts@);
    }
    true
}

/// Reads the batch that `amounts_from_bytes` names.
pub fn read_amounts(data: &[u8], at: usize) -> (r: Option<Vec<u64>>)
    requires
        at <= data.len(),
    ensures
        match r {
            Some(v) => amounts_from_bytes(data@, at as int) == Some(v@),
            None => amounts_from_bytes(data@, at as int) is None,
        },
{
    if data.len() - at < 4 {
        return None;
    }
    let count: u32 = read_u32(data, at);
    let rest: usize = data.len() - at - 4;
    if rest % 8 != 0 || rest / 8 != count as usize {
        return None;
    }
    let n: usize = rest / 8;
    let mut out: Vec<u64> = Vec::new();
    let mut i: usize = 0;
    while i < n
        invariant
            0 <= i <= n,
            data.len() == at + 4 + 8 * n,
            out@.len() == i,
            forall|j: int| 0 <= j < i ==> out@[j] == u64_le(data@, at + 4 + 8 * j) as u64,
        decreases n - i,
    {
        let x: u64 = read_u64(data, at + 4 + 8 * i);
        out.push(x);
        i += 1;
    }
    proof {
        assert(out@ =~= Seq::new(
            u32_le(data@, at as int) as nat,
            |i: int| u64_le(data@, at + 4 + 8 * i) as u64,
        ));
    }
    Some(out)
}

impl MultisendInstruction {
    /// The body of the request, or `None` where it has none.
    pub fn try_to_vec(&self) -> (r: Option<Vec<u8>>)
        ensures
            match r {
                Some(body) => encodable(self@) && body@ == request_to_bytes(self@),
                None => !encodable(self@),
            },
    {
        let mut out: Vec<u8> = Vec::new();
        match self {
            MultisendInstruction::SendLamports { amounts } => {
                out.push(0);
                if !write_amounts(&mut out, amounts.as_slice()) {
                    return None;
                }
            },
            MultisendInstruction::SendTokens { amounts } => {
                out.push(1);
                if !write_amounts(&mut out, amounts.as_slice()) {
                    return None;
                }
            },
            MultisendInstruction::UpdateSettings { fee } => {
                out.push(2);
                write_u64(&mut out, *fee);
            },
        }
        proof {
            assert(out@ =~= request_to_bytes(self@));
        }
        Some(out)
    }

    /// Reads a request from a request body.
    pub fn try_from_slice(data: &[u8]) -> (r: Result<MultisendInstruction, ProcessError>)
        ensures
            match r {
                Ok(m) => request_from_bytes(data@) == Some(m@),
                Err(e) => e == ProcessError::InvalidInstructionData && request_from_bytes(data@)
                    is None,
            },
    {
        if data.len() < 1 {
            return Err(ProcessError::InvalidInstructionData);
        }
        let tag: u8 = data[0];
        if tag == 0 {
            match read_amounts(data, 1) {
                Some(amounts) => Ok(MultisendInstruction::SendLamports { amounts }),
                None => Err(ProcessError::InvalidInstructionData),
            }
        } else if tag == 1 {
            match read_amounts(data, 1) {
                Some(amounts) => Ok(MultisendInstruction::SendTokens { amounts }),
                None => Err(ProcessError::InvalidInstructionData),
            }
        } else if tag == 2 && data.len() == 9 {
            let fee: u64 = read_u64(data, 1);
            Ok(MultisendInstruction::UpdateSettings { fee })
        } else {
            Err(ProcessError::InvalidInstructionData)
        }
    }
}

} // verus!
