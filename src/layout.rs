use vstd::prelude::*;
use crate::address::Address;
use crate::create::RECORD_SPACE;
use crate::derive::{label_bytes, MAX_LABEL_LEN};
use crate::ledger::{RecordView, VestingAccount};

verus! {

/// `n` as four little-endian bytes.
pub open spec fn u32_le(n: nat) -> Seq<u8> {
    seq![
        (n % 256) as u8,
        ((n / 256) % 256) as u8,
        ((n / 65536) % 256) as u8,
        ((n / 16777216) % 256) as u8,
    ]
}

/// The stored form of a vesting record: owner, mint and treasury addresses,
/// the treasury bump and the record bump, then the label as a four-byte
/// little-endian length and its UTF-8 bytes, zero-padded to 32 bytes.
pub open spec fn record_layout(v: RecordView) -> Seq<u8> {
    let name = label_bytes(v.company_name);
    v.owner.bytes@ + v.mint.bytes@ + v.treasury.bytes@ + seq![v.bump_for_treasury, v.bump]
        + u32_le(name.len()) + name + Seq::new((MAX_LABEL_LEN - name.len()) as nat, |i: int| 0u8)
}

fn push_address(out: &mut Vec<u8>, a: &Address)
    ensures
        final(out)@ == old(out)@ + a.bytes@,
{
    let ghost start = out@;
    let mut i: usize = 0;
    while i < 32
        invariant
            i <= 32,
            out@ == start + a.bytes@.take(i as int),
        decreases 32 - i,
    {
        out.push(a.bytes[i]);
        assert(a.bytes@.take(i + 1) =~= a.bytes@.take(i as int).push(a.bytes@[i as int]));
        i = i + 1;
    }
    assert(a.bytes@.take(32) =~= a.bytes@);
}

fn push_slice(out: &mut Vec<u8>, s: &[u8])
    ensures
        final(out)@ == old(out)@ + s@,
{
    let ghost start = out@;
    let mut i: usize = 0;
    while i < s.len()
        invariant
            i <= s@.len(),
            out@ == start + s@.take(i as int),
        decreases s@.len() - i,
    {
        out.push(s[i]);
        assert(s@.take(i + 1) =~= s@.take(i as int).push(s@[i as int]));
        i = i + 1;
    }
    assert(s@.take(s@.len() as int) =~= s@);
}

impl VestingAccount {
    /// The bytes under which the record is stored, exactly `RECORD_SPACE` of
    /// them for every label of at most 32 bytes.
    pub fn to_bytes(&self) -> (r: Vec<u8>)
        requires
            label_bytes(self.company_name@).len() <= MAX_LABEL_LEN,
        ensures
            r@ == record_layout(self@),
            r@.len() == RECORD_SPACE,
    {
        let mut out: Vec<u8> = Vec::new();
        push_address(&mut out, &self.owner);
        push_address(&mut out, &self.mint);
        push_address(&mut out, &self.treasury);
        out.push(self.bump_for_treasury);
        out.push(self.bump);
        let name: &[u8] = self.company_name.as_str().as_bytes();
        let n: usize = name.len();
        out.push(n as u8);
        out.push(0u8);
        out.push(0u8);
        out.push(0u8);
        push_slice(&mut out, name);
        let ghost before_pad = out@;
        let mut k: usize = n;
        while k < MAX_LABEL_LEN
            invariant
                n <= k <= MAX_LABEL_LEN,
                out@ == before_pad + Seq::new((k - n) as nat, |i: int| 0u8),
            decreases MAX_LABEL_LEN - k,
        {
            out.push(0u8);
            assert(Seq::new((k + 1 - n) as nat, |i: int| 0u8) =~= Seq::new((k - n) as nat, |i: int| 0u8).push(0u8));
            k = k + 1;
        }
        assert(u32_le(n as nat) =~= seq![n as u8, 0u8, 0u8, 0u8]);
        assert(out@ =~= record_layout(self@));
        out
    }
}

} // verus!
