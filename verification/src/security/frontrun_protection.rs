use vstd::prelude::*;
use crate::types::Address;

verus! {

/// The SHA-256 digest of a string of bytes.
pub uninterp spec fn sha256(data: Seq<u8>) -> Seq<u8>;

/// The unsigned number whose 128 bits are those of `amount` in two's
/// complement.
pub open spec fn unsigned_of(amount: int) -> int {
    if amount >= 0 {
        amount
    } else {
        amount + 0x1_0000_0000_0000_0000_0000_0000_0000_0000
    }
}

/// The last `count` base-256 digits of `value`, most significant first.
pub open spec fn be_bytes(value: int, count: nat) -> Seq<u8>
    decreases count,
{
    if count == 0 {
        Seq::empty()
    } else {
        be_bytes(value / 256, (count - 1) as nat).push((value % 256) as u8)
    }
}

/// The sixteen bytes of an amount, big end first.
pub open spec fn amount_bytes(amount: i128) -> Seq<u8> {
    be_bytes(unsigned_of(amount as int), 16)
}

/// What a sealed bid of `amount` under `salt` commits to: the digest of the
/// amount's bytes followed by the salt.
pub open spec fn commitment_of(amount: i128, salt: Seq<u8>) -> Seq<u8> {
    sha256(amount_bytes(amount) + salt)
}

/// Calls `soroban_sdk::crypto::Crypto::sha256` on a fresh environment. The
/// contract names the digest and says that the 48 bytes handed in decide it;
/// nothing is proved of the hash function itself.
#[verifier::external_body]
fn sha256_digest(data: &Vec<u8>) -> (digest: [u8; 32])
    requires
        data@.len() == 48,
    ensures
        digest@ == sha256(data@),
{
    let env = soroban_sdk::Env::default();
    let bytes = soroban_sdk::Bytes::from_slice(&env, data.as_slice());
    env.crypto().sha256(&bytes).to_array()
}

/// Appends the last `count` base-256 digits of `value`, most significant first.
fn push_be_bytes(value: u128, count: usize, out: &mut Vec<u8>)
    ensures
        final(out)@ == old(out)@ + be_bytes(value as int, count as nat),
    decreases count,
{
    if count == 0 {
        assert(out@ =~= old(out)@ + be_bytes(value as int, 0));
    } else {
        push_be_bytes(value / 256, count - 1, out);
        out.push((value % 256) as u8);
        assert(out@ =~= old(out)@ + be_bytes(value as int, count as nat));
    }
}

/// The commitment of a sealed bid: the digest of the amount's sixteen
/// big-endian bytes followed by the 32 bytes of salt.
pub fn compute_commitment(_bidder: &Address, bid_amount: i128, salt: &[u8; 32]) -> (r: [u8; 32])
    ensures
        r@ == commitment_of(bid_amount, salt@),
{
    let unsigned: u128 = if bid_amount >= 0 {
        bid_amount as u128
    } else {
        u128::MAX - ((-(bid_amount + 1)) as u128)
    };
    let mut data: Vec<u8> = Vec::new();
    push_be_bytes(unsigned, 16, &mut data);
    let mut i: usize = 0;
    while i < 32
        invariant
            i <= 32,
            data@ == amount_bytes(bid_amount) + salt@.subrange(0, i as int),
        decreases 32 - i,
    {
        data.push(salt[i]);
        assert(data@ =~= amount_bytes(bid_amount) + salt@.subrange(0, i + 1));
        i = i + 1;
    }
    assert(salt@.subrange(0, 32) =~= salt@);
    proof {
        lemma_be_bytes_len(unsigned as int, 16);
    }
    sha256_digest(&data)
}

/// `be_bytes` yields as many bytes as it is asked for.
pub proof fn lemma_be_bytes_len(value: int, count: nat)
    ensures
        be_bytes(value, count).len() == count,
    decreases count,
{
    if count > 0 {
        lemma_be_bytes_len(value / 256, (count - 1) as nat);
    }
}

/// Whether two digests hold the same bytes.
pub fn same_digest(a: &[u8; 32], b: &[u8; 32]) -> (r: bool)
    ensures
        r == (a@ == b@),
{
    let mut i: usize = 0;
    while i < 32
        invariant
            i <= 32,
            forall|j: int| 0 <= j < i ==> a@[j] == b@[j],
        decreases 32 - i,
    {
        if a[i] != b[i] {
            return false;
        }
        i = i + 1;
    }
    assert(a@ =~= b@);
    true
}

} // verus!
