//! Reading and writing the 16-bit transaction ID that opens every DNS message.

use vstd::prelude::*;

verus! {

/// The transaction ID held big-endian in the first two bytes of `m`.
pub open spec fn txid_of(m: Seq<u8>) -> int
    recommends
        m.len() >= 2,
{
    m[0] as int * 256 + m[1] as int
}

/// `m` with its first two bytes replaced by the big-endian encoding of `id`.
pub open spec fn with_txid(m: Seq<u8>, id: u16) -> Seq<u8>
    recommends
        m.len() >= 2,
{
    m.update(0, (id / 256) as u8).update(1, (id % 256) as u8)
}

/// Extracts the transaction ID from a message encoded in DNS wire format.
pub fn txid_from_binary_message(message: &[u8]) -> (r: u16)
    requires
        message@.len() >= 2,
    ensures
        r as int == txid_of(message@),
{
    let hi = message[0] as u16;
    let lo = message[1] as u16;
    hi * 256 + lo
}

/// Overwrites the transaction ID of `message` in place with `id`.
pub fn write_txid(message: &mut Vec<u8>, id: u16)
    requires
        old(message)@.len() >= 2,
    ensures
        final(message)@ == with_txid(old(message)@, id),
{
    message.set(0, (id / 256) as u8);
    message.set(1, (id % 256) as u8);
}

/// Writing an ID and reading it back gives that ID; the length and every byte
/// after the ID are kept.
pub proof fn lemma_txid_round_trip(m: Seq<u8>, id: u16)
    requires
        m.len() >= 2,
    ensures
        txid_of(with_txid(m, id)) == id as int,
        with_txid(m, id).len() == m.len(),
        forall|i: int| 2 <= i < m.len() ==> #[trigger] with_txid(m, id)[i] == m[i],
{
}

/// Writing an ID twice leaves only the second one: whatever ID a message
/// carried on the way through, the last rewrite decides what is seen.
pub proof fn lemma_txid_overwrite(m: Seq<u8>, first: u16, second: u16)
    requires
        m.len() >= 2,
    ensures
        with_txid(with_txid(m, first), second) == with_txid(m, second),
{
    assert(with_txid(with_txid(m, first), second) =~= with_txid(m, second));
}

} // verus!
