//! Maps text keys of any length onto the engine's 64-bit key space.
use vstd::prelude::*;

verus! {

/// SipHash-2-4 under the all-zero key, of a byte string.
pub uninterp spec fn siphash(msg: Seq<u8>) -> u64;

/// Relies on siphasher's `sip::SipHasher`: `new` keys SipHash-2-4 with zeros,
/// `write` feeds the bytes, `finish` returns the 64-bit digest.
#[verifier::external_body]
fn sip_digest(msg: &[u8]) -> (r: u64)
    ensures
        r == siphash(msg@),
{
    let mut hasher = siphasher::sip::SipHasher::new();
    core::hash::Hasher::write(&mut hasher, msg);
    core::hash::Hasher::finish(&hasher)
}

/// A length as four little-endian bytes.
pub open spec fn length_prefix(n: nat) -> Seq<u8> {
    seq![
        (n % 256) as u8,
        (n / 256 % 256) as u8,
        (n / 65536 % 256) as u8,
        (n / 16777216 % 256) as u8,
    ]
}

/// What is hashed for a key: its length as four little-endian bytes, then
/// its bytes. This is how `Hash` feeds a byte slice to a hasher on the
/// board's 32-bit little-endian processor, here fixed for every machine.
pub open spec fn key_message(key: Seq<u8>) -> Seq<u8> {
    length_prefix(key.len()) + key
}

/// The engine key of a text key.
pub open spec fn key_hash(key: Seq<u8>) -> u64 {
    siphash(key_message(key))
}

/// The identifier under which the engine keeps its own record: "tickv-super-key".
pub open spec fn main_key_bytes() -> Seq<u8> {
    seq![116, 105, 99, 107, 118, 45, 115, 117, 112, 101, 114, 45, 107, 101, 121]
}

/// Relies on `tickv::MAIN_KEY`, the identifier whose hash seeds the engine's
/// own record: the bytes `b"tickv-super-key"`.
#[verifier::external_body]
fn engine_main_key() -> (r: &'static [u8])
    ensures
        r@ == main_key_bytes(),
{
    tickv::MAIN_KEY
}

/// The engine key of `unhashed_key`.
pub fn get_hashed_key(unhashed_key: &[u8]) -> (r: u64)
    requires
        unhashed_key@.len() <= u32::MAX,
    ensures
        r == key_hash(unhashed_key@),
{
    let n: usize = unhashed_key.len();
    let len: u32 = n as u32;
    let mut msg: Vec<u8> = Vec::new();
    msg.push((len % 256) as u8);
    msg.push((len / 256 % 256) as u8);
    msg.push((len / 65536 % 256) as u8);
    msg.push((len / 16777216 % 256) as u8);
    assert(msg@ =~= length_prefix(n as nat));
    let mut i: usize = 0;
    while i < n
        invariant
            n == unhashed_key@.len(),
            i <= n,
            msg@ == length_prefix(n as nat) + unhashed_key@.subrange(0, i as int),
        decreases n - i,
    {
        msg.push(unhashed_key[i]);
        i += 1;
        assert(msg@ =~= length_prefix(n as nat) + unhashed_key@.subrange(0, i as int));
    }
    assert(unhashed_key@.subrange(0, n as int) =~= unhashed_key@);
    sip_digest(msg.as_slice())
}

/// The engine key that seeds the engine's own record at start-up.
pub fn main_key_hash() -> (r: u64)
    ensures
        r == key_hash(main_key_bytes()),
{
    get_hashed_key(engine_main_key())
}

} // verus!
