//! Content fingerprints for library files: xxHash64 with seed 0, written as
//! 16 lower-case hexadecimal digits.

use vstd::prelude::*;

use xxhash_rust::xxh64::Xxh64;

verus! {

#[verifier::external_type_specification]
#[verifier::external_body]
pub struct ExXxh64(Xxh64);

/// The bytes fed to a hasher since it was made.
pub uninterp spec fn hashed_bytes(h: Xxh64) -> Seq<u8>;

/// The seed a hasher was made with.
pub uninterp spec fn hasher_seed(h: Xxh64) -> u64;

/// The xxHash64 digest of `data` with `seed` (`xxhash_rust::xxh64::xxh64`).
pub uninterp spec fn xxh64_of(data: Seq<u8>, seed: u64) -> u64;

/// `Xxh64::new`: a hasher with `seed` that has been fed nothing.
#[verifier::external_body]
fn xxh64_new(seed: u64) -> (r: Xxh64)
    ensures
        hashed_bytes(r) == Seq::<u8>::empty(),
        hasher_seed(r) == seed,
{
    Xxh64::new(seed)
}

/// `Xxh64::update`: `data` is appended to what the hasher has been fed.
#[verifier::external_body]
fn xxh64_update(h: &mut Xxh64, data: &[u8])
    ensures
        hashed_bytes(*final(h)) == hashed_bytes(*old(h)) + data@,
        hasher_seed(*final(h)) == hasher_seed(*old(h)),
{
    h.update(data)
}

/// `Xxh64::digest`: the streaming digest is the one-shot digest of all the
/// bytes fed, with the hasher's seed.
#[verifier::external_body]
fn xxh64_digest(h: &Xxh64) -> (r: u64)
    ensures
        r == xxh64_of(hashed_bytes(*h), hasher_seed(*h)),
{
    h.digest()
}

/// `xxhash_rust::xxh64::xxh64`: the one-shot digest.
#[verifier::external_body]
fn xxh64_once(data: &[u8], seed: u64) -> (r: u64)
    ensures
        r == xxh64_of(data@, seed),
{
    xxhash_rust::xxh64::xxh64(data, seed)
}

pub open spec fn hex_char(d: nat) -> char {
    if d < 10 {
        (('0' as u32) + d) as char
    } else {
        (('a' as u32) + d - 10) as char
    }
}

/// `n` in `k` lower-case hexadecimal digits, most significant first.
pub open spec fn hex_fixed(n: nat, k: nat) -> Seq<char>
    decreases k,
{
    if k == 0 {
        Seq::empty()
    } else {
        hex_fixed(n / 16, (k - 1) as nat).push(hex_char(n % 16))
    }
}

/// `format!("{:016x}", n)`.
pub open spec fn hex16(n: u64) -> Seq<char> {
    hex_fixed(n as nat, 16)
}

/// The fingerprint of `data`.
pub open spec fn content_hash_spec(data: Seq<u8>) -> Seq<char> {
    hex16(xxh64_of(data, 0))
}

fn hex_char_exec(d: u64) -> (c: char)
    requires
        d < 16,
    ensures
        c == hex_char(d as nat),
{
    if d < 10 {
        crate::text::char_from_ascii(('0' as u32) + (d as u32))
    } else {
        crate::text::char_from_ascii(('a' as u32) + (d as u32) - 10)
    }
}

fn hex_fixed_exec(n: u64, k: u32) -> (r: Vec<char>)
    ensures
        r@ == hex_fixed(n as nat, k as nat),
    decreases k,
{
    if k == 0 {
        Vec::new()
    } else {
        let mut v = hex_fixed_exec(n / 16, k - 1);
        v.push(hex_char_exec(n % 16));
        v
    }
}

pub fn format_hex16(n: u64) -> (r: String)
    ensures
        r@ == hex16(n),
{
    let v = hex_fixed_exec(n, 16);
    crate::text::string_of(v.as_slice())
}

/// Incremental xxHash64 (seed 0) whose digest matches
/// `content_hash_xxh64_chunks`.
pub struct ContentXxh64(Xxh64);

impl ContentXxh64 {
    /// The bytes fed so far.
    pub closed spec fn fed(&self) -> Seq<u8> {
        hashed_bytes(self.0)
    }

    pub closed spec fn well_formed(&self) -> bool {
        hasher_seed(self.0) == 0
    }

    pub fn new() -> (r: ContentXxh64)
        ensures
            r.fed() == Seq::<u8>::empty(),
            r.well_formed(),
    {
        ContentXxh64(xxh64_new(0))
    }

    /// Feeds `data` (an empty buffer leaves the hasher alone).
    pub fn update(&mut self, data: &[u8])
        ensures
            final(self).fed() == old(self).fed() + data@,
            old(self).well_formed() ==> final(self).well_formed(),
    {
        if data.len() > 0 {
            xxh64_update(&mut self.0, data);
        } else {
            assert(old(self).fed() + data@ =~= old(self).fed());
        }
    }

    pub fn finish(self) -> (r: String)
        requires
            self.well_formed(),
        ensures
            r@ == content_hash_spec(self.fed()),
    {
        let d = xxh64_digest(&self.0);
        format_hex16(d)
    }
}

impl Default for ContentXxh64 {
    fn default() -> (r: ContentXxh64)
        ensures
            r.fed() == Seq::<u8>::empty(),
            r.well_formed(),
    {
        ContentXxh64::new()
    }
}

/// The fingerprint of a single buffer.
pub fn content_hash_xxh64(data: &[u8]) -> (r: String)
    ensures
        r@ == content_hash_spec(data@),
{
    format_hex16(xxh64_once(data, 0))
}

/// The buffers laid end to end.
pub open spec fn concat_chunks(chunks: Seq<&[u8]>) -> Seq<u8>
    decreases chunks.len(),
{
    if chunks.len() == 0 {
        Seq::empty()
    } else {
        concat_chunks(chunks.drop_last()) + chunks.last()@
    }
}

/// The fingerprint of several buffers in order, which is the fingerprint
/// of their concatenation: how a file is cut into chunks does not change
/// its fingerprint.
pub fn content_hash_xxh64_chunks(chunks: &[&[u8]]) -> (r: String)
    ensures
        r@ == content_hash_spec(concat_chunks(chunks@)),
{
    let mut hasher = ContentXxh64::new();
    let mut i: usize = 0;
    while i < chunks.len()
        invariant
            i <= chunks@.len(),
            hasher.well_formed(),
            hasher.fed() == concat_chunks(chunks@.take(i as int)),
        decreases chunks.len() - i,
    {
        hasher.update(chunks[i]);
        assert(chunks@.take(i + 1).drop_last() =~= chunks@.take(i as int));
        i += 1;
    }
    assert(chunks@.take(i as int) =~= chunks@);
    hasher.finish()
}

} // verus!
