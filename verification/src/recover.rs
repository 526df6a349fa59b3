//! Seed recovery from raw wallet-file bytes.
//!
//! A wallet file starts with an eight-byte little-endian version number,
//! followed by the 32-byte seed.  Recovery reads both and renders the seed
//! as its mnemonic phrase.  The unverified shell reads the file; the
//! parsing happens here.

use vstd::prelude::*;

verus! {

/// The value that a sequence of little-endian bytes encodes.
pub open spec fn le_value(b: Seq<u8>) -> nat
    decreases b.len(),
{
    if b.len() == 0 {
        0
    } else {
        b[0] as nat + 256 * le_value(b.drop_first())
    }
}

/// Reads the unsigned 64-bit integer that eight little-endian bytes hold.
pub fn le_u64(data: &Vec<u8>, start: usize) -> (r: u64)
    requires
        start + 8 <= data@.len(),
    ensures
        r as nat == le_value(data@.subrange(start as int, start as int + 8)),
{
    let n = data.len();
    let b0 = data[start] as u64;
    let b1 = data[start + 1] as u64;
    let b2 = data[start + 2] as u64;
    let b3 = data[start + 3] as u64;
    let b4 = data[start + 4] as u64;
    let b5 = data[start + 5] as u64;
    let b6 = data[start + 6] as u64;
    let b7 = data[start + 7] as u64;
    let r = b0 + 256 * (b1 + 256 * (b2 + 256 * (b3 + 256 * (b4 + 256 * (b5 + 256 * (b6 + 256
        * b7))))));
    proof {
        let s = start as int;
        let t0 = data@.subrange(s, s + 8);
        let t1 = data@.subrange(s + 1, s + 8);
        let t2 = data@.subrange(s + 2, s + 8);
        let t3 = data@.subrange(s + 3, s + 8);
        let t4 = data@.subrange(s + 4, s + 8);
        let t5 = data@.subrange(s + 5, s + 8);
        let t6 = data@.subrange(s + 6, s + 8);
        let t7 = data@.subrange(s + 7, s + 8);
        assert(t0.drop_first() =~= t1);
        assert(t1.drop_first() =~= t2);
        assert(t2.drop_first() =~= t3);
        assert(t3.drop_first() =~= t4);
        assert(t4.drop_first() =~= t5);
        assert(t5.drop_first() =~= t6);
        assert(t6.drop_first() =~= t7);
        assert(t7.drop_first() =~= data@.subrange(s + 8, s + 8));
        assert(le_value(data@.subrange(s + 8, s + 8)) == 0);
        assert(le_value(t7) == data@[s + 7]);
        assert(le_value(t6) == data@[s + 6] + 256 * le_value(t7));
        assert(le_value(t5) == data@[s + 5] + 256 * le_value(t6));
        assert(le_value(t4) == data@[s + 4] + 256 * le_value(t5));
        assert(le_value(t3) == data@[s + 3] + 256 * le_value(t4));
        assert(le_value(t2) == data@[s + 2] + 256 * le_value(t3));
        assert(le_value(t1) == data@[s + 1] + 256 * le_value(t2));
        assert(le_value(t0) == data@[s] + 256 * le_value(t1));
    }
    r
}

/// Whether a byte count is valid entropy for a mnemonic phrase: a multiple
/// of four between 16 and 32 bytes.
pub open spec fn valid_entropy_len(n: nat) -> bool {
    n % 4 == 0 && 16 <= n <= 32
}

/// The English mnemonic phrase for entropy bytes.
pub uninterp spec fn mnemonic_phrase_of(entropy: Seq<u8>) -> Seq<char>;

/// Relies on bip39::Mnemonic::from_entropy and its display rendering: the
/// phrase is a function of the entropy bytes alone (English word list, one
/// space between words), and from_entropy succeeds exactly when the entropy
/// length is a multiple of four between 16 and 32 bytes.
#[verifier::external_body]
fn entropy_to_phrase(entropy: &Vec<u8>) -> (r: Option<String>)
    ensures
        r is Some <==> valid_entropy_len(entropy@.len()),
        r matches Some(p) ==> p@ == mnemonic_phrase_of(entropy@),
{
    bip39::Mnemonic::from_entropy(entropy.as_slice()).ok().map(|m| m.to_string())
}

/// Why seed recovery can fail.
#[derive(Clone, Copy, Debug, PartialEq, Eq, Structural)]
pub enum RecoverError {
    /// The file holds fewer than the forty header-and-seed bytes.
    TooShort,
}

/// What seed recovery yields: the wallet-file version and the seed as a
/// mnemonic phrase.
#[derive(Debug)]
pub struct RecoveredSeed {
    pub version: u64,
    pub phrase: String,
}

/// Recovers the seed from raw wallet-file bytes: the first eight bytes are
/// the little-endian file version, the next 32 the seed, rendered as its
/// mnemonic phrase.  Fails exactly when fewer than forty bytes are given.
pub fn recover_seed(data: &Vec<u8>) -> (r: Result<RecoveredSeed, RecoverError>)
    ensures
        data@.len() < 40 ==> r == Err::<RecoveredSeed, RecoverError>(RecoverError::TooShort),
        data@.len() >= 40 ==> {
            &&& r matches Ok(rec)
            &&& rec.version as nat == le_value(data@.subrange(0, 8))
            &&& rec.phrase@ == mnemonic_phrase_of(data@.subrange(8, 40))
        },
{
    if data.len() < 40 {
        return Err(RecoverError::TooShort);
    }
    let version = le_u64(data, 0);
    let mut seed: Vec<u8> = Vec::new();
    let mut i: usize = 8;
    while i < 40
        invariant
            8 <= i <= 40,
            data@.len() >= 40,
            seed@ == data@.subrange(8, i as int),
        decreases 40 - i,
    {
        seed.push(data[i]);
        proof {
            assert(seed@ =~= data@.subrange(8, i as int + 1));
        }
        i = i + 1;
    }
    let phrase = entropy_to_phrase(&seed).unwrap();
    Ok(RecoveredSeed { version, phrase })
}

} // verus!
