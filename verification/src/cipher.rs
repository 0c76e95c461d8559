//! The obfuscation cipher: an XOR chain whose running key is the previous
//! ciphertext byte.
use vstd::prelude::*;

verus! {

/// The running key at the start of every pass.
pub const INITIAL_KEY: u8 = 171;

/// The key under which position `at` of a pass is processed: the seed at the
/// first position, the ciphertext byte just before `at` everywhere else.
pub open spec fn key_at(key: u8, cipher: Seq<u8>, at: int) -> u8 {
    if at <= 0 {
        key
    } else {
        cipher[at - 1]
    }
}

/// The ciphertext of `plain` under the seed `key`.
pub open spec fn obfuscated(key: u8, plain: Seq<u8>) -> Seq<u8>
    decreases plain.len(),
{
    if plain.len() == 0 {
        Seq::empty()
    } else {
        let head = obfuscated(key, plain.drop_last());
        head.push(key_at(key, head, head.len() as int) ^ plain.last())
    }
}

/// The plaintext of `cipher` under the seed `key`.
pub open spec fn deobfuscated(key: u8, cipher: Seq<u8>) -> Seq<u8> {
    Seq::new(cipher.len(), |i: int| key_at(key, cipher, i) ^ cipher[i])
}

/// The ciphertext is as long as the plaintext, and each of its bytes is the
/// plaintext byte XORed with the key in force at its position.
pub proof fn lemma_obfuscated_chain(key: u8, plain: Seq<u8>)
    ensures
        obfuscated(key, plain).len() == plain.len(),
        forall|i: int|
            0 <= i < plain.len() ==> #[trigger] obfuscated(key, plain)[i] == key_at(
                key,
                obfuscated(key, plain),
                i,
            ) ^ plain[i],
    decreases plain.len(),
{
    if plain.len() > 0 {
        let front = plain.drop_last();
        lemma_obfuscated_chain(key, front);
        let head = obfuscated(key, front);
        let whole = obfuscated(key, plain);
        assert forall|i: int| 0 <= i < plain.len() implies #[trigger] whole[i] == key_at(
            key,
            whole,
            i,
        ) ^ plain[i] by {
            if i < front.len() {
                assert(whole[i] == head[i]);
                assert(key_at(key, whole, i) == key_at(key, head, i));
                assert(plain[i] == front[i]);
            }
        }
    }
}

/// Deciphering a ciphertext under the seed that made it gives the plaintext
/// back.
pub proof fn lemma_deobfuscate_obfuscated(key: u8, plain: Seq<u8>)
    ensures
        deobfuscated(key, obfuscated(key, plain)) == plain,
{
    lemma_obfuscated_chain(key, plain);
    let cipher = obfuscated(key, plain);
    assert forall|i: int| 0 <= i < plain.len() implies deobfuscated(key, cipher)[i]
        == plain[i] by {
        let k = key_at(key, cipher, i);
        let p = plain[i];
        assert(cipher[i] == k ^ p);
        assert(k ^ (k ^ p) == p) by (bit_vector);
    }
    assert(deobfuscated(key, cipher) =~= plain);
}

/// Enciphering a deciphered text under the same seed gives the ciphertext
/// back: the two passes are inverse to each other in both orders.
pub proof fn lemma_obfuscate_deobfuscated(key: u8, cipher: Seq<u8>)
    ensures
        obfuscated(key, deobfuscated(key, cipher)) == cipher,
    decreases cipher.len(),
{
    let plain = deobfuscated(key, cipher);
    if cipher.len() > 0 {
        let front = cipher.drop_last();
        lemma_obfuscate_deobfuscated(key, front);
        assert(plain.drop_last() =~= deobfuscated(key, front));
        let k = key_at(key, front, front.len() as int);
        let c = cipher.last();
        assert(k == key_at(key, cipher, cipher.len() - 1));
        assert(plain.last() == k ^ c);
        assert(k ^ (k ^ c) == c) by (bit_vector);
        assert(obfuscated(key, plain) =~= cipher);
    } else {
        assert(obfuscated(key, plain) =~= cipher);
    }
}

/// Enciphers `plain`, starting the running key at `key`: each output byte is
/// the running key XORed with the plaintext byte, and becomes the running key.
pub fn obfuscate(key: u8, plain: &[u8]) -> (cipher: Vec<u8>)
    ensures
        cipher@ == obfuscated(key, plain@),
{
    let mut cipher: Vec<u8> = Vec::new();
    let mut running: u8 = key;
    let mut i: usize = 0;
    while i < plain.len()
        invariant
            i <= plain@.len(),
            cipher@ == obfuscated(key, plain@.take(i as int)),
            cipher@.len() == i,
            running == key_at(key, cipher@, i as int),
        decreases plain@.len() - i,
    {
        running = running ^ plain[i];
        cipher.push(running);
        proof {
            assert(plain@.take(i + 1).drop_last() =~= plain@.take(i as int));
        }
        i = i + 1;
    }
    proof {
        assert(plain@.take(i as int) =~= plain@);
    }
    cipher
}

/// Deciphers `cipher`, starting the running key at `key`: each output byte is
/// the running key XORed with the ciphertext byte, and the ciphertext byte
/// becomes the running key.
pub fn deobfuscate(key: u8, cipher: &[u8]) -> (plain: Vec<u8>)
    ensures
        plain@ == deobfuscated(key, cipher@),
{
    let mut plain: Vec<u8> = Vec::new();
    let mut running: u8 = key;
    let mut i: usize = 0;
    while i < cipher.len()
        invariant
            i <= cipher@.len(),
            plain@.len() == i,
            forall|j: int| 0 <= j < i ==> plain@[j] == key_at(key, cipher@, j) ^ cipher@[j],
            running == key_at(key, cipher@, i as int),
        decreases cipher@.len() - i,
    {
        plain.push(running ^ cipher[i]);
        running = cipher[i];
        i = i + 1;
    }
    proof {
        assert(plain@ =~= deobfuscated(key, cipher@));
    }
    plain
}

} // verus!
