//! Network context resolution: a caseless network name maps to a fixed
//! passphrase, and the 32-byte network identifier is the digest of that
//! passphrase's bytes.

use vstd::prelude::*;
use vstd::string::StrSliceExecFns;
use vstd::string::StringSliceAdditionalSpecFns;

verus! {

/// ASCII lowercase of one character; other characters are unchanged.
pub open spec fn lower_char(c: char) -> char {
    if 65 <= c as u32 && c as u32 <= 90 {
        ((c as u8) + 32) as char
    } else {
        c
    }
}

/// ASCII lowercase of a character sequence.
pub open spec fn lower_seq(s: Seq<char>) -> Seq<char> {
    Seq::new(s.len(), |i: int| lower_char(s[i]))
}

fn lower_char_exec(c: char) -> (r: char)
    ensures
        r == lower_char(c),
{
    let u = c as u32;
    if 65 <= u && u <= 90 {
        ((c as u8) + 32) as char
    } else {
        c
    }
}

/// Caseless string comparison over ASCII case folding.
pub fn eq_ignore_case(a: &str, b: &str) -> (r: bool)
    ensures
        r == (lower_seq(a@) == lower_seq(b@)),
{
    let alen = a.unicode_len();
    let blen = b.unicode_len();
    if alen != blen {
        proof {
            assert(lower_seq(a@).len() != lower_seq(b@).len());
        }
        return false;
    }
    let mut i: usize = 0;
    while i < alen
        invariant
            i <= alen,
            alen == a@.len(),
            alen == b@.len(),
            forall|j: int| 0 <= j < i ==> lower_char(a@[j]) == lower_char(b@[j]),
        decreases alen - i,
    {
        let ca = lower_char_exec(a.get_char(i));
        let cb = lower_char_exec(b.get_char(i));
        if ca != cb {
            proof {
                assert(lower_seq(a@)[i as int] != lower_seq(b@)[i as int]);
            }
            return false;
        }
        i = i + 1;
    }
    proof {
        assert(lower_seq(a@) =~= lower_seq(b@));
    }
    true
}

/// The fixed table: lowercase name to passphrase.
pub open spec fn spec_network_passphrase(name: Seq<char>) -> Option<Seq<char>> {
    if lower_seq(name) == "public"@ || lower_seq(name) == "mainnet"@ {
        Some("Public Global Stellar Network ; September 2015"@)
    } else if lower_seq(name) == "testnet"@ {
        Some("Test SDF Network ; September 2015"@)
    } else if lower_seq(name) == "futurenet"@ {
        Some("Test SDF Future Network ; October 2022"@)
    } else {
        None
    }
}

/// Resolve a network name to its passphrase; unknown names resolve to no
/// override rather than an error.
pub fn network_passphrase(network: &str) -> (r: Option<&'static str>)
    ensures
        match r {
            Some(p) => spec_network_passphrase(network@) == Some(p@),
            None => spec_network_passphrase(network@) is None,
        },
{
    proof {
        reveal_strlit("public");
        reveal_strlit("mainnet");
        reveal_strlit("testnet");
        reveal_strlit("futurenet");
        assert(lower_seq("public"@) =~= "public"@);
        assert(lower_seq("mainnet"@) =~= "mainnet"@);
        assert(lower_seq("testnet"@) =~= "testnet"@);
        assert(lower_seq("futurenet"@) =~= "futurenet"@);
    }
    if eq_ignore_case(network, "public") || eq_ignore_case(network, "mainnet") {
        Some("Public Global Stellar Network ; September 2015")
    } else if eq_ignore_case(network, "testnet") {
        Some("Test SDF Network ; September 2015")
    } else if eq_ignore_case(network, "futurenet") {
        Some("Test SDF Future Network ; October 2022")
    } else {
        None
    }
}

/// Names with the same ASCII-lowercase form resolve identically: network
/// name matching is case-insensitive.
pub proof fn lemma_network_name_caseless(a: Seq<char>, b: Seq<char>)
    requires
        lower_seq(a) == lower_seq(b),
    ensures
        spec_network_passphrase(a) == spec_network_passphrase(b),
{
}

/// The SHA-256 digest of a byte sequence, named; the digest is a function of
/// the input bytes alone.
pub uninterp spec fn sha256_of(bytes: Seq<u8>) -> Seq<u8>;

/// Relies on sha2's `Sha256` (the FIPS 180-4 digest): a pure function of the
/// input bytes, 32 bytes of output.
#[verifier::external_body]
fn sha256(bytes: &[u8]) -> (r: [u8; 32])
    ensures
        r@ == sha256_of(bytes@),
{
    let digest = <sha2::Sha256 as sha2::Digest>::digest(bytes);
    let mut out = [0u8; 32];
    out.copy_from_slice(&digest);
    out
}

/// The 32-byte network identifier: the digest of the passphrase's bytes.
pub fn network_id_from_passphrase(passphrase: &str) -> (r: [u8; 32])
    ensures
        r@ == sha256_of(passphrase.spec_bytes()),
{
    sha256(passphrase.as_bytes())
}

} // verus!
