//! Key material and key sets.
//!
//! A key set owns an ordered collection of keys. Lookup is by key id when
//! the token header carries one, and falls back to "the unique key whose
//! family matches" only when no key id was given and exactly one candidate
//! exists; every other outcome fails closed.

use vstd::prelude::*;

use crate::alg::{KeyFamily, KeyUsage};
use crate::errors::KeyLookupError;

verus! {

/// A verification/signing key: its optional key id, its declared algorithm
/// family, its usage restriction, and its opaque material.
///
/// For an HMAC key the material is the shared secret. For an RSA key it is
/// the DER encoding of the key (PKCS#1 for public keys, PKCS#8 for private
/// ones). For a P-256 key it is the SEC1 encoding of the public point, or
/// the 32-byte scalar of a private key.
#[derive(Debug)]
pub struct Key {
    pub key_id: Option<String>,
    pub family: KeyFamily,
    pub usage: KeyUsage,
    pub material: Vec<u8>,
}

/// An immutable set of keys, ordered as supplied by the provider.
#[derive(Debug)]
pub struct KeySet {
    pub keys: Vec<Key>,
}

/// Whether `k` may serve a signature lookup for family `fam`: its family
/// matches and it is not restricted to encryption.
pub open spec fn spec_is_family_candidate(k: Key, fam: KeyFamily) -> bool {
    &&& k.usage == KeyUsage::Signature
    &&& k.family == fam
}

/// Whether `k` is a candidate for a lookup with key id `kid` (when given)
/// and family `fam`. A key without a key id never matches an explicit `kid`:
/// the search never falls back to family-only on a key-id mismatch.
pub open spec fn spec_is_candidate(k: Key, kid: Option<Seq<char>>, fam: KeyFamily) -> bool {
    &&& spec_is_family_candidate(k, fam)
    &&& match kid {
        Some(id) => match k.key_id {
            Some(s) => s@ == id,
            None => false,
        },
        None => true,
    }
}

/// How many keys of `keys` are candidates for the lookup.
pub open spec fn candidate_count(keys: Seq<Key>, kid: Option<Seq<char>>, fam: KeyFamily) -> nat
    decreases keys.len(),
{
    if keys.len() == 0 {
        0
    } else {
        candidate_count(keys.drop_last(), kid, fam) + if spec_is_candidate(
            keys.last(),
            kid,
            fam,
        ) {
            1nat
        } else {
            0nat
        }
    }
}

/// The view of an optional key id argument.
pub open spec fn spec_kid_view(key_id: Option<&String>) -> Option<Seq<char>> {
    match key_id {
        Some(s) => Some(s@),
        None => None,
    }
}

/// The first candidate of the lookup, when one exists.
pub open spec fn spec_find_key(keys: Seq<Key>, kid: Option<Seq<char>>, fam: KeyFamily) -> Key
    decreases keys.len(),
{
    if keys.len() == 0 {
        arbitrary()
    } else if spec_is_candidate(keys[0], kid, fam) {
        keys[0]
    } else {
        spec_find_key(keys.drop_first(), kid, fam)
    }
}

/// [`spec_find_key`] returns the candidate at the first candidate index.
pub proof fn lemma_find_key_first(keys: Seq<Key>, kid: Option<Seq<char>>, fam: KeyFamily, f: int)
    requires
        0 <= f < keys.len(),
        spec_is_candidate(keys[f], kid, fam),
        forall|j: int| 0 <= j < f ==> !spec_is_candidate(keys[j], kid, fam),
    ensures
        spec_find_key(keys, kid, fam) == keys[f],
    decreases keys.len(),
{
    if f > 0 {
        lemma_find_key_first(keys.drop_first(), kid, fam, f - 1);
    }
}

/// A candidate at some index puts the candidate count at one or more.
pub proof fn lemma_count_at_least_one(
    keys: Seq<Key>,
    kid: Option<Seq<char>>,
    fam: KeyFamily,
    i: int,
)
    requires
        0 <= i < keys.len(),
        spec_is_candidate(keys[i], kid, fam),
    ensures
        candidate_count(keys, kid, fam) >= 1,
    decreases keys.len(),
{
    if i < keys.len() - 1 {
        lemma_count_at_least_one(keys.drop_last(), kid, fam, i);
    }
}

/// Candidates at two distinct indices put the candidate count at two or
/// more.
pub proof fn lemma_count_at_least_two(
    keys: Seq<Key>,
    kid: Option<Seq<char>>,
    fam: KeyFamily,
    i: int,
    j: int,
)
    requires
        0 <= i < j < keys.len(),
        spec_is_candidate(keys[i], kid, fam),
        spec_is_candidate(keys[j], kid, fam),
    ensures
        candidate_count(keys, kid, fam) >= 2,
    decreases keys.len(),
{
    if j == keys.len() - 1 {
        lemma_count_at_least_one(keys.drop_last(), kid, fam, i);
    } else {
        lemma_count_at_least_two(keys.drop_last(), kid, fam, i, j);
    }
}

/// A key set with two or more keys of one family available for signing, and
/// a lookup that carries no key id, always has an ambiguous candidate count:
/// together with the contract of [`KeySet::find_key`], such a lookup returns
/// `AmbiguousKeyFound` and never picks a key arbitrarily.
pub proof fn lemma_no_key_id_two_of_family_ambiguous(
    keys: Seq<Key>,
    fam: KeyFamily,
    i: int,
    j: int,
)
    requires
        0 <= i < j < keys.len(),
        spec_is_family_candidate(keys[i], fam),
        spec_is_family_candidate(keys[j], fam),
    ensures
        candidate_count(keys, None, fam) >= 2,
{
    lemma_count_at_least_two(keys, None, fam, i, j);
}

impl KeySet {
    /// Creates a key set from `keys`.
    pub fn new(keys: Vec<Key>) -> (r: KeySet)
        ensures
            r.keys == keys,
    {
        KeySet { keys }
    }

    /// Looks up the signing key for `key_id` (when the token header carried
    /// one) and `family`.
    ///
    /// With a key id, only keys carrying that id and the family count as
    /// candidates; without one, all signature keys of the family do. The
    /// lookup succeeds exactly when there is a single candidate; zero
    /// candidates report `NoKeyFound` and several report
    /// `AmbiguousKeyFound`.
    pub fn find_key(&self, key_id: Option<&String>, family: KeyFamily) -> (r: Result<
        &Key,
        KeyLookupError,
    >)
        ensures
            (r matches Ok(k) ==> candidate_count(self.keys@, spec_kid_view(key_id), family) == 1
                && *k == spec_find_key(self.keys@, spec_kid_view(key_id), family)
                && spec_is_candidate(*k, spec_kid_view(key_id), family) && (exists|i: int|
                0 <= i < self.keys@.len() && self.keys@[i] == *k)),
            r == Err::<&Key, KeyLookupError>(KeyLookupError::NoKeyFound) <==> candidate_count(
                self.keys@,
                spec_kid_view(key_id),
                family,
            ) == 0,
            r == Err::<&Key, KeyLookupError>(KeyLookupError::AmbiguousKeyFound)
                <==> candidate_count(self.keys@, spec_kid_view(key_id), family) >= 2,
    {
        let ghost kid = spec_kid_view(key_id);
        let mut i: usize = 0;
        let mut count: usize = 0;
        let mut found: usize = 0;
        while i < self.keys.len()
            invariant
                0 <= i <= self.keys.len(),
                count == candidate_count(self.keys@.take(i as int), kid, family),
                count <= i,
                count >= 1 ==> found < i && spec_is_candidate(self.keys@[found as int], kid, family)
                    && (forall|j: int| 0 <= j < found ==> !spec_is_candidate(self.keys@[j], kid, family)),
                count == 0 ==> forall|j: int| 0 <= j < i ==> !spec_is_candidate(self.keys@[j], kid, family),
                kid == spec_kid_view(key_id),
            decreases self.keys.len() - i,
        {
            let k = &self.keys[i];
            let family_ok = k.usage == KeyUsage::Signature && k.family == family;
            let id_ok = match key_id {
                Some(expected) => match &k.key_id {
                    Some(actual) => *actual == *expected,
                    None => false,
                },
                None => true,
            };
            proof {
                assert(self.keys@.take(i + 1).drop_last() =~= self.keys@.take(i as int));
                assert(self.keys@.take(i + 1).last() == self.keys@[i as int]);
            }
            if family_ok && id_ok {
                assert(spec_is_candidate(self.keys@[i as int], kid, family));
                if count == 0 {
                    found = i;
                }
                count += 1;
            } else {
                assert(!spec_is_candidate(self.keys@[i as int], kid, family));
            }
            i += 1;
        }
        proof {
            assert(self.keys@.take(self.keys@.len() as int) =~= self.keys@);
        }
        if count == 0 {
            Err(KeyLookupError::NoKeyFound)
        } else if count > 1 {
            Err(KeyLookupError::AmbiguousKeyFound)
        } else {
            proof {
                lemma_find_key_first(self.keys@, kid, family, found as int);
            }
            Ok(&self.keys[found])
        }
    }
}

} // verus!
