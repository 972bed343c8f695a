//! Key-based authorization: resolving an opaque access key to a quota
//! decision, with one reserved literal that always carries an unlimited
//! quota without consulting the backing store.

use vstd::prelude::*;

verus! {

/// The quota decision resolved for one access key: either no cap, or a cap
/// on the number of records returned.
#[derive(Debug, Clone, Copy, PartialEq, Eq, Structural)]
pub enum KeyLimit {
    Unlimited,
    Limit(usize),
}

/// Failure reaching or reading the backing store during a quota lookup.
/// Distinct from an unknown key, which is a legitimate `None` answer.
#[derive(Debug, Clone, Copy, PartialEq, Eq, Structural)]
pub enum AuthError {
    /// The store could not be reached, or reading it failed.
    Backend,
}

/// The reserved key literal that is always unlimited, store or no store.
pub open spec fn unlimited_key() -> Seq<char> {
    "unlimit"@
}

/// Whether `key` is the reserved standing-unlimited literal.
pub fn is_unlimited_key(key: &str) -> (r: bool)
    ensures
        r == (key@ == unlimited_key()),
{
    let k: String = key.to_owned();
    let u: String = "unlimit".to_owned();
    k == u
}

/// Quota lookup capability. Implementations fix what a lookup would answer
/// through `spec_key_limit`; `None` means the key is unknown and the caller
/// must treat the request as unauthorized.
pub trait AuthDatasource {
    /// What a quota lookup on `key` would answer. An implementation that
    /// leaves this unstated promises nothing.
    open spec fn spec_key_limit(&self, key: Seq<char>) -> Result<Option<KeyLimit>, AuthError> {
        arbitrary()
    }

    /// Resolves `key` to its quota decision, or `None` for an unknown key.
    fn key_limit(&self, key: &str) -> (r: Result<Option<KeyLimit>, AuthError>)
        ensures
            r == self.spec_key_limit(key@),
    ;
}

/// One key of the auth store and the quota it carries.
pub struct KeyEntry {
    pub key: String,
    pub limit: KeyLimit,
}

/// The quota of the first entry whose key matches, or `None` when no
/// entry does.
pub open spec fn lookup_limit(entries: Seq<KeyEntry>, key: Seq<char>) -> Option<KeyLimit>
    decreases entries.len(),
{
    if entries.len() == 0 {
        None
    } else if entries.first().key@ == key {
        Some(entries.first().limit)
    } else {
        lookup_limit(entries.drop_first(), key)
    }
}

proof fn lemma_lookup_absent(entries: Seq<KeyEntry>, key: Seq<char>)
    requires
        forall|i: int| 0 <= i < entries.len() ==> (#[trigger] entries[i]).key@ != key,
    ensures
        lookup_limit(entries, key) is None,
    decreases entries.len(),
{
    if entries.len() > 0 {
        assert(entries[0].key@ != key);
        assert forall|i: int| 0 <= i < entries.drop_first().len() implies (#[trigger] entries.drop_first()[i]).key@
            != key by {
            assert(entries.drop_first()[i] == entries[i + 1]);
        }
        lemma_lookup_absent(entries.drop_first(), key);
    }
}

/// A key that no entry of a reachable auth store carries, and that is not
/// the reserved literal, resolves to `None`: the caller must deny the
/// request, not fail it.
pub proof fn lemma_absent_key_is_none(store: KeyStore, key: Seq<char>)
    requires
        key != unlimited_key(),
        !store.fail,
        forall|i: int| 0 <= i < store.entries@.len() ==> (#[trigger] store.entries@[i]).key@ != key,
    ensures
        store.spec_key_limit(key) == Result::<Option<KeyLimit>, AuthError>::Ok(None),
{
    lemma_lookup_absent(store.entries@, key);
}

/// A scripted in-memory auth store: resolves a key against its fixed
/// entries, or fails when scripted to. The reserved literal is answered
/// before the entries, or any failure, are consulted.
pub struct KeyStore {
    pub entries: Vec<KeyEntry>,
    pub fail: bool,
}

impl AuthDatasource for KeyStore {
    open spec fn spec_key_limit(&self, key: Seq<char>) -> Result<Option<KeyLimit>, AuthError> {
        if key == unlimited_key() {
            Ok(Some(KeyLimit::Unlimited))
        } else if self.fail {
            Err(AuthError::Backend)
        } else {
            Ok(lookup_limit(self.entries@, key))
        }
    }

    fn key_limit(&self, key: &str) -> (r: Result<Option<KeyLimit>, AuthError>) {
        if is_unlimited_key(key) {
            return Ok(Some(KeyLimit::Unlimited));
        }
        if self.fail {
            return Err(AuthError::Backend);
        }
        let owned: String = key.to_owned();
        let mut i: usize = 0;
        proof {
            assert(self.entries@.skip(0) =~= self.entries@);
        }
        while i < self.entries.len()
            invariant
                i <= self.entries@.len(),
                owned@ == key@,
                key@ != unlimited_key(),
                !self.fail,
                lookup_limit(self.entries@, key@) == lookup_limit(
                    self.entries@.skip(i as int),
                    key@,
                ),
            decreases self.entries@.len() - i,
        {
            proof {
                assert(self.entries@.skip(i as int).first() == self.entries@[i as int]);
                assert(self.entries@.skip(i as int).drop_first() =~= self.entries@.skip(i + 1));
            }
            if self.entries[i].key == owned {
                proof {
                    assert(self.entries@.skip(i as int).len() > 0);
                    assert(lookup_limit(self.entries@.skip(i as int), key@) == Some(
                        self.entries@[i as int].limit,
                    ));
                }
                return Ok(Some(self.entries[i].limit));
            }
            i = i + 1;
        }
        proof {
            assert(self.entries@.skip(self.entries@.len() as int) =~= Seq::<KeyEntry>::empty());
        }
        Ok(None)
    }
}

} // verus!
