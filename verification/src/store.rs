//! In-process clipboard and credential store of the Android platform.

use vstd::prelude::*;
use crate::strings::str_eq;

verus! {

/// Android clipboard contents (an in-process string store).
pub struct AndroidClipboard {
    contents: Option<String>,
}

impl AndroidClipboard {
    /// What the clipboard holds.
    pub closed spec fn view(self) -> Option<Seq<char>> {
        match self.contents {
            Some(s) => Some(s@),
            None => None,
        }
    }

    /// An empty clipboard.
    pub fn new() -> (c: Self)
        ensures
            c.view() is None,
    {
        AndroidClipboard { contents: None }
    }

    /// The text last written, if any.
    pub fn read(&self) -> (r: Option<String>)
        ensures
            (match r { Some(s) => Some(s@), None => None::<Seq<char>> }) == self.view(),
    {
        match &self.contents {
            Some(s) => Some(s.clone()),
            None => None,
        }
    }

    /// Replace the contents with `text`.
    pub fn write(&mut self, text: String)
        ensures
            final(self).view() == Some(text@),
    {
        self.contents = Some(text);
    }

    /// Empty the clipboard.
    pub fn clear(&mut self)
        ensures
            final(self).view() is None,
    {
        self.contents = None;
    }
}

impl Default for AndroidClipboard {
    fn default() -> (c: Self)
        ensures
            c.view() is None,
    {
        AndroidClipboard { contents: None }
    }
}

/// Credential store failure (the in-process store never fails).
#[derive(Copy, Clone, Debug, PartialEq, Eq)]
pub struct CredentialError;

/// Android credential store: passwords by (service, username).
pub struct AndroidCredentialStore {
    entries: Vec<(String, String, Vec<u8>)>,
}

/// Entry `i` is stored under (service, username).
pub open spec fn entry_key(e: (String, String, Vec<u8>)) -> (Seq<char>, Seq<char>) {
    (e.0@, e.1@)
}

impl AndroidCredentialStore {
    /// Every (service, username) pair is stored at most once.
    pub closed spec fn wf(self) -> bool {
        forall|i: int, j: int| 0 <= i < j < self.entries@.len()
            ==> entry_key(#[trigger] self.entries@[i]) != entry_key(#[trigger] self.entries@[j])
    }

    /// The password stored for (service, username).
    pub closed spec fn lookup(self, service: Seq<char>, username: Seq<char>) -> Option<Seq<u8>> {
        if exists|i: int| 0 <= i < self.entries@.len() && entry_key(self.entries@[i]) == (service, username) {
            let i = choose|i: int| 0 <= i < self.entries@.len() && entry_key(self.entries@[i]) == (service, username);
            Some(self.entries@[i].2@)
        } else {
            None
        }
    }

    /// `after` holds `password` for (service, username) and what `before`
    /// held for every other pair.
    pub open spec fn written(before: Self, after: Self, service: Seq<char>, username: Seq<char>, password: Seq<u8>) -> bool {
        forall|sv: Seq<char>, u: Seq<char>| #[trigger] after.lookup(sv, u)
            == if (sv, u) == (service, username) { Some(password) } else { before.lookup(sv, u) }
    }

    /// `after` holds nothing for (service, username) and what `before` held
    /// for every other pair.
    pub open spec fn deleted(before: Self, after: Self, service: Seq<char>, username: Seq<char>) -> bool {
        forall|sv: Seq<char>, u: Seq<char>| #[trigger] after.lookup(sv, u)
            == if (sv, u) == (service, username) { None } else { before.lookup(sv, u) }
    }

    /// An empty store.
    pub fn new() -> (s: Self)
        ensures
            s.wf(),
            forall|sv: Seq<char>, u: Seq<char>| #[trigger] s.lookup(sv, u) is None,
    {
        AndroidCredentialStore { entries: Vec::new() }
    }

    fn find(&self, service: &str, username: &str) -> (r: Option<usize>)
        ensures
            r matches Some(i) ==> i < self.entries@.len() && entry_key(self.entries@[i as int]) == (service@, username@),
            r is None ==> forall|i: int| 0 <= i < self.entries@.len() ==> entry_key(#[trigger] self.entries@[i]) != (service@, username@),
    {
        let n = self.entries.len();
        let mut i: usize = 0;
        while i < n
            invariant
                n == self.entries@.len(),
                i <= n,
                forall|j: int| 0 <= j < i ==> entry_key(#[trigger] self.entries@[j]) != (service@, username@),
            decreases n - i,
        {
            let e = &self.entries[i];
            if str_eq(e.0.as_str(), service) && str_eq(e.1.as_str(), username) {
                return Some(i);
            }
            i = i + 1;
        }
        None
    }

    /// Store `password` for (service, username), replacing any earlier one.
    pub fn write(&mut self, service: &str, username: &str, password: &[u8]) -> (r: Result<(), CredentialError>)
        requires
            old(self).wf(),
        ensures
            r is Ok,
            final(self).wf(),
            Self::written(*old(self), *final(self), service@, username@, password@),
    {
        let ghost old_self = *self;
        let value = vstd::slice::slice_to_vec(password);
        match self.find(service, username) {
            Some(i) => {
                let key_s = self.entries[i].0.clone();
                let key_u = self.entries[i].1.clone();
                self.entries.set(i, (key_s, key_u, value));
                proof {
                    assert forall|a: int, b: int| 0 <= a < b < self.entries@.len() implies
                        entry_key(#[trigger] self.entries@[a]) != entry_key(#[trigger] self.entries@[b]) by {
                        assert(entry_key(self.entries@[a]) == entry_key(old_self.entries@[a]));
                        assert(entry_key(self.entries@[b]) == entry_key(old_self.entries@[b]));
                    }
                    assert forall|sv: Seq<char>, u: Seq<char>| #[trigger] self.lookup(sv, u)
                        == if (sv, u) == (service@, username@) { Some(password@) } else { old_self.lookup(sv, u) } by {
                        if exists|k: int| 0 <= k < self.entries@.len() && entry_key(self.entries@[k]) == (sv, u) {
                            let k = choose|k: int| 0 <= k < self.entries@.len() && entry_key(self.entries@[k]) == (sv, u);
                            assert(entry_key(old_self.entries@[k]) == (sv, u));
                            if (sv, u) == (service@, username@) {
                                assert(k == i);
                            } else {
                                let k2 = choose|k2: int| 0 <= k2 < old_self.entries@.len() && entry_key(old_self.entries@[k2]) == (sv, u);
                                assert(k2 == k);
                            }
                        } else {
                            assert forall|k: int| 0 <= k < old_self.entries@.len() implies entry_key(#[trigger] old_self.entries@[k]) != (sv, u) by {
                                assert(entry_key(self.entries@[k]) == entry_key(old_self.entries@[k]));
                            }
                        }
                    }
                }
            },
            None => {
                self.entries.push((String::from_str(service), String::from_str(username), value));
                proof {
                    let n = old_self.entries@.len();
                    assert forall|sv: Seq<char>, u: Seq<char>| #[trigger] self.lookup(sv, u)
                        == if (sv, u) == (service@, username@) { Some(password@) } else { old_self.lookup(sv, u) } by {
                        if (sv, u) == (service@, username@) {
                            assert(entry_key(self.entries@[n as int]) == (sv, u));
                            let k = choose|k: int| 0 <= k < self.entries@.len() && entry_key(self.entries@[k]) == (sv, u);
                            assert(k == n);
                        } else {
                            if exists|k: int| 0 <= k < self.entries@.len() && entry_key(self.entries@[k]) == (sv, u) {
                                let k = choose|k: int| 0 <= k < self.entries@.len() && entry_key(self.entries@[k]) == (sv, u);
                                assert(old_self.entries@[k] == self.entries@[k]);
                                let k2 = choose|k2: int| 0 <= k2 < old_self.entries@.len() && entry_key(old_self.entries@[k2]) == (sv, u);
                                assert(k2 == k);
                            } else {
                                assert forall|k: int| 0 <= k < old_self.entries@.len() implies entry_key(#[trigger] old_self.entries@[k]) != (sv, u) by {
                                    assert(old_self.entries@[k] == self.entries@[k]);
                                }
                            }
                        }
                    }
                }
            },
        }
        Ok(())
    }

    /// The password stored for (service, username), if any.
    pub fn read(&self, service: &str, username: &str) -> (r: Result<Option<Vec<u8>>, CredentialError>)
        requires
            self.wf(),
        ensures
            r matches Ok(o) && (match o { Some(v) => Some(v@), None => None::<Seq<u8>> }) == self.lookup(service@, username@),
    {
        match self.find(service, username) {
            Some(i) => {
                proof {
                    let k = choose|k: int| 0 <= k < self.entries@.len() && entry_key(self.entries@[k]) == (service@, username@);
                    assert(k == i);
                }
                Ok(Some(self.entries[i].2.clone()))
            },
            None => Ok(None),
        }
    }

    /// Forget the password stored for (service, username).
    pub fn delete(&mut self, service: &str, username: &str) -> (r: Result<(), CredentialError>)
        requires
            old(self).wf(),
        ensures
            r is Ok,
            final(self).wf(),
            Self::deleted(*old(self), *final(self), service@, username@),
    {
        let ghost old_self = *self;
        match self.find(service, username) {
            Some(i) => {
                self.entries.remove(i);
                proof {
                    assert forall|a: int, b: int| 0 <= a < b < self.entries@.len() implies
                        entry_key(#[trigger] self.entries@[a]) != entry_key(#[trigger] self.entries@[b]) by {
                        let oa = if a < i { a } else { a + 1 };
                        let ob = if b < i { b } else { b + 1 };
                        assert(self.entries@[a] == old_self.entries@[oa]);
                        assert(self.entries@[b] == old_self.entries@[ob]);
                    }
                    assert forall|sv: Seq<char>, u: Seq<char>| #[trigger] self.lookup(sv, u)
                        == if (sv, u) == (service@, username@) { None } else { old_self.lookup(sv, u) } by {
                        if exists|k: int| 0 <= k < self.entries@.len() && entry_key(self.entries@[k]) == (sv, u) {
                            let k = choose|k: int| 0 <= k < self.entries@.len() && entry_key(self.entries@[k]) == (sv, u);
                            let ok = if k < i { k } else { k + 1 };
                            assert(self.entries@[k] == old_self.entries@[ok]);
                            assert(ok != i);
                            let k2 = choose|k2: int| 0 <= k2 < old_self.entries@.len() && entry_key(old_self.entries@[k2]) == (sv, u);
                            assert(k2 == ok);
                        } else {
                            if (sv, u) != (service@, username@) {
                                assert forall|k: int| 0 <= k < old_self.entries@.len() implies entry_key(#[trigger] old_self.entries@[k]) != (sv, u) by {
                                    if k != i {
                                        let nk = if k < i { k } else { k - 1 };
                                        assert(self.entries@[nk] == old_self.entries@[k]);
                                    }
                                }
                            }
                        }
                    }
                }
            },
            None => {},
        }
        Ok(())
    }
}

impl Default for AndroidCredentialStore {
    fn default() -> (s: Self)
        ensures
            s.wf(),
            forall|sv: Seq<char>, u: Seq<char>| #[trigger] s.lookup(sv, u) is None,
    {
        AndroidCredentialStore { entries: Vec::new() }
    }
}

/// A password written for (service, username) is what a read of that pair
/// then gives; every other pair reads as before.
pub proof fn lemma_credential_read_after_write(
    before: AndroidCredentialStore,
    after: AndroidCredentialStore,
    service: Seq<char>,
    username: Seq<char>,
    password: Seq<u8>,
)
    requires
        AndroidCredentialStore::written(before, after, service, username, password),
    ensures
        after.lookup(service, username) == Some(password),
        forall|sv: Seq<char>, u: Seq<char>| (sv, u) != (service, username)
            ==> #[trigger] after.lookup(sv, u) == before.lookup(sv, u),
{
    assert(after.lookup(service, username) == Some(password));
}

/// A second write of a pair replaces the first: the store is as if only the
/// second write had happened.
pub proof fn lemma_credential_overwrite(
    s0: AndroidCredentialStore,
    s1: AndroidCredentialStore,
    s2: AndroidCredentialStore,
    service: Seq<char>,
    username: Seq<char>,
    first: Seq<u8>,
    second: Seq<u8>,
)
    requires
        AndroidCredentialStore::written(s0, s1, service, username, first),
        AndroidCredentialStore::written(s1, s2, service, username, second),
    ensures
        AndroidCredentialStore::written(s0, s2, service, username, second),
{
    assert forall|sv: Seq<char>, u: Seq<char>| #[trigger] s2.lookup(sv, u)
        == if (sv, u) == (service, username) { Some(second) } else { s0.lookup(sv, u) } by {
        assert(s2.lookup(sv, u) == if (sv, u) == (service, username) { Some(second) } else { s1.lookup(sv, u) });
        assert(s1.lookup(sv, u) == if (sv, u) == (service, username) { Some(first) } else { s0.lookup(sv, u) });
    }
}

/// Deleting a pair after writing it leaves nothing for the pair and every
/// other pair as it was before the write.
pub proof fn lemma_credential_delete_after_write(
    s0: AndroidCredentialStore,
    s1: AndroidCredentialStore,
    s2: AndroidCredentialStore,
    service: Seq<char>,
    username: Seq<char>,
    password: Seq<u8>,
)
    requires
        AndroidCredentialStore::written(s0, s1, service, username, password),
        AndroidCredentialStore::deleted(s1, s2, service, username),
    ensures
        s2.lookup(service, username) is None,
        AndroidCredentialStore::deleted(s0, s2, service, username),
{
    assert(s2.lookup(service, username) is None);
    assert forall|sv: Seq<char>, u: Seq<char>| #[trigger] s2.lookup(sv, u)
        == if (sv, u) == (service, username) { None } else { s0.lookup(sv, u) } by {
        assert(s2.lookup(sv, u) == if (sv, u) == (service, username) { None } else { s1.lookup(sv, u) });
        assert(s1.lookup(sv, u) == if (sv, u) == (service, username) { Some(password) } else { s0.lookup(sv, u) });
    }
}

} // verus!
