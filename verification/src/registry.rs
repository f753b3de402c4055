//! The registry of opened native library handles.
//!
//! The registry owns every loaded library and issues an opaque integer id
//! for each. Its view is the set of ids that are currently open: opening
//! inserts a fresh id, closing removes one, and every request that names a
//! closed or unknown id is answered with `InvalidHandle`. Ids are issued
//! monotonically, so a closed id is never handed out again.

use crate::value::BridgeError;
use vstd::prelude::*;

verus! {

/// dlopen's handle to a loaded native library. The registry stores these
/// handles and lends them out for symbol resolution; the bridge never
/// looks inside one.
#[verifier::external_type_specification]
#[verifier::external_body]
pub struct ExLibrary(dlopen::raw::Library);

/// Relies on dlopen::raw::Library::open: loads the native library at
/// `path` into the process. Whether it succeeds depends on what is on
/// disk and on the platform loader, so nothing is promised of the
/// outcome; on failure the result carries the loader's own message.
#[verifier::external_body]
fn open_native(path: &str) -> Result<dlopen::raw::Library, String> {
    match dlopen::raw::Library::open(path) {
        Ok(lib) => Ok(lib),
        Err(e) => Err(format!("{}", e)),
    }
}

/// One open handle: its id and the library it names.
struct Entry {
    id: u64,
    lib: dlopen::raw::Library,
}

/// The registry of open library handles.
pub struct Registry {
    next_id: u64,
    entries: Vec<Entry>,
}

impl Registry {
    /// The id of the entry at position `i`.
    spec fn id_at(&self, i: int) -> u64 {
        self.entries@[i].id
    }

    /// Whether some entry holds `id`.
    spec fn has_id(&self, id: u64) -> bool {
        exists|i: int| 0 <= i < self.entries@.len() && self.id_at(i) == id
    }

    /// Every held id was issued earlier than `next_id`, and no id is held
    /// twice.
    pub closed spec fn wf(&self) -> bool {
        &&& forall|i: int|
            0 <= i < self.entries@.len() ==> #[trigger] self.id_at(i) < self.next_id
        &&& forall|i: int, j: int|
            0 <= i < j < self.entries@.len() ==> #[trigger] self.id_at(i) != #[trigger] self.id_at(
                j,
            )
    }

    /// A registry with no open handles.
    pub fn new() -> (r: Registry)
        ensures
            r.wf(),
            r@ == Set::<u64>::empty(),
    {
        let r = Registry { next_id: 0, entries: Vec::new() };
        proof {
            assert(r@ =~= Set::<u64>::empty());
        }
        r
    }

    /// Loads the library at `path` and registers it under a fresh id.
    /// On failure the registry is unchanged and the loader's message is
    /// returned.
    pub fn open(&mut self, path: &str) -> (r: Result<u64, String>)
        requires
            old(self).wf(),
        ensures
            final(self).wf(),
            match r {
                Ok(id) => !old(self)@.contains(id) && final(self)@ == old(self)@.insert(id),
                Err(_) => final(self)@ == old(self)@,
            },
    {
        if self.next_id == u64::MAX {
            // 2^64 - 1 handles were issued over the process lifetime;
            // refuse rather than reuse a live id
            return Err(String::from_str("handle ids exhausted"));
        }
        match open_native(path) {
            Err(e) => {
                proof {
                    assert(self@ =~= old(self)@);
                }
                Err(e)
            },
            Ok(lib) => {
                let id = self.next_id;
                self.next_id = self.next_id + 1;
                self.entries.push(Entry { id, lib });
                proof {
                    let m = old(self).entries@.len() as int;
                    assert(self.entries@ == old(self).entries@.push(Entry { id, lib }));
                    assert(self.id_at(m) == id);
                    assert forall|a: int| 0 <= a < m implies self.id_at(a) == old(self).id_at(
                        a,
                    ) by {}
                    assert(!old(self)@.contains(id)) by {
                        if old(self).has_id(id) {
                            let i = choose|i: int|
                                0 <= i < old(self).entries@.len() && old(self).id_at(i) == id;
                            assert(old(self).id_at(i) < old(self).next_id);
                        }
                    }
                    assert(self.wf()) by {
                        assert forall|a: int, b: int|
                            0 <= a < b < self.entries@.len() implies self.id_at(a) != self.id_at(
                            b,
                        ) by {
                            if b == m {
                                assert(old(self).id_at(a) < id);
                            }
                        }
                    }
                    assert forall|x: u64| self@.contains(x) <==> old(self)@.insert(id).contains(
                        x,
                    ) by {
                        if old(self)@.insert(id).contains(x) {
                            if x == id {
                                assert(self.id_at(m) == x);
                                assert(self.has_id(x));
                            } else {
                                let i = choose|i: int|
                                    0 <= i < old(self).entries@.len() && old(self).id_at(i) == x;
                                assert(self.id_at(i) == x);
                                assert(self.has_id(x));
                            }
                        }
                        if self@.contains(x) {
                            let i = choose|i: int|
                                0 <= i < self.entries@.len() && self.id_at(i) == x;
                            if i < m {
                                assert(old(self).id_at(i) == x);
                                assert(old(self).has_id(x));
                            } else {
                                assert(x == id);
                            }
                        }
                    }
                    assert(self@ =~= old(self)@.insert(id));
                }
                Ok(id)
            },
        }
    }

    /// Closes the handle `id`, releasing the library. Closing an unknown
    /// or already-closed id reports `InvalidHandle` and changes nothing,
    /// so a second close of the same id is an error, never a crash.
    pub fn close(&mut self, id: u64) -> (r: Result<(), BridgeError>)
        requires
            old(self).wf(),
        ensures
            final(self).wf(),
            old(self)@.contains(id) ==> r == Ok::<(), BridgeError>(()) && final(self)@ == old(
                self,
            )@.remove(id),
            !old(self)@.contains(id) ==> r == Err::<(), BridgeError>(BridgeError::InvalidHandle)
                && final(self)@ == old(self)@,
    {
        let n = self.entries.len();
        let mut i: usize = 0;
        while i < n
            invariant
                i <= n == self.entries@.len(),
                *self == *old(self),
                old(self).wf(),
                forall|j: int| 0 <= j < i ==> old(self).id_at(j) != id,
            decreases n - i,
        {
            if self.entries[i].id == id {
                proof {
                    assert(old(self).id_at(i as int) == id);
                    assert(old(self)@.contains(id));
                }
                self.entries.remove(i);
                proof {
                    let iv = i as int;
                    let m = old(self).entries@.len() as int;
                    assert(self.entries@ == old(self).entries@.remove(iv));
                    assert forall|a: int| 0 <= a < m - 1 implies self.id_at(a) == old(self).id_at(
                        if a < iv {
                            a
                        } else {
                            a + 1
                        },
                    ) by {}
                    assert(self.wf()) by {
                        assert forall|a: int, b: int|
                            0 <= a < b < self.entries@.len() implies self.id_at(a) != self.id_at(
                            b,
                        ) by {
                            let a0 = if a < iv {
                                a
                            } else {
                                a + 1
                            };
                            let b0 = if b < iv {
                                b
                            } else {
                                b + 1
                            };
                            assert(old(self).id_at(a0) != old(self).id_at(b0));
                        }
                    }
                    assert forall|x: u64| self@.contains(x) <==> old(self)@.remove(id).contains(
                        x,
                    ) by {
                        if self@.contains(x) {
                            let k = choose|k: int|
                                0 <= k < self.entries@.len() && self.id_at(k) == x;
                            let k0 = if k < iv {
                                k
                            } else {
                                k + 1
                            };
                            assert(old(self).id_at(k0) == x);
                            assert(old(self).has_id(x));
                            assert(k0 != iv);
                            assert(old(self).id_at(iv) == id);
                            assert(x != id) by {
                                if k0 < iv {
                                    assert(old(self).id_at(k0) != old(self).id_at(iv));
                                } else {
                                    assert(old(self).id_at(iv) != old(self).id_at(k0));
                                }
                            }
                        }
                        if old(self)@.remove(id).contains(x) {
                            let k0 = choose|k0: int|
                                0 <= k0 < old(self).entries@.len() && old(self).id_at(k0) == x;
                            assert(k0 != iv);
                            let k = if k0 < iv {
                                k0
                            } else {
                                k0 - 1
                            };
                            assert(self.id_at(k) == x);
                            assert(self.has_id(x));
                        }
                    }
                    assert(self@ =~= old(self)@.remove(id));
                }
                return Ok(());
            }
            i = i + 1;
        }
        proof {
            assert(!old(self)@.contains(id));
            assert(self@ =~= old(self)@);
        }
        Err(BridgeError::InvalidHandle)
    }

    /// Whether `id` names an open handle.
    pub fn is_open(&self, id: u64) -> (r: bool)
        ensures
            r == self@.contains(id),
    {
        let n = self.entries.len();
        let mut i: usize = 0;
        while i < n
            invariant
                i <= n == self.entries@.len(),
                forall|j: int| 0 <= j < i ==> self.id_at(j) != id,
            decreases n - i,
        {
            if self.entries[i].id == id {
                proof {
                    assert(self.id_at(i as int) == id);
                    assert(self.has_id(id));
                }
                return true;
            }
            i = i + 1;
        }
        false
    }

    /// Lends out the library behind `id`, for symbol resolution by the
    /// caller; there is one exactly when `id` is open.
    pub fn library_for(&self, id: u64) -> (r: Option<&dlopen::raw::Library>)
        ensures
            r is Some <==> self@.contains(id),
    {
        let n = self.entries.len();
        let mut i: usize = 0;
        while i < n
            invariant
                i <= n == self.entries@.len(),
                forall|j: int| 0 <= j < i ==> self.id_at(j) != id,
            decreases n - i,
        {
            if self.entries[i].id == id {
                proof {
                    assert(self.id_at(i as int) == id);
                    assert(self.has_id(id));
                }
                return Some(&self.entries[i].lib);
            }
            i = i + 1;
        }
        None
    }
}

impl View for Registry {
    type V = Set<u64>;

    /// The set of ids that are currently open.
    closed spec fn view(&self) -> Set<u64> {
        Set::new(|x: u64| self.has_id(x))
    }
}

/// Law: a close after an open leaves the id outside the open set, so any
/// further request that names it is answered with `InvalidHandle`.
pub proof fn lemma_open_close_invalidates(open_ids: Set<u64>, id: u64)
    ensures
        !open_ids.insert(id).remove(id).contains(id),
{
}

} // verus!
