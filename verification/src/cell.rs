//! Cell isolation and payload management.
//!
//! A cell is the fundamental unit of isolation. It owns a set of encrypted
//! payloads, keyed by logical name, and guarantees that they are only
//! sealed and peeled with keys derived from the cell's own identity: no
//! method lets a caller substitute a different identity, so cross-cell
//! decryption is structurally impossible from this layer upward.

use vstd::prelude::*;

use crate::error::HexvaultError;
use crate::keys::MasterKey;
use crate::stack;
use crate::stack::{sealed_for, spec_peel, Layer, LayerContext};

verus! {

/// A unique identifier for a cell.
pub type CellId = String;

/// A payload stored within a cell.
pub struct Payload {
    /// The encrypted bytes.
    pub data: Vec<u8>,
    /// The layer at which this payload was sealed.
    pub sealed_at: Layer,
}

/// An independent encryption domain: an identity string plus a mapping
/// from logical key to sealed payload. Keys are unique within a cell.
pub struct Cell {
    id: CellId,
    entries: Vec<(String, Payload)>,
}

impl Cell {
    /// The cell's identity, as incorporated into every key derivation.
    pub closed spec fn spec_id(self) -> Seq<char> {
        self.id@
    }

    /// Well-formed: logical keys are unique within the cell. Established
    /// by `new` and preserved by every method.
    pub closed spec fn wf(self) -> bool {
        forall|i: int, j: int|
            0 <= i < j < self.entries@.len() ==> self.entries@[i].0@ != self.entries@[j].0@
    }

    /// What the cell stores: for each logical key, the sealed bytes and
    /// the layer they were sealed at.
    pub closed spec fn contents(self) -> Map<Seq<char>, (Seq<u8>, Layer)> {
        Map::new(
            |k: Seq<char>|
                exists|i: int| 0 <= i < self.entries@.len() && self.entries@[i].0@ == k,
            |k: Seq<char>|
                {
                    let i = choose|i: int|
                        0 <= i < self.entries@.len() && self.entries@[i].0@ == k;
                    (self.entries@[i].1.data@, self.entries@[i].1.sealed_at)
                },
        )
    }

    /// With unique keys, the entry at each index is what `contents` maps
    /// its key to, and every mapped key comes from some entry.
    proof fn lemma_contents(self)
        requires
            self.wf(),
        ensures
            forall|i: int|
                0 <= i < self.entries@.len() ==> #[trigger] self.contents().contains_key(
                    self.entries@[i].0@,
                ) && self.contents()[self.entries@[i].0@] == (
                    self.entries@[i].1.data@,
                    self.entries@[i].1.sealed_at,
                ),
            forall|k: Seq<char>|
                #[trigger] self.contents().contains_key(k) ==> exists|i: int|
                    0 <= i < self.entries@.len() && self.entries@[i].0@ == k,
    {
        assert forall|i: int| 0 <= i < self.entries@.len() implies #[trigger] self.contents()
            .contains_key(self.entries@[i].0@) && self.contents()[self.entries@[i].0@] == (
            self.entries@[i].1.data@,
            self.entries@[i].1.sealed_at,
        ) by {
            let k = self.entries@[i].0@;
            assert(0 <= i < self.entries@.len() && self.entries@[i].0@ == k);
            let j = choose|j: int| 0 <= j < self.entries@.len() && self.entries@[j].0@ == k;
            if j < i {
                assert(self.entries@[j].0@ != self.entries@[i].0@);
            } else if i < j {
                assert(self.entries@[i].0@ != self.entries@[j].0@);
            }
        }
    }

    /// Create a new, empty cell.
    pub fn new(id: CellId) -> (c: Self)
        ensures
            c.wf(),
            c.spec_id() == id@,
            c.contents() == Map::<Seq<char>, (Seq<u8>, Layer)>::empty(),
    {
        let c = Cell { id, entries: Vec::new() };
        proof {
            assert(c.contents() =~= Map::<Seq<char>, (Seq<u8>, Layer)>::empty());
        }
        c
    }

    /// Return the cell's ID.
    pub fn id(&self) -> (s: &str)
        ensures
            s@ == self.spec_id(),
    {
        self.id.as_str()
    }

    /// The index of the entry holding a logical key, if any.
    fn find_index(&self, key: &String) -> (idx: Option<usize>)
        ensures
            match idx {
                Some(i) => i < self.entries@.len() && self.entries@[i as int].0@ == key@,
                None => forall|i: int|
                    0 <= i < self.entries@.len() ==> self.entries@[i].0@ != key@,
            },
    {
        let mut i: usize = 0;
        while i < self.entries.len()
            invariant
                i <= self.entries@.len(),
                forall|j: int| 0 <= j < i ==> self.entries@[j].0@ != key@,
            decreases self.entries@.len() - i,
        {
            if self.entries[i].0 == *key {
                return Some(i);
            }
            i = i + 1;
        }
        None
    }

    /// Seal a plaintext value into the cell.
    ///
    /// The value is encrypted up to `layer` using the cell's own identity
    /// and stored under `key`, overwriting any previous payload under that
    /// key. On failure the cell is unchanged.
    pub fn store(
        &mut self,
        master: &MasterKey,
        key: &str,
        text: &[u8],
        layer: Layer,
        context: &LayerContext,
    ) -> (r: Result<(), HexvaultError>)
        requires
            old(self).wf(),
        ensures
            final(self).wf(),
            final(self).spec_id() == old(self).spec_id(),
            r is Ok ==> {
                &&& final(self).contents().contains_key(key@)
                &&& final(self).contents()[key@].1 == layer
                &&& sealed_for(
                    master@,
                    old(self).spec_id(),
                    layer,
                    *context,
                    text@,
                    final(self).contents()[key@].0,
                )
                &&& final(self).contents() == old(self).contents().insert(
                    key@,
                    final(self).contents()[key@],
                )
            },
            r is Err ==> *final(self) == *old(self),
            r is Ok ==> context.sufficient_for(layer),
            !context.sufficient_for(layer) ==> r is Err,
            r is Err ==> (r->Err_0 == HexvaultError::MissingOrInvalidContext || r->Err_0
                == HexvaultError::RandomnessFailure || r->Err_0
                == HexvaultError::EncryptionFailure),
            r is Err && r->Err_0 == HexvaultError::MissingOrInvalidContext
                ==> !context.sufficient_for(layer),
    {
        let sealed = match stack::seal(master, self.id.as_str(), layer, context, text) {
            Ok(s) => s,
            Err(e) => {
                return Err(e);
            },
        };
        let ghost sealed_view = sealed@;
        let payload = Payload { data: sealed, sealed_at: layer };
        let key_string: String = key.to_owned();
        let found = self.find_index(&key_string);
        let ghost old_cell = *self;
        match found {
            Some(i) => {
                self.entries[i] = (key_string, payload);
                proof {
                    assert forall|a: int, b: int|
                        0 <= a < b < self.entries@.len() implies self.entries@[a].0@
                        != self.entries@[b].0@ by {
                        assert(old_cell.entries@[a].0@ != old_cell.entries@[b].0@);
                        assert(self.entries@[a].0@ == old_cell.entries@[a].0@);
                        assert(self.entries@[b].0@ == old_cell.entries@[b].0@);
                    }
                    old_cell.lemma_contents();
                    self.lemma_contents();
                    assert(self.contents() =~= old_cell.contents().insert(
                        key@,
                        (sealed_view, layer),
                    )) by {
                        assert forall|k: Seq<char>| #![all_triggers] true implies {
                            &&& self.contents().contains_key(k) == old_cell.contents().insert(
                                key@,
                                (sealed_view, layer),
                            ).contains_key(k)
                            &&& (self.contents().contains_key(k) ==> self.contents()[k]
                                == old_cell.contents().insert(key@, (sealed_view, layer))[k])
                        } by {
                            if k == key@ {
                                assert(self.entries@[i as int].0@ == k);
                                assert(self.contents().contains_key(k));
                            } else {
                                if self.contents().contains_key(k) {
                                    let a = choose|a: int|
                                        0 <= a < self.entries@.len() && self.entries@[a].0@ == k;
                                    assert(a != i);
                                    assert(old_cell.entries@[a].0@ == k);
                                    assert(old_cell.contents().contains_key(k));
                                    assert(self.contents()[k] == (
                                        self.entries@[a].1.data@,
                                        self.entries@[a].1.sealed_at,
                                    ));
                                    assert(old_cell.contents()[k] == (
                                        old_cell.entries@[a].1.data@,
                                        old_cell.entries@[a].1.sealed_at,
                                    ));
                                }
                                if old_cell.contents().contains_key(k) {
                                    let b = choose|b: int|
                                        0 <= b < old_cell.entries@.len()
                                            && old_cell.entries@[b].0@ == k;
                                    assert(b != i);
                                    assert(self.entries@[b].0@ == k);
                                    assert(self.contents().contains_key(k));
                                }
                            }
                        }
                    }
                    assert(self.contents()[key@] == (sealed_view, layer));
                }
            },
            None => {
                self.entries.push((key_string, payload));
                proof {
                    assert forall|a: int, b: int|
                        0 <= a < b < self.entries@.len() implies self.entries@[a].0@
                        != self.entries@[b].0@ by {
                        if b < old_cell.entries@.len() {
                            assert(old_cell.entries@[a].0@ != old_cell.entries@[b].0@);
                        } else {
                            assert(self.entries@[b].0@ == key@);
                            assert(old_cell.entries@[a].0@ != key@);
                        }
                    }
                    old_cell.lemma_contents();
                    self.lemma_contents();
                    let ghost n = old_cell.entries@.len() as int;
                    assert(self.entries@[n].0@ == key@);
                    assert(self.contents() =~= old_cell.contents().insert(
                        key@,
                        (sealed_view, layer),
                    )) by {
                        assert forall|k: Seq<char>| #![all_triggers] true implies {
                            &&& self.contents().contains_key(k) == old_cell.contents().insert(
                                key@,
                                (sealed_view, layer),
                            ).contains_key(k)
                            &&& (self.contents().contains_key(k) ==> self.contents()[k]
                                == old_cell.contents().insert(key@, (sealed_view, layer))[k])
                        } by {
                            if k == key@ {
                                assert(self.contents().contains_key(k));
                            } else {
                                if self.contents().contains_key(k) {
                                    let a = choose|a: int|
                                        0 <= a < self.entries@.len() && self.entries@[a].0@ == k;
                                    assert(a != n);
                                    assert(old_cell.entries@[a].0@ == k);
                                    assert(old_cell.contents().contains_key(k));
                                }
                                if old_cell.contents().contains_key(k) {
                                    let b = choose|b: int|
                                        0 <= b < old_cell.entries@.len()
                                            && old_cell.entries@[b].0@ == k;
                                    assert(self.entries@[b].0@ == k);
                                    assert(self.contents().contains_key(k));
                                }
                            }
                        }
                    }
                    assert(self.contents()[key@] == (sealed_view, layer));
                }
            },
        }
        Ok(())
    }

    /// Retrieve and peel a stored payload.
    ///
    /// Looks the payload up by key (`CellNotFound` if absent), then peels
    /// it from its recorded layer with the cell's own identity: the
    /// original plaintext comes back exactly when the correct context is
    /// supplied for every layer.
    pub fn retrieve(&self, master: &MasterKey, key: &str, context: &LayerContext) -> (r: Result<
        Vec<u8>,
        HexvaultError,
    >)
        requires
            self.wf(),
        ensures
            !self.contents().contains_key(key@) ==> (r is Err && (r->Err_0 matches
                HexvaultError::CellNotFound(k) && k@ == key@)),
            self.contents().contains_key(key@) ==> (match spec_peel(
                master@,
                self.spec_id(),
                self.contents()[key@].1.spec_depth(),
                *context,
                self.contents()[key@].0,
            ) {
                Ok(p) => r is Ok && r->Ok_0@ == p,
                Err(e) => r is Err && r->Err_0 == e,
            }),
    {
        proof {
            self.lemma_contents();
        }
        let key_string: String = key.to_owned();
        match self.find_index(&key_string) {
            Some(i) => {
                let payload = &self.entries[i].1;
                stack::peel(master, self.id.as_str(), payload.sealed_at, context,
                    payload.data.as_slice())
            },
            None => Err(HexvaultError::CellNotFound(key_string)),
        }
    }

    /// Remove a payload from the cell. Absence is not an error.
    pub fn remove(&mut self, key: &str)
        requires
            old(self).wf(),
        ensures
            final(self).wf(),
            final(self).spec_id() == old(self).spec_id(),
            final(self).contents() == old(self).contents().remove(key@),
    {
        let key_string: String = key.to_owned();
        let ghost old_cell = *self;
        match self.find_index(&key_string) {
            Some(i) => {
                self.entries.remove(i);
                proof {
                    assert forall|a: int, b: int|
                        0 <= a < b < self.entries@.len() implies self.entries@[a].0@
                        != self.entries@[b].0@ by {
                        let a0 = if a < i as int { a } else { a + 1 };
                        let b0 = if b < i as int { b } else { b + 1 };
                        assert(self.entries@[a] == old_cell.entries@[a0]);
                        assert(self.entries@[b] == old_cell.entries@[b0]);
                        assert(old_cell.entries@[a0].0@ != old_cell.entries@[b0].0@);
                    }
                    old_cell.lemma_contents();
                    self.lemma_contents();
                    assert(self.contents() =~= old_cell.contents().remove(key@)) by {
                        assert forall|k: Seq<char>| #![all_triggers] true implies {
                            &&& self.contents().contains_key(k) == old_cell.contents().remove(
                                key@,
                            ).contains_key(k)
                            &&& (self.contents().contains_key(k) ==> self.contents()[k]
                                == old_cell.contents().remove(key@)[k])
                        } by {
                            if self.contents().contains_key(k) {
                                let a = choose|a: int|
                                    0 <= a < self.entries@.len() && self.entries@[a].0@ == k;
                                let a0 = if a < i as int { a } else { a + 1 };
                                assert(self.entries@[a] == old_cell.entries@[a0]);
                                assert(old_cell.entries@[a0].0@ == k);
                                assert(old_cell.contents().contains_key(k));
                                assert(k != key@);
                                assert(self.contents()[k] == (
                                    self.entries@[a].1.data@,
                                    self.entries@[a].1.sealed_at,
                                ));
                                assert(old_cell.contents()[k] == (
                                    old_cell.entries@[a0].1.data@,
                                    old_cell.entries@[a0].1.sealed_at,
                                ));
                            }
                            if old_cell.contents().contains_key(k) && k != key@ {
                                let b = choose|b: int|
                                    0 <= b < old_cell.entries@.len() && old_cell.entries@[b].0@
                                        == k;
                                assert(b != i);
                                let b1 = if b < i as int { b } else { b - 1 };
                                assert(self.entries@[b1] == old_cell.entries@[b]);
                                assert(self.entries@[b1].0@ == k);
                                assert(self.contents().contains_key(k));
                            }
                        }
                    }
                }
            },
            None => {
                proof {
                    old_cell.lemma_contents();
                    assert(!old_cell.contents().contains_key(key@));
                    assert(self.contents() =~= old_cell.contents().remove(key@));
                }
            },
        }
    }

    /// The stored payload under a logical key, if any: the sealed bytes as
    /// the cell holds them, and the layer they were sealed at.
    pub fn payload(&self, key: &str) -> (p: Option<&Payload>)
        requires
            self.wf(),
        ensures
            match p {
                Some(pl) => self.contents().contains_key(key@) && pl.data@
                    == self.contents()[key@].0 && pl.sealed_at == self.contents()[key@].1,
                None => !self.contents().contains_key(key@),
            },
    {
        proof {
            self.lemma_contents();
        }
        let key_string: String = key.to_owned();
        match self.find_index(&key_string) {
            Some(i) => Some(&self.entries[i].1),
            None => None,
        }
    }
}

} // verus!
