//! Versioned model registry with a "latest version per model id" index.
//!
//! The registry's mathematical image is the sequence of inserted versions in
//! call order; a lookup returns the most recent entry whose keys match, so
//! re-inserting a (model, version) pair overwrites, and the latest pointer is
//! last-write-wins, exactly as a map keyed by (id, version) plus a latest map
//! would behave.

use vstd::prelude::*;
use crate::model::{ModelId, ModelVersion, ModelVersionV, VersionName};

verus! {

/// The most recent entry carrying both the given id and version.
pub open spec fn find_version(s: Seq<ModelVersionV>, id: Seq<char>, ver: Seq<char>) -> Option<
    ModelVersionV,
>
    decreases s.len(),
{
    if s.len() == 0 {
        None
    } else if s.last().id == id && s.last().version == ver {
        Some(s.last())
    } else {
        find_version(s.drop_last(), id, ver)
    }
}

/// The most recent entry carrying the given id: the latest version.
pub open spec fn find_latest(s: Seq<ModelVersionV>, id: Seq<char>) -> Option<ModelVersionV>
    decreases s.len(),
{
    if s.len() == 0 {
        None
    } else if s.last().id == id {
        Some(s.last())
    } else {
        find_latest(s.drop_last(), id)
    }
}

/// In-memory store of every inserted model version.
#[derive(Debug)]
pub struct ModelRegistry {
    models: Vec<ModelVersion>,
}

impl View for ModelRegistry {
    type V = Seq<ModelVersionV>;

    closed spec fn view(&self) -> Seq<ModelVersionV> {
        Seq::new(self.models@.len(), |i: int| self.models@[i]@)
    }
}

impl ModelRegistry {
    /// An empty registry.
    pub fn new() -> (r: Self)
        ensures
            r@ == Seq::<ModelVersionV>::empty(),
    {
        let r = ModelRegistry { models: Vec::new() };
        proof {
            assert(r@ =~= Seq::<ModelVersionV>::empty());
        }
        r
    }

    /// Store a version and move the latest pointer for its id onto it.
    pub fn insert(&mut self, model: ModelVersion)
        ensures
            final(self)@ == old(self)@.push(model@),
    {
        let ghost mv = model@;
        self.models.push(model);
        proof {
            assert(self@ =~= old(self)@.push(mv));
        }
    }

    /// Return the exact version stored under (id, version), if any.
    pub fn get(&self, id: &ModelId, version: &VersionName) -> (r: Option<ModelVersion>)
        ensures
            match r {
                Some(m) => find_version(self@, id@, version@) == Some(m@),
                None => find_version(self@, id@, version@) is None,
            },
    {
        let mut i: usize = self.models.len();
        proof {
            assert(self@.take(i as int) =~= self@);
        }
        while i > 0
            invariant
                i <= self.models@.len(),
                self@.len() == self.models@.len(),
                find_version(self@, id@, version@) == find_version(
                    self@.take(i as int),
                    id@,
                    version@,
                ),
            decreases i,
        {
            i = i - 1;
            let m = &self.models[i];
            if m.id.matches(id) && m.version.matches(version) {
                proof {
                    assert(self@.take(i + 1).last() == self@[i as int]);
                }
                return Some(m.clone());
            }
            proof {
                assert(self@.take(i + 1).last() == self@[i as int]);
                assert(self@.take(i + 1).drop_last() =~= self@.take(i as int));
            }
        }
        proof {
            assert(self@.take(0) =~= Seq::<ModelVersionV>::empty());
        }
        None
    }

    /// Return the version the latest pointer for `id` references, if any.
    pub fn get_latest(&self, id: &ModelId) -> (r: Option<ModelVersion>)
        ensures
            match r {
                Some(m) => find_latest(self@, id@) == Some(m@),
                None => find_latest(self@, id@) is None,
            },
    {
        let mut i: usize = self.models.len();
        proof {
            assert(self@.take(i as int) =~= self@);
        }
        while i > 0
            invariant
                i <= self.models@.len(),
                self@.len() == self.models@.len(),
                find_latest(self@, id@) == find_latest(self@.take(i as int), id@),
            decreases i,
        {
            i = i - 1;
            let m = &self.models[i];
            if m.id.matches(id) {
                proof {
                    assert(self@.take(i + 1).last() == self@[i as int]);
                }
                return Some(m.clone());
            }
            proof {
                assert(self@.take(i + 1).last() == self@[i as int]);
                assert(self@.take(i + 1).drop_last() =~= self@.take(i as int));
            }
        }
        proof {
            assert(self@.take(0) =~= Seq::<ModelVersionV>::empty());
        }
        None
    }
}

/// Law: after two successive inserts for the same model id, the latest
/// pointer references the second insert's version, whatever the registry
/// held before.
pub proof fn lemma_latest_after_two_inserts(
    s: Seq<ModelVersionV>,
    m1: ModelVersionV,
    m2: ModelVersionV,
)
    requires
        m1.id == m2.id,
    ensures
        find_latest(s.push(m1).push(m2), m2.id) == Some(m2),
{
    assert(s.push(m1).push(m2).last() == m2);
}

/// Law: looking a version up right after inserting it returns that insert.
pub proof fn lemma_get_after_insert(s: Seq<ModelVersionV>, m: ModelVersionV)
    ensures
        find_version(s.push(m), m.id, m.version) == Some(m),
        find_latest(s.push(m), m.id) == Some(m),
{
    assert(s.push(m).last() == m);
}

/// Law: an insert for one id leaves every other id's lookups unchanged.
pub proof fn lemma_insert_other_id_unchanged(s: Seq<ModelVersionV>, m: ModelVersionV, id: Seq<char>)
    requires
        m.id != id,
    ensures
        find_latest(s.push(m), id) == find_latest(s, id),
        forall|ver: Seq<char>| find_version(s.push(m), id, ver) == find_version(s, id, ver),
{
    assert(s.push(m).last() == m);
    assert(s.push(m).drop_last() =~= s);
}

} // verus!
