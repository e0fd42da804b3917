//! Which DeepLynx data sources have a serving task, and for which container.

use vstd::prelude::*;
use crate::config::FileConfig;
use std::collections::HashMap;

verus! {

broadcast use vstd::std_specs::hash::group_hash_axioms;

/// The data sources that already have a serving task: each data-source id
/// is mapped to the container id its task uploads into.  A data source is
/// served once, by the task of the first file entry that names it.
pub struct DataSourceRegistry {
    sources: HashMap<u64, u64>,
}

impl View for DataSourceRegistry {
    type V = Map<u64, u64>;

    closed spec fn view(&self) -> Map<u64, u64> {
        self.sources@
    }
}

/// The registry after asking for a task for `id` (if any) in `container_id`:
/// an id already present keeps its first container.
pub open spec fn registered(m: Map<u64, u64>, id: Option<u64>, container_id: u64) -> Map<u64, u64> {
    match id {
        Some(i) => if m.contains_key(i) {
            m
        } else {
            m.insert(i, container_id)
        },
        None => m,
    }
}

/// The registry after walking file entries in order, registering each
/// entry's timeseries data source and then its metadata data source.
pub open spec fn registered_all(m: Map<u64, u64>, files: Seq<FileConfig>) -> Map<u64, u64>
    decreases files.len(),
{
    if files.len() == 0 {
        m
    } else {
        let f = files.last();
        let before = registered_all(m, files.drop_last());
        registered(
            registered(before, f.data_source_id, f.container_id),
            f.metadata_data_source_id,
            f.container_id,
        )
    }
}

/// Whether `id` is named by some file entry, as a timeseries or metadata data source.
pub open spec fn configured_source(files: Seq<FileConfig>, id: u64) -> bool {
    exists|j: int|
        0 <= j < files.len() && (#[trigger] files[j].data_source_id == Some(id)
            || files[j].metadata_data_source_id == Some(id))
}

impl DataSourceRegistry {
    /// An empty registry.
    pub fn new() -> (r: Self)
        ensures
            r@ == Map::<u64, u64>::empty(),
    {
        DataSourceRegistry { sources: HashMap::new() }
    }

    /// Whether `id` already has a serving task.
    pub fn contains(&self, id: u64) -> (b: bool)
        ensures
            b == self@.contains_key(id),
    {
        self.sources.contains_key(&id)
    }

    /// The container that the task of `id` uploads into, if it has one.
    pub fn container_of(&self, id: u64) -> (c: Option<u64>)
        ensures
            c == (if self@.contains_key(id) { Some(self@[id]) } else { None::<u64> }),
    {
        match self.sources.get(&id) {
            Some(c) => Some(*c),
            None => None,
        }
    }

    /// Asks for a serving task for the data source `id` (nothing happens for
    /// `None`).  Returns whether a task has to be started now: that is, whether
    /// `id` was not registered before.
    pub fn register(&mut self, id: Option<u64>, container_id: u64) -> (started: bool)
        ensures
            final(self)@ == registered(old(self)@, id, container_id),
            started == (id is Some && !old(self)@.contains_key(id->0)),
    {
        match id {
            None => false,
            Some(i) => {
                if self.sources.contains_key(&i) {
                    false
                } else {
                    self.sources.insert(i, container_id);
                    true
                }
            },
        }
    }

    /// Registers the data sources of every file entry, in order.
    pub fn register_all(&mut self, files: &Vec<FileConfig>)
        ensures
            final(self)@ == registered_all(old(self)@, files@),
    {
        let mut i: usize = 0;
        while i < files.len()
            invariant
                i <= files@.len(),
                self@ == registered_all(old(self)@, files@.take(i as int)),
            decreases files@.len() - i,
        {
            let f = &files[i];
            assert(files@.take(i as int + 1).drop_last() =~= files@.take(i as int));
            self.register(f.data_source_id, f.container_id);
            self.register(f.metadata_data_source_id, f.container_id);
            i = i + 1;
        }
        assert(files@.take(files@.len() as int) =~= files@);
    }
}

/// Registering is idempotent: asking twice for the same data source is the
/// same as asking once, whatever the second container id.
pub proof fn lemma_register_idempotent(m: Map<u64, u64>, id: Option<u64>, c1: u64, c2: u64)
    ensures
        registered(registered(m, id, c1), id, c2) == registered(m, id, c1),
{
}

/// The first registration wins: a registered data source keeps its container.
pub proof fn lemma_first_container_kept(m: Map<u64, u64>, id: Option<u64>, c: u64, k: u64)
    requires
        m.contains_key(k),
    ensures
        registered(m, id, c).contains_key(k),
        registered(m, id, c)[k] == m[k],
{
}

/// After registering all file entries into an empty registry, exactly the
/// configured data sources have a serving task.
pub proof fn lemma_registered_all_is_configured(files: Seq<FileConfig>, id: u64)
    ensures
        registered_all(Map::empty(), files).contains_key(id) <==> configured_source(files, id),
    decreases files.len(),
{
    if files.len() > 0 {
        let init = files.drop_last();
        lemma_registered_all_is_configured(init, id);
        if configured_source(files, id) {
            let j = choose|j: int|
                0 <= j < files.len() && (#[trigger] files[j].data_source_id == Some(id)
                    || files[j].metadata_data_source_id == Some(id));
            if j < files.len() - 1 {
                assert(init[j] == files[j]);
            }
        }
        if configured_source(init, id) {
            let j = choose|j: int|
                0 <= j < init.len() && (#[trigger] init[j].data_source_id == Some(id)
                    || init[j].metadata_data_source_id == Some(id));
            assert(files[j] == init[j]);
        }
    }
}

} // verus!
