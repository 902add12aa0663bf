//! Bookkeeping of the GPU buffers that back storage handles. The buffer objects
//! themselves live with the device; this registry maps each storage id to the
//! slot of its buffer and the buffer's GPU address.

use vstd::prelude::*;

verus! {

/// A region of a storage buffer.
#[derive(Debug, Clone, Copy, PartialEq, Eq, Structural)]
pub struct StorageHandle {
    pub id: u64,
    pub offset: u64,
    pub size: u64,
}

/// What a kernel binding resolves to.
#[derive(Debug, Clone, Copy, PartialEq, Eq, Structural)]
pub struct Metal4Resource {
    pub size: u64,
    pub offset: usize,
    pub storage_id: u64,
    pub gpu_address: u64,
}

/// A registered buffer: the slot that holds the buffer object and its GPU address.
#[derive(Debug, Clone, Copy, PartialEq, Eq, Structural)]
pub struct BufferEntry {
    pub slot: usize,
    pub gpu_address: u64,
}

/// A `hashbrown::HashMap` from storage ids to registered buffers. Verus cannot
/// be given the map type itself (its allocator bound is not nameable from here),
/// so the map lives in this opaque wrapper.
#[verifier::external_body]
pub struct BufferTable {
    map: hashbrown::HashMap<u64, BufferEntry>,
}

/// The entries of a buffer table.
pub uninterp spec fn table_entries(t: BufferTable) -> Map<u64, BufferEntry>;

/// The entry of `id`, if registered.
pub open spec fn lookup(m: Map<u64, BufferEntry>, id: u64) -> Option<BufferEntry> {
    if m.contains_key(id) {
        Some(m[id])
    } else {
        None
    }
}

/// `hashbrown::HashMap::new`: a map with no entries.
#[verifier::external_body]
fn table_new() -> (r: BufferTable)
    ensures
        table_entries(r) =~= Map::empty(),
{
    BufferTable { map: hashbrown::HashMap::new() }
}

/// `hashbrown::HashMap::get`: the value stored under `id`, if any.
#[verifier::external_body]
fn table_get(t: &BufferTable, id: u64) -> (r: Option<BufferEntry>)
    ensures
        r == lookup(table_entries(*t), id),
{
    t.map.get(&id).copied()
}

/// `hashbrown::HashMap::insert`: stores `e` under `id` and returns the value it replaced.
#[verifier::external_body]
fn table_insert(t: &mut BufferTable, id: u64, e: BufferEntry) -> (r: Option<BufferEntry>)
    ensures
        table_entries(*final(t)) == table_entries(*old(t)).insert(id, e),
        r == lookup(table_entries(*old(t)), id),
{
    t.map.insert(id, e)
}

/// `hashbrown::HashMap::remove`: removes `id` and returns the value it held.
#[verifier::external_body]
fn table_remove(t: &mut BufferTable, id: u64) -> (r: Option<BufferEntry>)
    ensures
        table_entries(*final(t)) == table_entries(*old(t)).remove(id),
        r == lookup(table_entries(*old(t)), id),
{
    t.map.remove(&id)
}

/// Storage of GPU buffers with a fixed allocation alignment. Storage ids are
/// drawn from a counter, so every registered id is below the next one to be issued.
pub struct Metal4Storage {
    alignment: usize,
    buffers: BufferTable,
    next_id: u64,
}

impl Metal4Storage {
    /// The registered buffers by storage id.
    pub closed spec fn entries(&self) -> Map<u64, BufferEntry> {
        table_entries(self.buffers)
    }

    /// The storage id the next registration receives.
    pub closed spec fn spec_next_id(&self) -> u64 {
        self.next_id
    }

    /// Every registered id was issued before the counter's current value.
    pub open spec fn wf(&self) -> bool {
        forall|k: u64| #[trigger] self.entries().contains_key(k) ==> k < self.spec_next_id()
    }

    /// The alignment allocations are made with.
    pub closed spec fn spec_alignment(&self) -> usize {
        self.alignment
    }

    /// An empty storage.
    pub fn new(alignment: usize) -> (s: Self)
        ensures
            s.entries() == Map::<u64, BufferEntry>::empty(),
            s.spec_alignment() == alignment,
            s.spec_next_id() == 0,
            s.wf(),
    {
        Metal4Storage { alignment, buffers: table_new(), next_id: 0 }
    }

    /// The storage id the next registration receives.
    pub fn next_id(&self) -> (r: u64)
        ensures
            r == self.spec_next_id(),
    {
        self.next_id
    }

    /// The allocation alignment.
    pub fn alignment(&self) -> (r: usize)
        ensures
            r == self.spec_alignment(),
    {
        self.alignment
    }

    /// The slot of the buffer registered under `id`.
    pub fn get_buffer(&self, id: u64) -> (r: Option<usize>)
        ensures
            r == (match lookup(self.entries(), id) {
                Some(e) => Some(e.slot),
                None => None,
            }),
    {
        match table_get(&self.buffers, id) {
            Some(e) => Some(e.slot),
            None => None,
        }
    }

    /// The resource a handle resolves to: its region and the GPU address of its
    /// buffer (zero when the buffer is not registered).
    pub fn get(&mut self, handle: &StorageHandle) -> (r: Metal4Resource)
        requires
            old(self).wf(),
        ensures
            final(self).wf(),
            final(self).entries() == old(self).entries(),
            final(self).spec_alignment() == old(self).spec_alignment(),
            final(self).spec_next_id() == old(self).spec_next_id(),
            r == (Metal4Resource {
                size: handle.size,
                offset: handle.offset as usize,
                storage_id: handle.id,
                gpu_address: match lookup(old(self).entries(), handle.id) {
                    Some(e) => e.gpu_address,
                    None => 0,
                },
            }),
    {
        let addr = match table_get(&self.buffers, handle.id) {
            Some(e) => e.gpu_address,
            None => 0,
        };
        Metal4Resource {
            size: handle.size,
            offset: handle.offset as usize,
            storage_id: handle.id,
            gpu_address: addr,
        }
    }

    /// Registers a freshly created buffer of `size` bytes under a new storage id,
    /// one that no registered buffer holds, and returns the handle covering the
    /// whole buffer. The id counter must not be exhausted.
    pub fn register(&mut self, slot: usize, gpu_address: u64, size: u64) -> (h: StorageHandle)
        requires
            old(self).wf(),
            old(self).spec_next_id() < u64::MAX,
        ensures
            final(self).wf(),
            h == (StorageHandle { id: old(self).spec_next_id(), offset: 0, size }),
            !old(self).entries().contains_key(h.id),
            final(self).entries() == old(self).entries().insert(
                h.id,
                BufferEntry { slot, gpu_address },
            ),
            final(self).spec_next_id() == old(self).spec_next_id() + 1,
            final(self).spec_alignment() == old(self).spec_alignment(),
    {
        let id = self.next_id;
        self.next_id = id + 1;
        let _ = table_insert(&mut self.buffers, id, BufferEntry { slot, gpu_address });
        proof {
            assert forall|k: u64| #[trigger] self.entries().contains_key(k) implies k < self.spec_next_id() by {
                if k != id {
                    assert(old(self).entries().contains_key(k));
                }
            }
        }
        StorageHandle { id, offset: 0, size }
    }

    /// Forgets the buffer registered under `id` and returns its slot, so that
    /// the buffer object can be released.
    pub fn dealloc(&mut self, id: u64) -> (r: Option<usize>)
        requires
            old(self).wf(),
        ensures
            final(self).wf(),
            final(self).entries() == old(self).entries().remove(id),
            final(self).spec_alignment() == old(self).spec_alignment(),
            final(self).spec_next_id() == old(self).spec_next_id(),
            r == (match lookup(old(self).entries(), id) {
                Some(e) => Some(e.slot),
                None => None,
            }),
    {
        match table_remove(&mut self.buffers, id) {
            Some(e) => Some(e.slot),
            None => None,
        }
    }
}

/// In a consistent storage the id the next registration receives is held by
/// no registered buffer, so a registration never replaces a live buffer.
pub proof fn law_next_id_unused(s: Metal4Storage)
    requires
        s.wf(),
    ensures
        !s.entries().contains_key(s.spec_next_id()),
{
}

/// A buffer registered under an id resolves to its GPU address until it is deallocated.
pub proof fn law_register_then_get(s0: Map<u64, BufferEntry>, id: u64, e: BufferEntry)
    ensures
        lookup(s0.insert(id, e), id) == Some(e),
{
}

/// Registering or releasing one id leaves every other id's entry unchanged.
pub proof fn law_other_ids_untouched(s0: Map<u64, BufferEntry>, id: u64, other: u64, e: BufferEntry)
    requires
        id != other,
    ensures
        lookup(s0.insert(id, e), other) == lookup(s0, other),
        lookup(s0.remove(id), other) == lookup(s0, other),
{
}

/// After deallocation an id resolves to no buffer.
pub proof fn law_dealloc_forgets(s0: Map<u64, BufferEntry>, id: u64)
    ensures
        lookup(s0.remove(id), id) is None,
{
}

} // verus!
