use vstd::prelude::*;
use dashmap::DashMap;
use crate::boat_info::{BoatInfo, BoatInfoView};
use crate::common::errors::{BoatsRegistryError, BoatsRegistryResult};

verus! {

/// dashmap's concurrent hash map.
#[verifier::external_type_specification]
#[verifier::external_body]
#[verifier::reject_recursive_types(K)]
#[verifier::reject_recursive_types(V)]
#[verifier::reject_recursive_types(S)]
pub struct ExDashMap<K, V, S>(DashMap<K, V, S>);

/// What a map of boats holds: the data of each boat by its MMSI.
pub uninterp spec fn registry_contents(m: DashMap<u32, BoatInfo>) -> Map<u32, BoatInfoView>;

/// A new map, by `DashMap::new` of dashmap; it holds nothing.
#[verifier::external_body]
fn registry_new() -> (r: DashMap<u32, BoatInfo>)
    ensures
        registry_contents(r) =~= Map::empty(),
{
    DashMap::new()
}

/// dashmap's `DashMap::insert`: the key now maps to the value; the value it
/// mapped to before, if any, is handed back.
#[verifier::external_body]
fn registry_insert(m: &mut DashMap<u32, BoatInfo>, k: u32, v: BoatInfo) -> (r: Option<BoatInfo>)
    ensures
        registry_contents(*final(m)) == registry_contents(*old(m)).insert(k, v@),
        r is Some == registry_contents(*old(m)).contains_key(k),
        r is Some ==> r.unwrap()@ == registry_contents(*old(m))[k],
{
    m.insert(k, v)
}

/// dashmap's `DashMap::remove`: the key no longer maps to anything; the
/// value it mapped to, if any, is handed back.
#[verifier::external_body]
fn registry_remove(m: &mut DashMap<u32, BoatInfo>, k: u32) -> (r: Option<BoatInfo>)
    ensures
        registry_contents(*final(m)) == registry_contents(*old(m)).remove(k),
        r is Some == registry_contents(*old(m)).contains_key(k),
        r is Some ==> r.unwrap()@ == registry_contents(*old(m))[k],
{
    m.remove(&k).map(|(_, b)| b)
}

/// dashmap's `DashMap::get`, the value copied out of the guard it hands back.
#[verifier::external_body]
fn registry_get(m: &DashMap<u32, BoatInfo>, k: u32) -> (r: Option<BoatInfo>)
    ensures
        r is Some == registry_contents(*m).contains_key(k),
        r is Some ==> r.unwrap()@ == registry_contents(*m)[k],
{
    m.get(&k).map(|b| b.value().clone())
}

/// dashmap's `DashMap::contains_key`.
#[verifier::external_body]
fn registry_contains(m: &DashMap<u32, BoatInfo>, k: u32) -> (r: bool)
    ensures
        r == registry_contents(*m).contains_key(k),
{
    m.contains_key(&k)
}

/// dashmap's `DashMap::len`: the number of keys.
#[verifier::external_body]
fn registry_len(m: &DashMap<u32, BoatInfo>) -> (r: usize)
    ensures
        r == registry_contents(*m).dom().len(),
{
    m.len()
}

/// Every entry, walked with dashmap's `DashMap::iter` and copied out. The
/// order is that of the walk, which the hashing decides: what is claimed is
/// only that each key comes once, with its value, and every key comes.
#[verifier::external_body]
fn registry_entries(m: &DashMap<u32, BoatInfo>) -> (r: Box<[(u32, BoatInfo)]>)
    ensures
        r@.len() == registry_contents(*m).dom().len(),
        forall|i: int|
            0 <= i < r@.len() ==> registry_contents(*m).contains_key(#[trigger] r@[i].0)
                && r@[i].1@ == registry_contents(*m)[r@[i].0],
        forall|i: int, j: int| 0 <= i < j < r@.len() ==> #[trigger] r@[i].0 != #[trigger] r@[j].0,
{
    m.iter().map(|e| (*e.key(), e.value().clone())).collect()
}

/// The boats heard of, by MMSI.
pub struct BoatsInfoRegistry {
    registry: DashMap<u32, BoatInfo>,
}

impl View for BoatsInfoRegistry {
    type V = Map<u32, BoatInfoView>;

    closed spec fn view(&self) -> Map<u32, BoatInfoView> {
        registry_contents(self.registry)
    }
}

impl BoatsInfoRegistry {
    /// A registry of no boat.
    pub fn new() -> (r: Self)
        ensures
            r@ == Map::<u32, BoatInfoView>::empty(),
    {
        BoatsInfoRegistry { registry: registry_new() }
    }

    /// Records a boat under its MMSI; refused when that MMSI is already
    /// recorded.
    pub fn register(&mut self, info: BoatInfo) -> (r: BoatsRegistryResult<()>)
        ensures
            old(self)@.contains_key(info@.static_data.mmsi) ==> r == Err::<(), BoatsRegistryError>(
                BoatsRegistryError::MmsiAlreadyRegistered,
            ) && final(self)@ == old(self)@,
            !old(self)@.contains_key(info@.static_data.mmsi) ==> r is Ok && final(self)@ == old(
                self,
            )@.insert(info@.static_data.mmsi, info@),
    {
        let mmsi = match info.get_static_data() {
            Ok(s) => s.mmsi,
            Err(e) => return Err(BoatsRegistryError::BoatInfo(e)),
        };
        if self.is_registered(&mmsi) {
            Err(BoatsRegistryError::MmsiAlreadyRegistered)
        } else {
            let _ = registry_insert(&mut self.registry, mmsi, info);
            Ok(())
        }
    }

    /// Whether a boat is recorded under `mmsi`.
    pub fn is_registered(&self, mmsi: &u32) -> (r: bool)
        ensures
            r == self@.contains_key(*mmsi),
    {
        registry_contains(&self.registry, *mmsi)
    }

    /// A copy of the data recorded under `mmsi`; an error when there is none.
    pub fn get(&self, mmsi: u32) -> (r: BoatsRegistryResult<BoatInfo>)
        ensures
            self@.contains_key(mmsi) ==> (r matches Ok(b) && b@ == self@[mmsi]),
            !self@.contains_key(mmsi) ==> r == Err::<BoatInfo, BoatsRegistryError>(
                BoatsRegistryError::UnkownMmsi,
            ),
    {
        match registry_get(&self.registry, mmsi) {
            Some(b) => Ok(b),
            None => Err(BoatsRegistryError::UnkownMmsi),
        }
    }

    /// Replaces the data recorded under the new data's MMSI and hands back
    /// the data it replaces; when nothing is recorded under that MMSI,
    /// refused with [`BoatsRegistryError::MmsiAlreadyRegistered`].
    pub fn update(&mut self, new_boat_info: BoatInfo) -> (r: BoatsRegistryResult<BoatInfo>)
        ensures
            ({
                let k = new_boat_info@.static_data.mmsi;
                &&& old(self)@.contains_key(k) ==> (r matches Ok(b) && b@ == old(self)@[k]
                    && final(self)@ == old(self)@.insert(k, new_boat_info@))
                &&& !old(self)@.contains_key(k) ==> r == Err::<BoatInfo, BoatsRegistryError>(
                    BoatsRegistryError::MmsiAlreadyRegistered,
                ) && final(self)@ == old(self)@
            }),
    {
        let mmsi = match new_boat_info.get_static_data() {
            Ok(s) => s.mmsi,
            Err(e) => return Err(BoatsRegistryError::BoatInfo(e)),
        };
        if self.is_registered(&mmsi) {
            Ok(registry_insert(&mut self.registry, mmsi, new_boat_info).unwrap())
        } else {
            Err(BoatsRegistryError::MmsiAlreadyRegistered)
        }
    }

    /// Forgets the boat recorded under `mmsi` and hands back its data; an
    /// error when there is none.
    pub fn unregister(&mut self, mmsi: u32) -> (r: BoatsRegistryResult<BoatInfo>)
        ensures
            old(self)@.contains_key(mmsi) ==> (r matches Ok(b) && b@ == old(self)@[mmsi]
                && final(self)@ == old(self)@.remove(mmsi)),
            !old(self)@.contains_key(mmsi) ==> r == Err::<BoatInfo, BoatsRegistryError>(
                BoatsRegistryError::UnkownMmsi,
            ) && final(self)@ == old(self)@,
    {
        if self.is_registered(&mmsi) {
            Ok(registry_remove(&mut self.registry, mmsi).unwrap())
        } else {
            Err(BoatsRegistryError::UnkownMmsi)
        }
    }

    /// The number of boats recorded.
    pub fn length(&self) -> (r: usize)
        ensures
            r == self@.dom().len(),
    {
        registry_len(&self.registry)
    }

    /// Every boat recorded with its MMSI, each once, in no set order.
    pub fn export(&self) -> (r: Box<[(u32, BoatInfo)]>)
        ensures
            r@.len() == self@.dom().len(),
            forall|i: int|
                0 <= i < r@.len() ==> self@.contains_key(#[trigger] r@[i].0) && r@[i].1@
                    == self@[r@[i].0],
            forall|i: int, j: int| 0 <= i < j < r@.len() ==> #[trigger] r@[i].0 != #[trigger] r@[j].0,
    {
        registry_entries(&self.registry)
    }
}

/// A boat that is registered is then read back as it was registered, and
/// forgetting it again leaves the registry as it was before.
pub proof fn lemma_register_get_unregister(m: Map<u32, BoatInfoView>, info: BoatInfoView)
    requires
        !m.contains_key(info.static_data.mmsi),
    ensures
        m.insert(info.static_data.mmsi, info).contains_key(info.static_data.mmsi),
        m.insert(info.static_data.mmsi, info)[info.static_data.mmsi] == info,
        m.insert(info.static_data.mmsi, info).remove(info.static_data.mmsi) == m,
{
    assert(m.insert(info.static_data.mmsi, info).remove(info.static_data.mmsi) =~= m);
}

} // verus!
