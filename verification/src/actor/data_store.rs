//! What the execution of a network transaction reads: one account at one reference block, the
//! storage maps of the accounts that were loaded, and note scripts.

use miden_protocol::note::NoteScript;
use vstd::prelude::*;

use crate::account::AccountId;
use crate::actor::script::{copy_script, RootedScript};
use crate::word::Word;

verus! {

// ERRORS
// ================================================================================================

/// What is asked of the node's services.
#[derive(Debug, Clone, Copy, PartialEq, Eq, Structural)]
pub enum Query {
    AccountInputs,
    VaultAssetWitnesses,
    StorageMapWitness,
    LocalNoteScript,
    RemoteNoteScript,
}

/// Why data cannot be given.
#[derive(Debug, Clone, Copy, PartialEq, Eq, Structural)]
pub enum DataStoreError {
    /// The account is not the one that the transaction is for.
    AccountNotFound(AccountId),
    /// The block is not the reference block.
    BlockNotFound(u32),
    /// No block was named.
    NoReferenceBlock,
    /// The storage map was not seen before.
    StorageSlotNotRegistered,
    /// A service did not answer as it should.
    QueryFailed(Query),
}

impl DataStoreError {
    /// The error in words, but for the two that only name what was not found.
    pub open spec fn spec_message(self) -> Option<Seq<char>> {
        match self {
            DataStoreError::AccountNotFound(_) => None,
            DataStoreError::BlockNotFound(_) => None,
            DataStoreError::NoReferenceBlock => Some("no reference block requested"@),
            DataStoreError::StorageSlotNotRegistered => {
                Some("requested storage slot has not been registered"@)
            },
            DataStoreError::QueryFailed(Query::AccountInputs) => {
                Some("failed to get account inputs"@)
            },
            DataStoreError::QueryFailed(Query::VaultAssetWitnesses) => {
                Some("failed to get vault asset witnesses"@)
            },
            DataStoreError::QueryFailed(Query::StorageMapWitness) => {
                Some("failed to get storage map witness"@)
            },
            DataStoreError::QueryFailed(Query::LocalNoteScript) => {
                Some("failed to look up note script in local DB"@)
            },
            DataStoreError::QueryFailed(Query::RemoteNoteScript) => {
                Some("failed to retrieve note script from store"@)
            },
        }
    }

    /// The error in words, but for the two that only name what was not found.
    pub fn message(&self) -> (r: Option<&'static str>)
        ensures
            match self.spec_message() {
                Some(text) => r matches Some(message) && message@ == text,
                None => r is None,
            },
    {
        match self {
            DataStoreError::AccountNotFound(_) => None,
            DataStoreError::BlockNotFound(_) => None,
            DataStoreError::NoReferenceBlock => Some("no reference block requested"),
            DataStoreError::StorageSlotNotRegistered => {
                Some("requested storage slot has not been registered")
            },
            DataStoreError::QueryFailed(Query::AccountInputs) => {
                Some("failed to get account inputs")
            },
            DataStoreError::QueryFailed(Query::VaultAssetWitnesses) => {
                Some("failed to get vault asset witnesses")
            },
            DataStoreError::QueryFailed(Query::StorageMapWitness) => {
                Some("failed to get storage map witness")
            },
            DataStoreError::QueryFailed(Query::LocalNoteScript) => {
                Some("failed to look up note script in local DB")
            },
            DataStoreError::QueryFailed(Query::RemoteNoteScript) => {
                Some("failed to retrieve note script from store")
            },
        }
    }
}

// STORAGE SLOTS
// ================================================================================================

/// What a storage slot holds.
#[derive(Debug, Clone, Copy, PartialEq, Eq, Structural)]
pub enum StorageSlotType {
    ValueSlot,
    MapSlot,
}

/// The header of a storage slot. The value of a map is its root.
#[derive(Debug)]
pub struct StorageSlotHeader {
    pub name: String,
    pub slot_type: StorageSlotType,
    pub value: Word,
}

/// The header of a storage slot, as plain values.
pub struct SlotModel {
    pub name: Seq<char>,
    pub slot_type: StorageSlotType,
    pub value: Word,
}

impl View for StorageSlotHeader {
    type V = SlotModel;

    open spec fn view(&self) -> SlotModel {
        SlotModel { name: self.name@, slot_type: self.slot_type, value: self.value }
    }
}

/// The headers of storage slots, as plain values.
pub open spec fn slot_models(headers: Seq<StorageSlotHeader>) -> Seq<SlotModel> {
    headers.map_values(|header: StorageSlotHeader| header@)
}

/// The names of storage maps by account and root, after the slots of an account were registered.
pub open spec fn with_slots(
    names: Map<(u128, Word), Seq<char>>,
    account_id: u128,
    slots: Seq<SlotModel>,
) -> Map<(u128, Word), Seq<char>>
    decreases slots.len(),
{
    if slots.len() == 0 {
        names
    } else {
        let before = with_slots(names, account_id, slots.drop_last());
        let slot = slots.last();
        if slot.slot_type == StorageSlotType::MapSlot {
            before.insert((account_id, slot.value), slot.name)
        } else {
            before
        }
    }
}

/// After the slots of an account were registered, each of its maps is known under its root, by the
/// name of the last slot that holds it; nothing else changes.
pub proof fn registered_maps_are_known(
    names: Map<(u128, Word), Seq<char>>,
    account_id: u128,
    slots: Seq<SlotModel>,
    key: (u128, Word),
)
    ensures
        ({
            let after = with_slots(names, account_id, slots);
            if exists|i: int|
                0 <= i < slots.len() && (#[trigger] slots[i]).slot_type == StorageSlotType::MapSlot
                    && (account_id, slots[i].value) == key {
                &&& after.contains_key(key)
                &&& exists|i: int|
                    {
                        &&& 0 <= i < slots.len()
                        &&& (#[trigger] slots[i]).slot_type == StorageSlotType::MapSlot
                        &&& (account_id, slots[i].value) == key
                        &&& slots[i].name == after[key]
                        &&& forall|j: int|
                            i < j < slots.len() && (
                            #[trigger] slots[j]).slot_type == StorageSlotType::MapSlot ==> (
                                account_id,
                                slots[j].value,
                            ) != key
                    }
            } else {
                &&& after.contains_key(key) <==> names.contains_key(key)
                &&& after.contains_key(key) ==> after[key] == names[key]
            }
        }),
    decreases slots.len(),
{
    if slots.len() > 0 {
        let rest = slots.drop_last();
        let n = rest.len() as int;
        let after = with_slots(names, account_id, slots);
        registered_maps_are_known(names, account_id, rest, key);
        let hit = slots[n].slot_type == StorageSlotType::MapSlot && (account_id, slots[n].value) == key;
        if hit {
            assert(slots[n].name == after[key]);
        } else if exists|i: int|
            0 <= i < slots.len() && (#[trigger] slots[i]).slot_type == StorageSlotType::MapSlot && (
                account_id,
                slots[i].value,
            ) == key {
            let i0 = choose|i: int|
                0 <= i < slots.len() && (#[trigger] slots[i]).slot_type == StorageSlotType::MapSlot && (
                    account_id,
                    slots[i].value,
                ) == key;
            assert(rest[i0].slot_type == StorageSlotType::MapSlot);
            let i = choose|i: int|
                {
                    &&& 0 <= i < rest.len()
                    &&& (#[trigger] rest[i]).slot_type == StorageSlotType::MapSlot
                    &&& (account_id, rest[i].value) == key
                    &&& rest[i].name == with_slots(names, account_id, rest)[key]
                    &&& forall|j: int|
                        i < j < rest.len() && (
                        #[trigger] rest[j]).slot_type == StorageSlotType::MapSlot ==> (
                            account_id,
                            rest[j].value,
                        ) != key
                };
            assert(slots[i].name == after[key]);
            assert forall|j: int|
                i < j < slots.len() && (
                #[trigger] slots[j]).slot_type == StorageSlotType::MapSlot implies (
                account_id,
                slots[j].value,
            ) != key by {
                if j < n {
                    assert(rest[j].slot_type == StorageSlotType::MapSlot);
                }
            }
        } else {
            assert forall|i: int|
                0 <= i < rest.len() && (
                #[trigger] rest[i]).slot_type == StorageSlotType::MapSlot implies (
                account_id,
                rest[i].value,
            ) != key by {
                assert(slots[i].slot_type == StorageSlotType::MapSlot);
            }
        }
    }
}

#[derive(Debug)]
struct SlotEntry {
    account_id: AccountId,
    map_root: Word,
    name: String,
}

spec fn entry_names(entries: Seq<SlotEntry>) -> Map<(u128, Word), Seq<char>>
    decreases entries.len(),
{
    if entries.len() == 0 {
        Map::empty()
    } else {
        let entry = entries.last();
        entry_names(entries.drop_last()).insert((entry.account_id@, entry.map_root), entry.name@)
    }
}

spec fn distinct_entries(entries: Seq<SlotEntry>) -> bool {
    forall|i: int, j: int|
        0 <= i < j < entries.len() ==> (
            (#[trigger] entries[i]).account_id@,
            entries[i].map_root,
        ) != ((#[trigger] entries[j]).account_id@, entries[j].map_root)
}

proof fn lemma_entry_names(entries: Seq<SlotEntry>)
    requires
        distinct_entries(entries),
    ensures
        forall|i: int|
            0 <= i < entries.len() ==> {
                let key = ((#[trigger] entries[i]).account_id@, entries[i].map_root);
                entry_names(entries).contains_key(key) && entry_names(entries)[key]
                    == entries[i].name@
            },
        forall|key: (u128, Word)| #[trigger]
            entry_names(entries).contains_key(key) ==> exists|i: int|
                0 <= i < entries.len() && ((#[trigger] entries[i]).account_id@, entries[i].map_root)
                    == key,
    decreases entries.len(),
{
    if entries.len() > 0 {
        let rest = entries.drop_last();
        let n = rest.len() as int;
        assert forall|i: int, j: int| 0 <= i < j < rest.len() implies (
            (#[trigger] rest[i]).account_id@,
            rest[i].map_root,
        ) != ((#[trigger] rest[j]).account_id@, rest[j].map_root) by {
            assert((entries[i].account_id@, entries[i].map_root) != (
                entries[j].account_id@,
                entries[j].map_root,
            ));
        }
        lemma_entry_names(rest);
        assert forall|i: int| 0 <= i < entries.len() implies {
            let key = ((#[trigger] entries[i]).account_id@, entries[i].map_root);
            entry_names(entries).contains_key(key) && entry_names(entries)[key]
                == entries[i].name@
        } by {
            if i < n {
                assert(rest[i] == entries[i]);
                assert((entries[i].account_id@, entries[i].map_root) != (
                    entries[n].account_id@,
                    entries[n].map_root,
                ));
            }
        }
        assert forall|key: (u128, Word)| #[trigger]
            entry_names(entries).contains_key(key) implies exists|i: int|
            0 <= i < entries.len() && ((#[trigger] entries[i]).account_id@, entries[i].map_root)
                == key by {
            if key == (entries[n].account_id@, entries[n].map_root) {
            } else {
                assert(entry_names(rest).contains_key(key));
                let i = choose|i: int|
                    0 <= i < rest.len() && ((#[trigger] rest[i]).account_id@, rest[i].map_root)
                        == key;
                assert((entries[i].account_id@, entries[i].map_root) == key);
            }
        }
    }
}

/// The names of the storage maps that were seen, by account and root.
#[derive(Debug)]
pub struct StorageSlots {
    entries: Vec<SlotEntry>,
}

impl View for StorageSlots {
    type V = Map<(u128, Word), Seq<char>>;

    closed spec fn view(&self) -> Map<(u128, Word), Seq<char>> {
        entry_names(self.entries@)
    }
}

impl StorageSlots {
    /// No account and root is there twice.
    pub closed spec fn wf(&self) -> bool {
        distinct_entries(self.entries@)
    }

    /// No map was seen.
    pub fn new() -> (r: Self)
        ensures
            r.wf(),
            r@ == Map::<(u128, Word), Seq<char>>::empty(),
    {
        StorageSlots { entries: Vec::new() }
    }

    fn position(&self, account_id: AccountId, map_root: Word) -> (r: Option<usize>)
        requires
            self.wf(),
        ensures
            match r {
                Some(i) => {
                    &&& i < self.entries@.len()
                    &&& self.entries@[i as int].account_id@ == account_id@
                    &&& self.entries@[i as int].map_root == map_root
                    &&& self@.contains_key((account_id@, map_root))
                    &&& self@[(account_id@, map_root)] == self.entries@[i as int].name@
                },
                None => {
                    &&& !self@.contains_key((account_id@, map_root))
                    &&& forall|j: int|
                        0 <= j < self.entries@.len() ==> (
                            (#[trigger] self.entries@[j]).account_id@,
                            self.entries@[j].map_root,
                        ) != (account_id@, map_root)
                },
            },
    {
        proof {
            lemma_entry_names(self.entries@);
        }
        let value: u128 = account_id.value();
        let mut i: usize = 0;
        while i < self.entries.len()
            invariant
                value == account_id@,
                i <= self.entries@.len(),
                forall|j: int|
                    0 <= j < i ==> (
                        (#[trigger] self.entries@[j]).account_id@,
                        self.entries@[j].map_root,
                    ) != (account_id@, map_root),
                forall|i: int|
                    0 <= i < self.entries@.len() ==> {
                        let key = (
                            (#[trigger] self.entries@[i]).account_id@,
                            self.entries@[i].map_root,
                        );
                        self@.contains_key(key) && self@[key] == self.entries@[i].name@
                    },
            decreases self.entries@.len() - i,
        {
            let entry = &self.entries[i];
            if entry.account_id.value() == value && entry.map_root == map_root {
                return Some(i);
            }
            i = i + 1;
        }
        None
    }

    /// The name of the map of an account with the given root.
    pub fn get(&self, account_id: AccountId, map_root: Word) -> (r: Option<&str>)
        requires
            self.wf(),
        ensures
            match r {
                Some(name) => self@.contains_key((account_id@, map_root)) && name@ == self@[(
                    account_id@,
                    map_root,
                )],
                None => !self@.contains_key((account_id@, map_root)),
            },
    {
        match self.position(account_id, map_root) {
            Some(i) => Some(self.entries[i].name.as_str()),
            None => None,
        }
    }

    /// Notes the name of a map in place of one that was known for it.
    fn insert(&mut self, account_id: AccountId, map_root: Word, name: String)
        requires
            old(self).wf(),
        ensures
            final(self).wf(),
            final(self)@ == old(self)@.insert((account_id@, map_root), name@),
    {
        proof {
            lemma_entry_names(self.entries@);
        }
        let ghost key = (account_id@, map_root);
        let ghost before = self.entries@;
        let entry = SlotEntry { account_id, map_root, name };
        match self.position(account_id, map_root) {
            Some(i) => {
                let ghost after = before.update(i as int, entry);
                proof {
                    assert forall|j: int, k: int| 0 <= j < k < after.len() implies (
                        (#[trigger] after[j]).account_id@,
                        after[j].map_root,
                    ) != ((#[trigger] after[k]).account_id@, after[k].map_root) by {
                        assert((before[j].account_id@, before[j].map_root) != (
                            before[k].account_id@,
                            before[k].map_root,
                        ));
                    }
                    lemma_entry_names(after);
                    assert forall|other: (u128, Word)|
                        entry_names(after).contains_key(other) <==> #[trigger] entry_names(
                            before,
                        ).insert(key, name@).contains_key(other) by {
                        if entry_names(after).contains_key(other) {
                            let j = choose|j: int|
                                0 <= j < after.len() && (
                                    (#[trigger] after[j]).account_id@,
                                    after[j].map_root,
                                ) == other;
                            assert((before[j].account_id@, before[j].map_root) == other);
                        }
                        if other == key {
                            assert((after[i as int].account_id@, after[i as int].map_root) == key);
                        } else if entry_names(before).contains_key(other) {
                            let j = choose|j: int|
                                0 <= j < before.len() && (
                                    (#[trigger] before[j]).account_id@,
                                    before[j].map_root,
                                ) == other;
                            assert((after[j].account_id@, after[j].map_root) == other);
                        }
                    }
                    assert forall|other: (u128, Word)| #[trigger]
                        entry_names(after).contains_key(other) implies entry_names(after)[other]
                        == entry_names(before).insert(key, name@)[other] by {
                        let j = choose|j: int|
                            0 <= j < after.len() && (
                                (#[trigger] after[j]).account_id@,
                                after[j].map_root,
                            ) == other;
                        assert((before[j].account_id@, before[j].map_root) == other);
                    }
                    assert(entry_names(after) =~= entry_names(before).insert(key, name@));
                }
                self.entries.set(i, entry);
            },
            None => {
                let ghost after = before.push(entry);
                assert(after.drop_last() =~= before);
                self.entries.push(entry);
            },
        }
    }

    /// Registers the storage maps among the slots of an account.
    pub fn register_storage_map_slots(
        &mut self,
        account_id: AccountId,
        storage_header: &Vec<StorageSlotHeader>,
    )
        requires
            old(self).wf(),
        ensures
            final(self).wf(),
            final(self)@ == with_slots(old(self)@, account_id@, slot_models(storage_header@)),
    {
        let ghost start = self@;
        let ghost slots = slot_models(storage_header@);
        let mut i: usize = 0;
        assert(slots.take(0) =~= Seq::empty());
        while i < storage_header.len()
            invariant
                slots == slot_models(storage_header@),
                i <= storage_header@.len(),
                self.wf(),
                self@ == with_slots(start, account_id@, slots.take(i as int)),
            decreases storage_header@.len() - i,
        {
            let header = &storage_header[i];
            assert(slots.take(i + 1).drop_last() =~= slots.take(i as int));
            assert(slots.take(i + 1).last() == header@);
            if header.slot_type == StorageSlotType::MapSlot {
                self.insert(account_id, header.value, header.name.clone());
            }
            i = i + 1;
        }
        assert(slots.take(i as int) =~= slots);
    }
}

// DATA STORE
// ================================================================================================

/// A request for the witness of an entry of a storage map.
#[derive(Debug)]
pub struct StorageMapRequest {
    pub account_id: AccountId,
    pub slot_name: String,
    pub map_key: Word,
    pub block_num: Option<u32>,
}

/// A request for the inputs of an account at a block.
#[derive(Debug)]
pub struct AccountRequest {
    pub account_id: AccountId,
    pub block_num: u32,
}

/// A request for the witnesses of assets in the vault of an account.
#[derive(Debug)]
pub struct VaultRequest<K> {
    pub account_id: AccountId,
    pub vault_keys: K,
    pub block_num: Option<u32>,
}

/// The largest of the numbers.
pub open spec fn is_latest(blocks: Seq<u32>, latest: u32) -> bool {
    blocks.contains(latest) && forall|i: int| 0 <= i < blocks.len() ==> #[trigger] blocks[i]
        <= latest
}

/// The latest of the blocks.
pub fn latest_block(blocks: &Vec<u32>) -> (r: Option<u32>)
    ensures
        match r {
            Some(latest) => is_latest(blocks@, latest),
            None => blocks@.len() == 0,
        },
{
    if blocks.len() == 0 {
        return None;
    }
    let mut latest: u32 = blocks[0];
    let mut i: usize = 1;
    while i < blocks.len()
        invariant
            1 <= i <= blocks@.len(),
            blocks@.contains(latest),
            forall|j: int| 0 <= j < i ==> #[trigger] blocks@[j] <= latest,
        decreases blocks@.len() - i,
    {
        if blocks[i] > latest {
            latest = blocks[i];
        }
        i = i + 1;
    }
    Some(latest)
}

/// Provides transaction inputs for a single account and reference block.
#[derive(Debug)]
pub struct NtxDataStore {
    account_id: AccountId,
    /// The headers of the account's storage slots.
    storage_header: Vec<StorageSlotHeader>,
    reference_block: u32,
    /// Scripts fetched from the remote store during execution.
    fetched_scripts: Vec<RootedScript>,
    /// The names of the storage maps of the accounts that were loaded.
    storage_slots: StorageSlots,
}

/// A data store, as plain values.
#[verifier::ext_equal]
pub struct DataStoreModel {
    pub account_id: u128,
    pub slots: Seq<SlotModel>,
    pub reference_block: u32,
    pub fetched: Seq<RootedScript>,
    pub names: Map<(u128, Word), Seq<char>>,
}

impl View for NtxDataStore {
    type V = DataStoreModel;

    closed spec fn view(&self) -> DataStoreModel {
        DataStoreModel {
            account_id: self.account_id@,
            slots: slot_models(self.storage_header@),
            reference_block: self.reference_block,
            fetched: self.fetched_scripts@,
            names: self.storage_slots@,
        }
    }
}

impl NtxDataStore {
    /// No storage map is registered twice.
    pub closed spec fn wf(&self) -> bool {
        self.storage_slots.wf()
    }

    /// A data store for an account with the given storage slots, at a reference block.
    pub fn new(
        account_id: AccountId,
        storage_header: Vec<StorageSlotHeader>,
        reference_block: u32,
    ) -> (r: Self)
        ensures
            r.wf(),
            r@ == (DataStoreModel {
                account_id: account_id@,
                slots: slot_models(storage_header@),
                reference_block,
                fetched: Seq::empty(),
                names: Map::empty(),
            }),
    {
        NtxDataStore {
            account_id,
            storage_header,
            reference_block,
            fetched_scripts: Vec::new(),
            storage_slots: StorageSlots::new(),
        }
    }

    /// The block at which everything is read.
    pub fn reference_block(&self) -> (r: u32)
        ensures
            r == self@.reference_block,
    {
        self.reference_block
    }

    /// Takes the scripts that were fetched from the remote store.
    pub fn take_fetched_scripts(&mut self) -> (r: Vec<RootedScript>)
        requires
            old(self).wf(),
        ensures
            final(self).wf(),
            r@ == old(self)@.fetched,
            final(self)@ == after_take(old(self)@),
    {
        let mut taken: Vec<RootedScript> = Vec::new();
        taken.append(&mut self.fetched_scripts);
        assert(taken@ =~= old(self)@.fetched);
        taken
    }

    /// Loads the account of the transaction: its storage maps are registered.
    ///
    /// There is only that account, and the latest of the blocks that the transaction refers to has
    /// to be the reference block.
    pub fn get_transaction_inputs(&mut self, account_id: AccountId, ref_blocks: &Vec<u32>) -> (r:
        Result<(), DataStoreError>)
        requires
            old(self).wf(),
        ensures
            final(self).wf(),
            if account_id@ != old(self)@.account_id {
                r == Err::<(), DataStoreError>(DataStoreError::AccountNotFound(account_id))
            } else if ref_blocks@.len() == 0 {
                r == Err::<(), DataStoreError>(DataStoreError::NoReferenceBlock)
            } else {
                exists|latest: u32| #[trigger]
                    is_latest(ref_blocks@, latest) && if latest == old(self)@.reference_block {
                        r is Ok
                    } else {
                        r == Err::<(), DataStoreError>(DataStoreError::BlockNotFound(latest))
                    }
            },
            r is Ok ==> final(self)@ == (DataStoreModel {
                names: with_slots(old(self)@.names, old(self)@.account_id, old(self)@.slots),
                ..old(self)@
            }),
            r is Err ==> final(self)@ == old(self)@,
    {
        if self.account_id.value() != account_id.value() {
            return Err(DataStoreError::AccountNotFound(account_id));
        }
        match latest_block(ref_blocks) {
            Some(latest) => {
                if latest != self.reference_block {
                    return Err(DataStoreError::BlockNotFound(latest));
                }
            },
            None => { return Err(DataStoreError::NoReferenceBlock); },
        }
        self.storage_slots.register_storage_map_slots(account_id, &self.storage_header);
        Ok(())
    }

    /// What is asked of the store for a foreign account: its inputs at the given block, which the
    /// executor takes to be the reference block.
    pub fn foreign_account_request(
        &self,
        foreign_account_id: AccountId,
        ref_block: u32,
    ) -> (r: AccountRequest)
        ensures
            r.account_id == foreign_account_id,
            r.block_num == ref_block,
    {
        AccountRequest { account_id: foreign_account_id, block_num: ref_block }
    }

    /// Loads a foreign account: its storage maps are registered once the store has answered with
    /// the headers of its storage slots.
    pub fn get_foreign_account_inputs(
        &mut self,
        foreign_account_id: AccountId,
        answer: Result<Vec<StorageSlotHeader>, ()>,
    ) -> (r: Result<(), DataStoreError>)
        requires
            old(self).wf(),
        ensures
            final(self).wf(),
            match answer {
                Ok(headers) => {
                    &&& r is Ok
                    &&& final(self)@ == (DataStoreModel {
                        names: with_slots(
                            old(self)@.names,
                            foreign_account_id@,
                            slot_models(headers@),
                        ),
                        ..old(self)@
                    })
                },
                Err(_) => {
                    &&& r == Err::<(), DataStoreError>(
                        DataStoreError::QueryFailed(Query::AccountInputs),
                    )
                    &&& final(self)@ == old(self)@
                },
            },
    {
        match answer {
            Ok(headers) => {
                self.storage_slots.register_storage_map_slots(foreign_account_id, &headers);
                Ok(())
            },
            Err(_) => Err(DataStoreError::QueryFailed(Query::AccountInputs)),
        }
    }

    /// What is asked of the store for assets in the vault of an account: their witnesses at the
    /// reference block.
    pub fn get_vault_asset_witnesses<K>(&self, account_id: AccountId, vault_keys: K) -> (r:
        VaultRequest<K>)
        ensures
            r.account_id == account_id,
            r.vault_keys == vault_keys,
            r.block_num == Some(self@.reference_block),
    {
        VaultRequest { account_id, vault_keys, block_num: Some(self.reference_block) }
    }

    /// What is asked of the store for an entry of a storage map: its witness at the reference
    /// block, by the name of the slot under which the map was registered.
    pub fn get_storage_map_witness(
        &self,
        account_id: AccountId,
        map_root: Word,
        map_key: Word,
    ) -> (r: Result<StorageMapRequest, DataStoreError>)
        requires
            self.wf(),
        ensures
            if self@.names.contains_key((account_id@, map_root)) {
                &&& r matches Ok(request)
                &&& request.account_id == account_id
                &&& request.slot_name@ == self@.names[(account_id@, map_root)]
                &&& request.map_key == map_key
                &&& request.block_num == Some(self@.reference_block)
            } else {
                r == Err::<StorageMapRequest, DataStoreError>(
                    DataStoreError::StorageSlotNotRegistered,
                )
            },
    {
        match self.storage_slots.get(account_id, map_root) {
            Some(name) => Ok(
                StorageMapRequest {
                    account_id,
                    slot_name: name.to_owned(),
                    map_key,
                    block_num: Some(self.reference_block),
                },
            ),
            None => Err(DataStoreError::StorageSlotNotRegistered),
        }
    }

    /// Concludes the lookup of a note script. A script that was fetched is kept for later.
    ///
    /// Returns the outcome and a copy of the script for the cache, if it was not there before.
    pub fn get_note_script(&mut self, lookup: ScriptLookup) -> (r: (
        Result<Option<NoteScript>, DataStoreError>,
        Option<NoteScript>,
    ))
        requires
            old(self).wf(),
            lookup.spec_stage() is Finished,
        ensures
            final(self).wf(),
            r.0 == reply(lookup.spec_stage()->Finished_0),
            r.1 == to_cache(lookup.spec_stage()->Finished_0),
            final(self)@ == (DataStoreModel {
                fetched: with_fetched(
                    old(self)@.fetched,
                    lookup.spec_root(),
                    lookup.spec_stage()->Finished_0,
                ),
                ..old(self)@
            }),
    {
        let root = lookup.root;
        match lookup.stage {
            LookupStage::Finished(LookupOutcome::Found { script, source }) => {
                if source == ScriptSource::Remote {
                    self.fetched_scripts.push(RootedScript { root, script: copy_script(&script) });
                }
                let to_cache = if source == ScriptSource::Cache {
                    None
                } else {
                    Some(copy_script(&script))
                };
                (Ok(Some(script)), to_cache)
            },
            LookupStage::Finished(LookupOutcome::Failed(query)) => {
                (Err(DataStoreError::QueryFailed(query)), None)
            },
            _ => (Ok(None), None),
        }
    }
}

// NOTE SCRIPTS
// ================================================================================================

/// Where a script was found.
#[derive(Debug, Clone, Copy, PartialEq, Eq, Structural)]
pub enum ScriptSource {
    Cache,
    Database,
    Remote,
}

/// What has come of a lookup.
#[derive(Debug)]
pub enum LookupOutcome {
    Found { script: NoteScript, source: ScriptSource },
    Missing,
    Failed(Query),
}

/// The place that is looked at: the cache, then the local database, then the remote store.
#[derive(Debug)]
pub enum LookupStage {
    Cache,
    Database,
    Remote,
    Finished(LookupOutcome),
}

/// What a place says of a script.
#[derive(Debug)]
pub enum LookupAnswer {
    /// Here it is.
    Script(NoteScript),
    /// It is not there.
    Nothing,
    /// The place could not be asked.
    Failed,
}

/// The lookup of a note script by its root.
#[derive(Debug)]
pub struct ScriptLookup {
    root: Word,
    stage: LookupStage,
}

/// The stage after a place has answered. The cache can always be asked.
pub open spec fn next_stage(stage: LookupStage, answer: LookupAnswer) -> LookupStage {
    match (stage, answer) {
        (LookupStage::Finished(outcome), _) => LookupStage::Finished(outcome),
        (LookupStage::Cache, LookupAnswer::Script(script)) => LookupStage::Finished(
            LookupOutcome::Found { script, source: ScriptSource::Cache },
        ),
        (LookupStage::Cache, _) => LookupStage::Database,
        (LookupStage::Database, LookupAnswer::Script(script)) => LookupStage::Finished(
            LookupOutcome::Found { script, source: ScriptSource::Database },
        ),
        (LookupStage::Database, LookupAnswer::Nothing) => LookupStage::Remote,
        (LookupStage::Database, LookupAnswer::Failed) => LookupStage::Finished(
            LookupOutcome::Failed(Query::LocalNoteScript),
        ),
        (LookupStage::Remote, LookupAnswer::Script(script)) => LookupStage::Finished(
            LookupOutcome::Found { script, source: ScriptSource::Remote },
        ),
        (LookupStage::Remote, LookupAnswer::Nothing) => LookupStage::Finished(
            LookupOutcome::Missing,
        ),
        (LookupStage::Remote, LookupAnswer::Failed) => LookupStage::Finished(
            LookupOutcome::Failed(Query::RemoteNoteScript),
        ),
    }
}

/// What is answered when a lookup is over.
pub open spec fn reply(outcome: LookupOutcome) -> Result<Option<NoteScript>, DataStoreError> {
    match outcome {
        LookupOutcome::Found { script, .. } => Ok(Some(script)),
        LookupOutcome::Missing => Ok(None),
        LookupOutcome::Failed(query) => Err(DataStoreError::QueryFailed(query)),
    }
}

/// The script that goes into the cache when a lookup is over: what was found elsewhere.
pub open spec fn to_cache(outcome: LookupOutcome) -> Option<NoteScript> {
    match outcome {
        LookupOutcome::Found { script, source } => if source == ScriptSource::Cache {
            None
        } else {
            Some(script)
        },
        _ => None,
    }
}

/// The fetched scripts when a lookup is over: one more if it was found in the remote store.
pub open spec fn with_fetched(
    fetched: Seq<RootedScript>,
    root: Word,
    outcome: LookupOutcome,
) -> Seq<RootedScript> {
    match outcome {
        LookupOutcome::Found { script, source } => if source == ScriptSource::Remote {
            fetched.push(RootedScript { root, script })
        } else {
            fetched
        },
        _ => fetched,
    }
}

/// A data store after its fetched scripts were taken.
pub open spec fn after_take(store: DataStoreModel) -> DataStoreModel {
    DataStoreModel { fetched: Seq::empty(), ..store }
}

impl ScriptLookup {
    /// The root of the script.
    pub closed spec fn spec_root(&self) -> Word {
        self.root
    }

    /// How far the lookup has come.
    pub closed spec fn spec_stage(&self) -> LookupStage {
        self.stage
    }

    /// A lookup that starts with the cache.
    pub fn new(root: Word) -> (r: Self)
        ensures
            r.spec_root() == root,
            r.spec_stage() == LookupStage::Cache,
    {
        ScriptLookup { root, stage: LookupStage::Cache }
    }

    /// How far the lookup has come.
    pub fn stage(&self) -> (r: &LookupStage)
        ensures
            *r == self.spec_stage(),
    {
        &self.stage
    }

    /// Takes the answer of the place that is looked at.
    pub fn handle(self, answer: LookupAnswer) -> (r: Self)
        ensures
            r.spec_root() == self.spec_root(),
            r.spec_stage() == next_stage(self.spec_stage(), answer),
    {
        let stage = match self.stage {
            LookupStage::Cache => match answer {
                LookupAnswer::Script(script) => {
                    LookupStage::Finished(
                        LookupOutcome::Found { script, source: ScriptSource::Cache },
                    )
                },
                _ => LookupStage::Database,
            },
            LookupStage::Database => match answer {
                LookupAnswer::Script(script) => {
                    LookupStage::Finished(
                        LookupOutcome::Found { script, source: ScriptSource::Database },
                    )
                },
                LookupAnswer::Nothing => LookupStage::Remote,
                LookupAnswer::Failed => {
                    LookupStage::Finished(LookupOutcome::Failed(Query::LocalNoteScript))
                },
            },
            LookupStage::Remote => match answer {
                LookupAnswer::Script(script) => {
                    LookupStage::Finished(
                        LookupOutcome::Found { script, source: ScriptSource::Remote },
                    )
                },
                LookupAnswer::Nothing => LookupStage::Finished(LookupOutcome::Missing),
                LookupAnswer::Failed => {
                    LookupStage::Finished(LookupOutcome::Failed(Query::RemoteNoteScript))
                },
            },
            LookupStage::Finished(outcome) => LookupStage::Finished(outcome),
        };
        ScriptLookup { root: self.root, stage }
    }
}

// LAWS
// ================================================================================================

/// What a lookup finds, by what the three places say: the first place that has the script gives
/// it, and a place that cannot be asked ends the search.
pub open spec fn looked_up(
    cached: Option<NoteScript>,
    local: LookupAnswer,
    remote: LookupAnswer,
) -> LookupOutcome {
    if cached is Some {
        LookupOutcome::Found { script: cached.unwrap(), source: ScriptSource::Cache }
    } else if local is Script {
        LookupOutcome::Found { script: local->Script_0, source: ScriptSource::Database }
    } else if local is Failed {
        LookupOutcome::Failed(Query::LocalNoteScript)
    } else if remote is Script {
        LookupOutcome::Found { script: remote->Script_0, source: ScriptSource::Remote }
    } else if remote is Failed {
        LookupOutcome::Failed(Query::RemoteNoteScript)
    } else {
        LookupOutcome::Missing
    }
}

/// What the cache says of a script.
pub open spec fn cache_answer(cached: Option<NoteScript>) -> LookupAnswer {
    match cached {
        Some(script) => LookupAnswer::Script(script),
        None => LookupAnswer::Nothing,
    }
}

/// The cache when a lookup is over, as long as nothing is evicted from it.
pub open spec fn cache_after(
    cache: Map<Word, NoteScript>,
    root: Word,
    outcome: LookupOutcome,
) -> Map<Word, NoteScript> {
    match to_cache(outcome) {
        Some(script) => cache.insert(root, script),
        None => cache,
    }
}

/// A lookup that asks the cache, the local database and the remote store in this order finds what
/// their answers lead to, and a place behind the one that decided makes no difference.
pub proof fn three_places_decide(
    cached: Option<NoteScript>,
    local: LookupAnswer,
    remote: LookupAnswer,
)
    ensures
        ({
            let stage = next_stage(
                next_stage(next_stage(LookupStage::Cache, cache_answer(cached)), local),
                remote,
            );
            stage == LookupStage::Finished(looked_up(cached, local, remote))
        }),
{
}

/// A script that a lookup has found is then in the cache, so that the next lookup of it, before it
/// is evicted, is over when the cache has answered and gives the same script. The first lookup adds
/// to the fetched scripts exactly when the remote store had the script, and the second adds
/// nothing to them.
pub proof fn found_scripts_are_cached(
    cache: Map<Word, NoteScript>,
    fetched: Seq<RootedScript>,
    root: Word,
    local: LookupAnswer,
    remote: LookupAnswer,
    local_later: LookupAnswer,
    remote_later: LookupAnswer,
)
    requires
        looked_up(cache.get(root), local, remote) is Found,
    ensures
        ({
            let first = looked_up(cache.get(root), local, remote);
            let cache_later = cache_after(cache, root, first);
            let second = looked_up(cache_later.get(root), local_later, remote_later);
            let fetched_later = with_fetched(fetched, root, first);
            &&& first matches LookupOutcome::Found { script, source }
            &&& reply(first) == Ok::<Option<NoteScript>, DataStoreError>(Some(script))
            &&& cache_later.get(root) == Some(script)
            &&& next_stage(LookupStage::Cache, cache_answer(cache_later.get(root)))
                == LookupStage::Finished(second)
            &&& reply(second) == reply(first)
            &&& to_cache(second) is None
            &&& fetched_later == if source == ScriptSource::Remote {
                fetched.push(RootedScript { root, script })
            } else {
                fetched
            }
            &&& with_fetched(fetched_later, root, second) == fetched_later
        }),
{
}

/// Fetched scripts are taken once: after they were, there are none until another is fetched.
pub proof fn fetched_scripts_are_taken_once(
    store: DataStoreModel,
    root: Word,
    outcome: LookupOutcome,
)
    ensures
        after_take(store).fetched.len() == 0,
        with_fetched(after_take(store).fetched, root, outcome) == match outcome {
            LookupOutcome::Found { script, source: ScriptSource::Remote } => seq![
                RootedScript { root, script },
            ],
            _ => Seq::empty(),
        },
{
    assert(Seq::<RootedScript>::empty().push(RootedScript { root, script: outcome->script })
        =~= seq![RootedScript { root, script: outcome->script }]);
}

/// Once an account was loaded, a witness can be asked for in each of its storage maps.
pub proof fn loaded_maps_can_be_asked_for(
    names: Map<(u128, Word), Seq<char>>,
    account_id: u128,
    slots: Seq<SlotModel>,
    i: int,
)
    requires
        0 <= i < slots.len(),
        slots[i].slot_type == StorageSlotType::MapSlot,
    ensures
        with_slots(names, account_id, slots).contains_key((account_id, slots[i].value)),
{
    registered_maps_are_known(names, account_id, slots, (account_id, slots[i].value));
}

/// The cache is asked first and ends the lookup if it has the script. The local database is next,
/// and ends it unless it has nothing. The remote store is last. A finished lookup stays finished.
pub proof fn places_are_asked_in_order(
    script: NoteScript,
    outcome: LookupOutcome,
    answer: LookupAnswer,
)
    ensures
        next_stage(LookupStage::Cache, LookupAnswer::Script(script)) == LookupStage::Finished(
            LookupOutcome::Found { script, source: ScriptSource::Cache },
        ),
        !(answer is Script) ==> next_stage(LookupStage::Cache, answer) == LookupStage::Database,
        next_stage(LookupStage::Database, LookupAnswer::Script(script)) == LookupStage::Finished(
            LookupOutcome::Found { script, source: ScriptSource::Database },
        ),
        next_stage(LookupStage::Database, LookupAnswer::Nothing) == LookupStage::Remote,
        next_stage(LookupStage::Database, LookupAnswer::Failed) == LookupStage::Finished(
            LookupOutcome::Failed(Query::LocalNoteScript),
        ),
        next_stage(LookupStage::Remote, LookupAnswer::Script(script)) == LookupStage::Finished(
            LookupOutcome::Found { script, source: ScriptSource::Remote },
        ),
        next_stage(LookupStage::Remote, LookupAnswer::Nothing) == LookupStage::Finished(
            LookupOutcome::Missing,
        ),
        next_stage(LookupStage::Remote, LookupAnswer::Failed) == LookupStage::Finished(
            LookupOutcome::Failed(Query::RemoteNoteScript),
        ),
        next_stage(LookupStage::Finished(outcome), answer) == LookupStage::Finished(outcome),
{
}

/// A lookup answers with the script that it found, with nothing if there is none, and with the
/// query that failed. What was not found in the cache goes there, and what was found in the remote
/// store is kept under its root, behind what was fetched before.
pub proof fn lookups_answer_with_what_they_found(
    fetched: Seq<RootedScript>,
    root: Word,
    script: NoteScript,
    source: ScriptSource,
    query: Query,
)
    ensures
        ({
            let outcome = LookupOutcome::Found { script, source };
            let kept = with_fetched(fetched, root, outcome);
            &&& reply(outcome) == Ok::<Option<NoteScript>, DataStoreError>(Some(script))
            &&& to_cache(outcome) is None <==> source == ScriptSource::Cache
            &&& source != ScriptSource::Cache ==> to_cache(outcome) == Some(script)
            &&& source != ScriptSource::Remote ==> kept == fetched
            &&& source == ScriptSource::Remote ==> kept.len() == fetched.len() + 1
                && kept.drop_last() == fetched && kept.last().root == root && kept.last().script
                == script
        }),
        reply(LookupOutcome::Missing) == Ok::<Option<NoteScript>, DataStoreError>(None),
        to_cache(LookupOutcome::Missing) is None,
        with_fetched(fetched, root, LookupOutcome::Missing) == fetched,
        reply(LookupOutcome::Failed(query)) == Err::<Option<NoteScript>, DataStoreError>(
            DataStoreError::QueryFailed(query),
        ),
        to_cache(LookupOutcome::Failed(query)) is None,
        with_fetched(fetched, root, LookupOutcome::Failed(query)) == fetched,
{
    assert(fetched.push(RootedScript { root, script }).drop_last() =~= fetched);
}

/// Taking the fetched scripts leaves everything else as it is.
pub proof fn taking_scripts_keeps_the_rest(store: DataStoreModel)
    ensures
        after_take(store).account_id == store.account_id,
        after_take(store).slots == store.slots,
        after_take(store).reference_block == store.reference_block,
        after_take(store).names == store.names,
        after_take(store).fetched.len() == 0,
{
}

/// The latest of some blocks is one of them that none exceeds, and there is only one.
pub proof fn there_is_one_latest_block(blocks: Seq<u32>, latest: u32, other: u32)
    requires
        is_latest(blocks, latest),
    ensures
        exists|i: int| 0 <= i < blocks.len() && #[trigger] blocks[i] == latest,
        forall|i: int| 0 <= i < blocks.len() ==> #[trigger] blocks[i] <= latest,
        is_latest(blocks, other) ==> other == latest,
{
}

/// The headers of storage slots are looked at one by one, as they are.
pub proof fn slots_are_taken_one_by_one(headers: Seq<StorageSlotHeader>)
    ensures
        slot_models(headers).len() == headers.len(),
        forall|i: int|
            0 <= i < headers.len() ==> {
                &&& (#[trigger] slot_models(headers)[i]).name == headers[i].name@
                &&& slot_models(headers)[i].slot_type == headers[i].slot_type
                &&& slot_models(headers)[i].value == headers[i].value
            },
{
}

/// Each error has its own words, whatever it carries, and those that name what was not found have
/// none.
pub proof fn data_store_errors_have_their_words(account_id: AccountId, block_num: u32)
    ensures
        DataStoreError::AccountNotFound(account_id).spec_message() is None,
        DataStoreError::BlockNotFound(block_num).spec_message() is None,
        DataStoreError::NoReferenceBlock.spec_message() == Some("no reference block requested"@),
        DataStoreError::StorageSlotNotRegistered.spec_message() == Some(
            "requested storage slot has not been registered"@,
        ),
        DataStoreError::QueryFailed(Query::AccountInputs).spec_message() == Some(
            "failed to get account inputs"@,
        ),
        DataStoreError::QueryFailed(Query::VaultAssetWitnesses).spec_message() == Some(
            "failed to get vault asset witnesses"@,
        ),
        DataStoreError::QueryFailed(Query::StorageMapWitness).spec_message() == Some(
            "failed to get storage map witness"@,
        ),
        DataStoreError::QueryFailed(Query::LocalNoteScript).spec_message() == Some(
            "failed to look up note script in local DB"@,
        ),
        DataStoreError::QueryFailed(Query::RemoteNoteScript).spec_message() == Some(
            "failed to retrieve note script from store"@,
        ),
{
}

} // verus!
