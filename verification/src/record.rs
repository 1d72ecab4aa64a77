//! Item records and the vault that holds them.

use vstd::prelude::*;

verus! {

/// The progress of one item through the three stages.
#[derive(Clone, Debug, PartialEq, Eq)]
pub struct VideoRecord {
    pub id: String,
    pub url: String,
    pub title: Option<String>,
    pub downloaded: bool,
    pub transcribed: bool,
    pub summarized: bool,
    pub audio_file: Option<String>,
    pub transcript_content: Option<String>,
    pub summary_content: Option<String>,
    pub created_at: String,
    pub updated_at: String,
}

/// What a [`VideoRecord`] means: the same fields, as plain text.
pub struct RecordModel {
    pub id: Seq<char>,
    pub url: Seq<char>,
    pub title: Option<Seq<char>>,
    pub downloaded: bool,
    pub transcribed: bool,
    pub summarized: bool,
    pub audio_file: Option<Seq<char>>,
    pub transcript_content: Option<Seq<char>>,
    pub summary_content: Option<Seq<char>>,
    pub created_at: Seq<char>,
    pub updated_at: Seq<char>,
}

/// The text held by an optional string.
pub open spec fn opt_text(o: Option<String>) -> Option<Seq<char>> {
    match o {
        Some(s) => Some(s@),
        None => None,
    }
}

impl View for VideoRecord {
    type V = RecordModel;

    open spec fn view(&self) -> RecordModel {
        RecordModel {
            id: self.id@,
            url: self.url@,
            title: opt_text(self.title),
            downloaded: self.downloaded,
            transcribed: self.transcribed,
            summarized: self.summarized,
            audio_file: opt_text(self.audio_file),
            transcript_content: opt_text(self.transcript_content),
            summary_content: opt_text(self.summary_content),
            created_at: self.created_at@,
            updated_at: self.updated_at@,
        }
    }
}

/// The record of an item nothing has been done for yet: no stage complete, no
/// artifact known, both timestamps `now`.
pub open spec fn fresh_record(id: Seq<char>, url: Seq<char>, now: Seq<char>) -> RecordModel {
    RecordModel {
        id,
        url,
        title: None,
        downloaded: false,
        transcribed: false,
        summarized: false,
        audio_file: None,
        transcript_content: None,
        summary_content: None,
        created_at: now,
        updated_at: now,
    }
}

/// A stage that is marked complete has its artifact; a download without a
/// known audio file is the one tolerated exception.
pub open spec fn record_consistent(r: RecordModel) -> bool {
    &&& r.transcribed ==> r.transcript_content is Some
    &&& r.summarized ==> r.summary_content is Some
}

/// A copy of an optional string.
pub fn copy_opt(o: &Option<String>) -> (c: Option<String>)
    ensures
        opt_text(c) == opt_text(*o),
{
    match o {
        Some(s) => Some(s.clone()),
        None => None,
    }
}

impl VideoRecord {
    /// The record with which an item starts out.
    pub fn new(id: String, url: String, now: String) -> (r: VideoRecord)
        ensures
            r@ == fresh_record(id@, url@, now@),
    {
        let updated_at = now.clone();
        VideoRecord {
            id,
            url,
            title: None,
            downloaded: false,
            transcribed: false,
            summarized: false,
            audio_file: None,
            transcript_content: None,
            summary_content: None,
            created_at: now,
            updated_at,
        }
    }

    /// A copy that means the same.
    pub fn duplicate(&self) -> (r: VideoRecord)
        ensures
            r@ == self@,
    {
        VideoRecord {
            id: self.id.clone(),
            url: self.url.clone(),
            title: copy_opt(&self.title),
            downloaded: self.downloaded,
            transcribed: self.transcribed,
            summarized: self.summarized,
            audio_file: copy_opt(&self.audio_file),
            transcript_content: copy_opt(&self.transcript_content),
            summary_content: copy_opt(&self.summary_content),
            created_at: self.created_at.clone(),
            updated_at: self.updated_at.clone(),
        }
    }
}

/// One entry of a vault: the key an item is filed under, and its record.
#[derive(Clone, Debug, PartialEq, Eq)]
pub struct VaultEntry {
    pub key: String,
    pub record: VideoRecord,
}

/// All tracked items, filed by id. No key occurs twice. The entries are kept
/// as a list, so that the order in which a vault is written to the store is
/// the same on every run.
#[derive(Debug)]
pub struct Vault {
    entries: Vec<VaultEntry>,
}

/// Where `key` is filed in `entries`, if anywhere.
pub open spec fn filed_at(entries: Seq<VaultEntry>, key: Seq<char>, i: int) -> bool {
    0 <= i < entries.len() && entries[i].key@ == key
}

/// No key is used by two entries.
pub open spec fn keys_distinct(entries: Seq<VaultEntry>) -> bool {
    forall|i: int, j: int|
        0 <= i < entries.len() && 0 <= j < entries.len() && i != j ==> entries[i].key@
            != entries[j].key@
}

/// The mapping that a list of entries with distinct keys stands for.
pub open spec fn entries_map(entries: Seq<VaultEntry>) -> Map<Seq<char>, RecordModel> {
    Map::new(
        |key: Seq<char>| exists|i: int| filed_at(entries, key, i),
        |key: Seq<char>| entries[choose|i: int| filed_at(entries, key, i)].record@,
    )
}

/// With distinct keys, the entry at `i` is what its key maps to.
pub proof fn lemma_entry_lookup(entries: Seq<VaultEntry>, i: int)
    requires
        keys_distinct(entries),
        0 <= i < entries.len(),
    ensures
        entries_map(entries).contains_key(entries[i].key@),
        entries_map(entries)[entries[i].key@] == entries[i].record@,
{
    let key = entries[i].key@;
    assert(filed_at(entries, key, i));
    let j = choose|j: int| filed_at(entries, key, j);
    assert(j == i);
}

/// The mapping that filing the entries one after another gives: where a key
/// occurs more than once, its last entry counts.
pub open spec fn filed(entries: Seq<VaultEntry>) -> Map<Seq<char>, RecordModel>
    decreases entries.len(),
{
    if entries.len() == 0 {
        Map::empty()
    } else {
        filed(entries.drop_last()).insert(entries.last().key@, entries.last().record@)
    }
}

/// Filing entries with distinct keys one after another gives exactly the
/// mapping they stand for: a vault is rebuilt from its entries.
pub proof fn lemma_filed_distinct(entries: Seq<VaultEntry>)
    requires
        keys_distinct(entries),
    ensures
        filed(entries) == entries_map(entries),
    decreases entries.len(),
{
    if entries.len() == 0 {
        assert(entries_map(entries) =~= Map::<Seq<char>, RecordModel>::empty());
    } else {
        let before = entries.drop_last();
        let last = entries.len() - 1;
        assert(keys_distinct(before)) by {
            assert forall|i: int, j: int|
                0 <= i < before.len() && 0 <= j < before.len() && i != j implies before[i].key@
                != before[j].key@ by {
                assert(before[i] == entries[i] && before[j] == entries[j]);
            }
        }
        lemma_filed_distinct(before);
        let target = entries_map(before).insert(entries[last].key@, entries[last].record@);
        assert forall|key: Seq<char>| entries_map(entries).contains_key(key) <==> target.contains_key(
            key,
        ) by {
            if entries_map(entries).contains_key(key) {
                let i = choose|i: int| filed_at(entries, key, i);
                if i < last {
                    assert(filed_at(before, key, i));
                }
            }
            if target.contains_key(key) {
                if key == entries[last].key@ {
                    assert(filed_at(entries, key, last));
                } else {
                    let i = choose|i: int| filed_at(before, key, i);
                    assert(filed_at(entries, key, i));
                }
            }
        }
        assert forall|key: Seq<char>| entries_map(entries).contains_key(key) implies entries_map(
            entries,
        )[key] == target[key] by {
            let i = choose|i: int| filed_at(entries, key, i);
            lemma_entry_lookup(entries, i);
            if i < last {
                assert(filed_at(before, key, i));
                lemma_entry_lookup(before, i);
            }
        }
        assert(entries_map(entries) =~= target);
    }
}

impl View for Vault {
    type V = Map<Seq<char>, RecordModel>;

    closed spec fn view(&self) -> Map<Seq<char>, RecordModel> {
        entries_map(self.entries@)
    }
}

impl Vault {
    #[verifier::type_invariant]
    spec fn well_formed(&self) -> bool {
        keys_distinct(self.entries@)
    }

    /// A vault with no items.
    pub fn new() -> (v: Vault)
        ensures
            v@ == Map::<Seq<char>, RecordModel>::empty(),
    {
        let v = Vault { entries: Vec::new() };
        assert(v@ =~= Map::<Seq<char>, RecordModel>::empty());
        v
    }

    /// The entries in the order in which the vault lists them.
    pub closed spec fn listed(&self) -> Seq<VaultEntry> {
        self.entries@
    }

    /// The entries, in no particular order: each key once, with the record
    /// it maps to.
    pub fn entries(&self) -> (e: &Vec<VaultEntry>)
        ensures
            e@ == self.listed(),
            keys_distinct(e@),
            entries_map(e@) == self@,
    {
        proof {
            use_type_invariant(self);
        }
        &self.entries
    }

    /// The vault that filing `entries` one after another gives.
    pub fn from_entries(entries: &Vec<VaultEntry>) -> (v: Vault)
        ensures
            v@ == filed(entries@),
    {
        let mut vault = Vault::new();
        let mut i: usize = 0;
        assert(entries@.take(0) =~= Seq::<VaultEntry>::empty());
        while i < entries.len()
            invariant
                i <= entries.len(),
                vault@ == filed(entries@.take(i as int)),
            decreases entries.len() - i,
        {
            assert(entries@.take(i as int + 1).drop_last() =~= entries@.take(i as int));
            vault = vault.insert(entries[i].key.clone(), entries[i].record.duplicate());
            i += 1;
        }
        assert(entries@.take(entries.len() as int) =~= entries@);
        vault
    }

    /// A copy that means the same, rebuilt from the entries.
    pub fn duplicate(&self) -> (v: Vault)
        ensures
            v@ == self@,
    {
        let entries = self.entries();
        proof {
            lemma_filed_distinct(entries@);
        }
        Vault::from_entries(entries)
    }

    /// The place of `key` among the entries.
    fn find(&self, key: &str) -> (r: Option<usize>)
        ensures
            match r {
                Some(i) => filed_at(self.entries@, key@, i as int),
                None => !self@.contains_key(key@),
            },
    {
        let wanted = key.to_owned();
        let mut i: usize = 0;
        while i < self.entries.len()
            invariant
                i <= self.entries.len(),
                wanted@ == key@,
                forall|j: int| 0 <= j < i ==> !filed_at(self.entries@, key@, j),
            decreases self.entries.len() - i,
        {
            if self.entries[i].key == wanted {
                return Some(i);
            }
            i += 1;
        }
        None
    }

    /// The record filed under `key`, if there is one.
    pub fn get(&self, key: &str) -> (r: Option<&VideoRecord>)
        ensures
            match r {
                Some(record) => self@.contains_key(key@) && record@ == self@[key@],
                None => !self@.contains_key(key@),
            },
    {
        proof {
            use_type_invariant(self);
        }
        match self.find(key) {
            Some(i) => {
                proof {
                    lemma_entry_lookup(self.entries@, i as int);
                }
                Some(&self.entries[i].record)
            },
            None => None,
        }
    }

    /// The vault with `record` filed under `key`, in place of whatever was
    /// filed there.
    pub fn insert(self, key: String, record: VideoRecord) -> (v: Vault)
        ensures
            v@ == self@.insert(key@, record@),
    {
        proof {
            use_type_invariant(&self);
        }
        let found = self.find(key.as_str());
        let ghost before = self.entries@;
        let ghost k = key@;
        let ghost r = record@;
        let Vault { entries } = self;
        let mut entries = entries;
        match found {
            Some(i) => {
                entries.set(i, VaultEntry { key, record });
            },
            None => {
                entries.push(VaultEntry { key, record });
            },
        }
        proof {
            let after = entries@;
            assert(keys_distinct(after)) by {
                assert forall|a: int, b: int|
                    0 <= a < after.len() && 0 <= b < after.len() && a != b implies after[a].key@
                    != after[b].key@ by {
                    if found is None {
                        if a == before.len() {
                            assert(!filed_at(before, k, b));
                        } else if b == before.len() {
                            assert(!filed_at(before, k, a));
                        }
                    }
                }
            }
            assert forall|key2: Seq<char>|
                entries_map(after).contains_key(key2) <==> entries_map(before).insert(
                    k,
                    r,
                ).contains_key(key2) by {
                if entries_map(after).contains_key(key2) {
                    let a = choose|a: int| filed_at(after, key2, a);
                    if key2 != k {
                        assert(filed_at(before, key2, a));
                    }
                }
                if entries_map(before).insert(k, r).contains_key(key2) {
                    if key2 == k {
                        match found {
                            Some(i) => {
                                assert(filed_at(after, key2, i as int));
                            },
                            None => {
                                assert(filed_at(after, key2, before.len() as int));
                            },
                        }
                    } else {
                        let b = choose|b: int| filed_at(before, key2, b);
                        assert(filed_at(after, key2, b));
                    }
                }
            }
            assert forall|key2: Seq<char>| entries_map(after).contains_key(key2) implies entries_map(
                after,
            )[key2] == entries_map(before).insert(k, r)[key2] by {
                let a = choose|a: int| filed_at(after, key2, a);
                lemma_entry_lookup(after, a);
                if key2 != k {
                    assert(filed_at(before, key2, a));
                    lemma_entry_lookup(before, a);
                }
            }
            assert(entries_map(after) =~= entries_map(before).insert(k, r));
        }
        Vault { entries }
    }
}

} // verus!
