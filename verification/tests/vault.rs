use video_transcriber::record::{copy_opt, Vault, VideoRecord};

fn record(id: &str, url: &str) -> VideoRecord {
    VideoRecord::new(id.to_string(), url.to_string(), "100".to_string())
}

#[test]
fn fresh_record_has_nothing_done() {
    let r = record("abc", "https://e.x/1");
    assert_eq!(r.id, "abc");
    assert_eq!(r.url, "https://e.x/1");
    assert_eq!(r.title, None);
    assert!(!r.downloaded && !r.transcribed && !r.summarized);
    assert_eq!(r.audio_file, None);
    assert_eq!(r.transcript_content, None);
    assert_eq!(r.summary_content, None);
    assert_eq!(r.created_at, "100");
    assert_eq!(r.updated_at, "100");
}

#[test]
fn duplicate_means_the_same() {
    let mut r = record("abc", "u");
    r.title = Some("t".to_string());
    r.downloaded = true;
    r.summary_content = Some("s".to_string());
    assert_eq!(r.duplicate(), r);
    assert_eq!(copy_opt(&Some("x".to_string())), Some("x".to_string()));
    assert_eq!(copy_opt(&None), None);
}

#[test]
fn empty_vault_holds_nothing() {
    let vault = Vault::new();
    assert!(vault.entries().is_empty());
    assert_eq!(vault.get("abc"), None);
}

#[test]
fn vault_files_records_by_key() {
    let vault = Vault::new()
        .insert("a".to_string(), record("a", "u1"))
        .insert("b".to_string(), record("b", "u2"));
    assert_eq!(vault.entries().len(), 2);
    assert_eq!(vault.get("a"), Some(&record("a", "u1")));
    assert_eq!(vault.get("b"), Some(&record("b", "u2")));
    assert_eq!(vault.get("c"), None);
    assert_eq!(vault.get(""), None);
}

#[test]
fn inserting_under_a_used_key_replaces_the_record() {
    let mut changed = record("a", "u1");
    changed.downloaded = true;
    let vault = Vault::new()
        .insert("a".to_string(), record("a", "u1"))
        .insert("b".to_string(), record("b", "u2"))
        .insert("a".to_string(), changed.duplicate());
    assert_eq!(vault.entries().len(), 2);
    assert_eq!(vault.get("a"), Some(&changed));
    assert_eq!(vault.get("b"), Some(&record("b", "u2")));
}

#[test]
fn key_and_id_need_not_agree() {
    let vault = Vault::new().insert("key".to_string(), record("id", "u"));
    assert_eq!(vault.get("key"), Some(&record("id", "u")));
    assert_eq!(vault.get("id"), None);
}

#[test]
fn vault_is_rebuilt_from_its_entries() {
    let mut changed = record("b", "u2");
    changed.transcribed = true;
    changed.transcript_content = Some("text".to_string());
    let vault = Vault::new()
        .insert("a".to_string(), record("a", "u1"))
        .insert("b".to_string(), changed.duplicate())
        .insert("c".to_string(), record("c", "u3"));
    let rebuilt = Vault::from_entries(vault.entries());
    assert_eq!(rebuilt.entries().len(), 3);
    for entry in vault.entries() {
        assert_eq!(rebuilt.get(&entry.key), Some(&entry.record));
    }
    let copy = vault.duplicate();
    assert_eq!(copy.entries(), vault.entries());
    assert_eq!(copy.get("b"), Some(&changed));
}

#[test]
fn later_entries_replace_earlier_ones_with_the_same_key() {
    let first = video_transcriber::record::VaultEntry { key: "k".to_string(), record: record("1", "u") };
    let second = video_transcriber::record::VaultEntry { key: "k".to_string(), record: record("2", "u") };
    let vault = Vault::from_entries(&vec![first, second]);
    assert_eq!(vault.entries().len(), 1);
    assert_eq!(vault.get("k"), Some(&record("2", "u")));
    assert!(Vault::from_entries(&Vec::new()).entries().is_empty());
}
