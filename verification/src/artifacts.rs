//! Finding what the external tools left behind in a directory.

use vstd::prelude::*;

use crate::paths::{
    extension_of, file_stem_of, joined_path, parent_path, path_extension, path_file_stem,
    path_join, path_parent,
};
use crate::text::{join_strings, joined, lowercased, push_text, same_text, string_of, strings};

verus! {

/// One entry of a directory, as the driver found it.
#[derive(Clone, Debug, PartialEq, Eq)]
pub struct DirEntryInfo {
    /// The entry's name inside the directory.
    pub name: String,
    /// The entry's full path.
    pub path: String,
    /// Whether the entry is a regular file.
    pub is_file: bool,
}

/// What a [`DirEntryInfo`] means.
pub struct EntryModel {
    pub name: Seq<char>,
    pub path: Seq<char>,
    pub is_file: bool,
}

impl View for DirEntryInfo {
    type V = EntryModel;

    open spec fn view(&self) -> EntryModel {
        EntryModel { name: self.name@, path: self.path@, is_file: self.is_file }
    }
}

/// What a listing means, entry by entry.
pub open spec fn entry_models(entries: Seq<DirEntryInfo>) -> Seq<EntryModel> {
    Seq::new(entries.len(), |i: int| entries[i]@)
}

/// Whether `extension`, in lower case, is one of the recognised audio
/// extensions.
pub open spec fn is_audio_extension(extension: Seq<char>) -> bool {
    ||| extension == "wav"@
    ||| extension == "mp3"@
    ||| extension == "m4a"@
    ||| extension == "aac"@
    ||| extension == "flac"@
    ||| extension == "ogg"@
}

/// Whether an entry is an audio file: a regular file, at a path that names
/// the directory holding it, whose extension, whatever its case, is
/// recognised.
pub open spec fn is_audio_entry(entry: EntryModel) -> bool {
    entry.is_file && parent_path(entry.path) is Some && match extension_of(entry.path) {
        Some(extension) => is_audio_extension(lowercased(extension)),
        None => false,
    }
}

/// The path of the first audio file of a listing, if it has one.
pub open spec fn first_audio(entries: Seq<EntryModel>) -> Option<Seq<char>>
    decreases entries.len(),
{
    if entries.len() == 0 {
        None
    } else if is_audio_entry(entries[0]) {
        Some(entries[0].path)
    } else {
        first_audio(entries.drop_first())
    }
}

/// What [`first_audio`] finds is the path of an audio entry that no audio
/// entry precedes, and it finds one whenever the listing has one.
pub proof fn lemma_first_audio(entries: Seq<EntryModel>)
    ensures
        match first_audio(entries) {
            Some(path) => exists|i: int|
                0 <= i < entries.len() && #[trigger] is_audio_entry(entries[i]) && entries[i].path
                    == path && forall|j: int| 0 <= j < i ==> !is_audio_entry(entries[j]),
            None => forall|i: int| 0 <= i < entries.len() ==> !is_audio_entry(entries[i]),
        },
    decreases entries.len(),
{
    if entries.len() == 0 {
    } else if is_audio_entry(entries[0]) {
        assert(is_audio_entry(entries[0]) && entries[0].path == entries[0].path && forall|j: int|
            0 <= j < 0 ==> !is_audio_entry(entries[j]));
    } else {
        let rest = entries.drop_first();
        lemma_first_audio(rest);
        match first_audio(rest) {
            Some(path) => {
                let i = choose|i: int|
                    0 <= i < rest.len() && #[trigger] is_audio_entry(rest[i]) && rest[i].path
                        == path && forall|j: int| 0 <= j < i ==> !is_audio_entry(rest[j]);
                assert(entries[i + 1] == rest[i]);
                assert forall|j: int| 0 <= j < i + 1 implies !is_audio_entry(entries[j]) by {
                    if j > 0 {
                        assert(entries[j] == rest[j - 1]);
                    }
                }
                assert(is_audio_entry(entries[i + 1]) && entries[i + 1].path == path);
            },
            None => {
                assert forall|i: int| 0 <= i < entries.len() implies !is_audio_entry(
                    entries[i],
                ) by {
                    if i > 0 {
                        assert(entries[i] == rest[i - 1]);
                    }
                }
            },
        }
    }
}

fn is_audio(entry: &DirEntryInfo) -> (audio: bool)
    ensures
        audio == is_audio_entry(entry@),
{
    if !entry.is_file || path_parent(entry.path.as_str()).is_none() {
        return false;
    }
    match path_extension(entry.path.as_str()) {
        Some(extension) => {
            let lower = extension.as_str().to_lowercase();
            let ext = lower.as_str();
            same_text(ext, "wav") || same_text(ext, "mp3") || same_text(ext, "m4a") || same_text(
                ext,
                "aac",
            ) || same_text(ext, "flac") || same_text(ext, "ogg")
        },
        None => false,
    }
}

/// The first audio file among `entries`, in the order of the listing.
pub fn find_audio_file(entries: &Vec<DirEntryInfo>) -> (found: Option<String>)
    ensures
        crate::record::opt_text(found) == first_audio(entry_models(entries@)),
{
    let ghost all = entry_models(entries@);
    let mut i: usize = 0;
    assert(all.skip(0) =~= all);
    while i < entries.len()
        invariant
            i <= entries.len(),
            all == entry_models(entries@),
            first_audio(all) == first_audio(all.skip(i as int)),
        decreases entries.len() - i,
    {
        assert(all.skip(i as int)[0] == entries@[i as int]@);
        if is_audio(&entries[i]) {
            return Some(entries[i].path.clone());
        }
        assert(all.skip(i as int).drop_first() =~= all.skip(i as int + 1));
        i += 1;
    }
    None
}

/// What a transcript file's name ends in.
pub open spec fn transcript_suffix() -> Seq<char> {
    ".txt"@
}

/// The extension of a transcript file.
pub open spec fn transcript_extension() -> Seq<char> {
    "txt"@
}

/// Whether a listing holds an entry called `name`.
pub open spec fn holds_name(entries: Seq<EntryModel>, name: Seq<char>) -> bool {
    exists|i: int| 0 <= i < entries.len() && (#[trigger] entries[i]).name == name
}

/// The path of the first entry with the transcript extension, if there is one.
pub open spec fn first_text_file(entries: Seq<EntryModel>) -> Option<Seq<char>>
    decreases entries.len(),
{
    if entries.len() == 0 {
        None
    } else if extension_of(entries[0].path) == Some(transcript_extension()) {
        Some(entries[0].path)
    } else {
        first_text_file(entries.drop_first())
    }
}

/// The transcript that belongs to the audio file at `audio`, given the
/// listing of the audio file's directory: the file named after the audio
/// file where the listing holds it, else the first text file of the listing.
/// An audio path without a directory or a file name has no transcript.
pub open spec fn transcript_for(audio: Seq<char>, entries: Seq<EntryModel>) -> Option<Seq<char>> {
    match (parent_path(audio), file_stem_of(audio)) {
        (Some(dir), Some(stem)) => {
            if holds_name(entries, stem + transcript_suffix()) {
                Some(joined_path(dir, stem + transcript_suffix()))
            } else {
                first_text_file(entries)
            }
        },
        _ => None,
    }
}

fn has_entry_named(entries: &Vec<DirEntryInfo>, name: &str) -> (held: bool)
    ensures
        held == holds_name(entry_models(entries@), name@),
{
    let mut i: usize = 0;
    while i < entries.len()
        invariant
            i <= entries.len(),
            forall|j: int| 0 <= j < i ==> (#[trigger] entry_models(entries@)[j]).name != name@,
        decreases entries.len() - i,
    {
        if same_text(entries[i].name.as_str(), name) {
            assert(entry_models(entries@)[i as int].name == name@);
            return true;
        }
        i += 1;
    }
    false
}

fn find_text_file(entries: &Vec<DirEntryInfo>) -> (found: Option<String>)
    ensures
        crate::record::opt_text(found) == first_text_file(entry_models(entries@)),
{
    let ghost all = entry_models(entries@);
    let mut i: usize = 0;
    assert(all.skip(0) =~= all);
    while i < entries.len()
        invariant
            i <= entries.len(),
            all == entry_models(entries@),
            first_text_file(all) == first_text_file(all.skip(i as int)),
        decreases entries.len() - i,
    {
        assert(all.skip(i as int)[0] == entries@[i as int]@);
        if let Some(extension) = path_extension(entries[i].path.as_str()) {
            if same_text(extension.as_str(), "txt") {
                return Some(entries[i].path.clone());
            }
        }
        assert(all.skip(i as int).drop_first() =~= all.skip(i as int + 1));
        i += 1;
    }
    None
}

/// The transcript written for the audio file at `audio_file_path`, given the
/// listing of the directory that holds the audio file.
pub fn find_transcript_file(audio_file_path: &str, entries: &Vec<DirEntryInfo>) -> (found: Option<
    String,
>)
    ensures
        crate::record::opt_text(found) == transcript_for(
            audio_file_path@,
            entry_models(entries@),
        ),
{
    let dir = match path_parent(audio_file_path) {
        Some(dir) => dir,
        None => {
            return None;
        },
    };
    let stem = match path_file_stem(audio_file_path) {
        Some(stem) => stem,
        None => {
            return None;
        },
    };
    let mut name: Vec<char> = Vec::new();
    push_text(stem.as_str(), &mut name);
    push_text(".txt", &mut name);
    let name = string_of(&name);
    if has_entry_named(entries, name.as_str()) {
        Some(path_join(dir.as_str(), name.as_str()))
    } else {
        find_text_file(entries)
    }
}

/// What stands for the names of a directory that could not be read.
pub open spec fn unreadable_notice() -> Seq<char> {
    "无法读取目录"@
}

/// The names of a listing's entries, or the notice alone where the
/// directory could not be read.
pub open spec fn entry_names(listing: Option<Seq<EntryModel>>) -> Seq<Seq<char>> {
    match listing {
        Some(entries) => Seq::new(entries.len(), |i: int| entries[i].name),
        None => seq![unreadable_notice()],
    }
}

/// What a listing means, where there is one.
pub open spec fn listing_model(listing: Option<Vec<DirEntryInfo>>) -> Option<Seq<EntryModel>> {
    match listing {
        Some(entries) => Some(entry_models(entries@)),
        None => None,
    }
}

/// The names found in a directory, for a diagnostic.
pub fn list_directory_contents(listing: &Option<Vec<DirEntryInfo>>) -> (names: Vec<String>)
    ensures
        strings(names@) == entry_names(listing_model(*listing)),
{
    let mut names: Vec<String> = Vec::new();
    match listing {
        Some(entries) => {
            let mut i: usize = 0;
            while i < entries.len()
                invariant
                    i <= entries.len(),
                    names.len() == i,
                    forall|j: int| 0 <= j < i ==> (#[trigger] names@[j])@ == entries@[j].name@,
                decreases entries.len() - i,
            {
                names.push(entries[i].name.clone());
                i += 1;
            }
            assert(strings(names@) =~= entry_names(listing_model(*listing)));
        },
        None => {
            names.push("无法读取目录".to_owned());
            assert(strings(names@) =~= entry_names(listing_model(*listing)));
        },
    }
    names
}

/// What separates the names in a diagnostic.
pub open spec fn name_separator() -> Seq<char> {
    ", "@
}

/// The names of a listing in one line.
pub open spec fn listing_text(listing: Option<Seq<EntryModel>>) -> Seq<char> {
    joined(entry_names(listing), name_separator())
}

/// The names found in a directory, in one line.
pub fn describe_listing(listing: &Option<Vec<DirEntryInfo>>) -> (line: String)
    ensures
        line@ == listing_text(listing_model(*listing)),
{
    let names = list_directory_contents(listing);
    join_strings(&names, ", ")
}

/// The first audio file of a directory, given its listing; none where the
/// directory could not be read.
pub open spec fn audio_in(listing: Option<Seq<EntryModel>>) -> Option<Seq<char>> {
    match listing {
        Some(entries) => first_audio(entries),
        None => None,
    }
}

/// The audio file found in a directory lies in a directory itself.
pub proof fn lemma_found_audio_has_directory(listing: Option<Seq<EntryModel>>)
    ensures
        audio_in(listing) matches Some(path) ==> parent_path(path) is Some,
{
    if let Some(entries) = listing {
        lemma_first_audio(entries);
    }
}

/// The first audio file of a directory, given its listing.
pub fn find_audio_in(listing: &Option<Vec<DirEntryInfo>>) -> (found: Option<String>)
    ensures
        crate::record::opt_text(found) == audio_in(listing_model(*listing)),
{
    match listing {
        Some(entries) => find_audio_file(entries),
        None => None,
    }
}

/// The transcript for `audio` in a directory, given its listing; none where
/// the directory could not be read.
pub open spec fn transcript_in(audio: Seq<char>, listing: Option<Seq<EntryModel>>) -> Option<
    Seq<char>,
> {
    match listing {
        Some(entries) => transcript_for(audio, entries),
        None => None,
    }
}

/// The transcript for the audio file, given the listing of its directory.
pub fn find_transcript_in(audio_file_path: &str, listing: &Option<Vec<DirEntryInfo>>) -> (found:
    Option<String>)
    ensures
        crate::record::opt_text(found) == transcript_in(
            audio_file_path@,
            listing_model(*listing),
        ),
{
    match listing {
        Some(entries) => find_transcript_file(audio_file_path, entries),
        None => None,
    }
}

} // verus!
