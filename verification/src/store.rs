//! The store file's content as plain values, and how a vault is written to
//! it and read back.
//!
//! The file holds one table, `videos`, with one table per item under the
//! item's key. An item's table holds the record's fields under their names;
//! a field that has no value yet is left out.

use vstd::prelude::*;

use crate::adapters::failure;
use crate::errors::{ErrorModel, FailureKind, PipelineError, Stage};
use crate::record::{
    entries_map, filed, keys_distinct, lemma_filed_distinct, opt_text, RecordModel, Vault,
    VaultEntry, VideoRecord,
};
use crate::text::{push_text, string_of};

verus! {

/// The name of the table that holds the items.
pub const STORE_TABLE: &'static str = "videos";

/// The value of one field of an item's table.
#[derive(Clone, Debug, PartialEq, Eq)]
pub enum FieldValue {
    Text(String),
    Flag(bool),
    /// Anything that is neither text nor a flag.
    Other,
}

/// What a [`FieldValue`] means.
pub enum FieldModel {
    Text(Seq<char>),
    Flag(bool),
    Other,
}

impl View for FieldValue {
    type V = FieldModel;

    open spec fn view(&self) -> FieldModel {
        match self {
            FieldValue::Text(text) => FieldModel::Text(text@),
            FieldValue::Flag(flag) => FieldModel::Flag(*flag),
            FieldValue::Other => FieldModel::Other,
        }
    }
}

/// One field of an item's table.
#[derive(Clone, Debug, PartialEq, Eq)]
pub struct StoreField {
    pub name: String,
    pub value: FieldValue,
}

/// The fields of a table by name. Where a name occurs more than once, its
/// last field counts.
pub open spec fn fields_map(fields: Seq<StoreField>) -> Map<Seq<char>, FieldModel>
    decreases fields.len(),
{
    if fields.len() == 0 {
        Map::empty()
    } else {
        fields_map(fields.drop_last()).insert(fields.last().name@, fields.last().value@)
    }
}

/// What is filed under one key of the `videos` table.
#[derive(Clone, Debug, PartialEq, Eq)]
pub struct StoreRow {
    pub key: String,
    /// The fields of the item's table; nothing where the key holds no table.
    pub fields: Option<Vec<StoreField>>,
}

/// What a [`StoreRow`] means.
pub struct RowModel {
    pub key: Seq<char>,
    pub fields: Option<Map<Seq<char>, FieldModel>>,
}

impl View for StoreRow {
    type V = RowModel;

    open spec fn view(&self) -> RowModel {
        RowModel {
            key: self.key@,
            fields: match self.fields {
                Some(fields) => Some(fields_map(fields@)),
                None => None,
            },
        }
    }
}

/// What a list of rows means, row by row.
pub open spec fn row_models(rows: Seq<StoreRow>) -> Seq<RowModel> {
    Seq::new(rows.len(), |i: int| rows[i]@)
}

/// The content of a store file.
#[derive(Clone, Debug, PartialEq, Eq)]
pub struct StoreDocument {
    /// The rows of the `videos` table; nothing where the file has no such
    /// table.
    pub videos: Option<Vec<StoreRow>>,
}

/// What a [`StoreDocument`] means.
pub struct DocumentModel {
    pub videos: Option<Seq<RowModel>>,
}

impl View for StoreDocument {
    type V = DocumentModel;

    open spec fn view(&self) -> DocumentModel {
        DocumentModel {
            videos: match self.videos {
                Some(rows) => Some(row_models(rows@)),
                None => None,
            },
        }
    }
}

/// The diagnostic for a field that must be there and is not.
pub open spec fn missing_field(name: Seq<char>) -> Seq<char> {
    "missing field `"@ + name + "`"@
}

/// The diagnostic for a field whose value has the wrong type.
pub open spec fn invalid_field(name: Seq<char>) -> Seq<char> {
    "invalid type for field `"@ + name + "`"@
}

/// The diagnostic for a key that holds no table.
pub open spec fn invalid_row(key: Seq<char>) -> Seq<char> {
    "expected a table under `"@ + key + "`"@
}

/// A diagnostic, with the key of the item it is about.
pub open spec fn in_row(key: Seq<char>, diagnostic: Seq<char>) -> Seq<char> {
    diagnostic + " in `"@ + key + "`"@
}

/// What is wrong with a text field that must be there, if anything.
pub open spec fn text_error(m: Map<Seq<char>, FieldModel>, name: Seq<char>) -> Option<Seq<char>> {
    if !m.contains_key(name) {
        Some(missing_field(name))
    } else if m[name] is Text {
        None
    } else {
        Some(invalid_field(name))
    }
}

/// What is wrong with a text field that may be left out, if anything.
pub open spec fn optional_error(m: Map<Seq<char>, FieldModel>, name: Seq<char>) -> Option<
    Seq<char>,
> {
    if !m.contains_key(name) || m[name] is Text {
        None
    } else {
        Some(invalid_field(name))
    }
}

/// What is wrong with a flag that must be there, if anything.
pub open spec fn flag_error(m: Map<Seq<char>, FieldModel>, name: Seq<char>) -> Option<Seq<char>> {
    if !m.contains_key(name) {
        Some(missing_field(name))
    } else if m[name] is Flag {
        None
    } else {
        Some(invalid_field(name))
    }
}

/// The text of a text field.
pub open spec fn text_of(m: Map<Seq<char>, FieldModel>, name: Seq<char>) -> Seq<char> {
    m[name]->Text_0
}

/// The text of a text field that may be left out.
pub open spec fn optional_of(m: Map<Seq<char>, FieldModel>, name: Seq<char>) -> Option<Seq<char>> {
    if m.contains_key(name) {
        Some(m[name]->Text_0)
    } else {
        None
    }
}

/// The first of two findings.
pub open spec fn or_first(a: Option<Seq<char>>, b: Option<Seq<char>>) -> Option<Seq<char>> {
    if a is Some {
        a
    } else {
        b
    }
}

/// What is wrong with an item's table, if anything: the finding for the
/// first field, in the record's order, that is missing or mistyped.
pub open spec fn record_error(m: Map<Seq<char>, FieldModel>) -> Option<Seq<char>> {
    or_first(
        text_error(m, "id"@),
        or_first(
            text_error(m, "url"@),
            or_first(
                optional_error(m, "title"@),
                or_first(
                    flag_error(m, "downloaded"@),
                    or_first(
                        flag_error(m, "transcribed"@),
                        or_first(
                            flag_error(m, "summarized"@),
                            or_first(
                                optional_error(m, "audio_file"@),
                                or_first(
                                    optional_error(m, "transcript_content"@),
                                    or_first(
                                        optional_error(m, "summary_content"@),
                                        or_first(
                                            text_error(m, "created_at"@),
                                            text_error(m, "updated_at"@),
                                        ),
                                    ),
                                ),
                            ),
                        ),
                    ),
                ),
            ),
        ),
    )
}

/// The record that a table without findings holds.
pub open spec fn record_of(m: Map<Seq<char>, FieldModel>) -> RecordModel {
    RecordModel {
        id: text_of(m, "id"@),
        url: text_of(m, "url"@),
        title: optional_of(m, "title"@),
        downloaded: m["downloaded"@]->Flag_0,
        transcribed: m["transcribed"@]->Flag_0,
        summarized: m["summarized"@]->Flag_0,
        audio_file: optional_of(m, "audio_file"@),
        transcript_content: optional_of(m, "transcript_content"@),
        summary_content: optional_of(m, "summary_content"@),
        created_at: text_of(m, "created_at"@),
        updated_at: text_of(m, "updated_at"@),
    }
}

/// Reading an item's table: the record it holds, or what is wrong with it.
/// Fields with other names are passed over.
pub open spec fn decode_record(m: Map<Seq<char>, FieldModel>) -> Result<RecordModel, Seq<char>> {
    match record_error(m) {
        Some(diagnostic) => Err(diagnostic),
        None => Ok(record_of(m)),
    }
}

/// Reading one row: its record, or what is wrong with it.
pub open spec fn decode_row(row: RowModel) -> Result<RecordModel, Seq<char>> {
    match row.fields {
        None => Err(invalid_row(row.key)),
        Some(m) => match decode_record(m) {
            Ok(record) => Ok(record),
            Err(diagnostic) => Err(in_row(row.key, diagnostic)),
        },
    }
}

/// Reading the rows in their order: the vault they hold, or what is wrong
/// with the first row that cannot be read.
pub open spec fn decode_rows(rows: Seq<RowModel>) -> Result<Map<Seq<char>, RecordModel>, Seq<char>>
    decreases rows.len(),
{
    if rows.len() == 0 {
        Ok(Map::empty())
    } else {
        match decode_rows(rows.drop_last()) {
            Err(diagnostic) => Err(diagnostic),
            Ok(vault) => match decode_row(rows.last()) {
                Err(diagnostic) => Err(diagnostic),
                Ok(record) => Ok(vault.insert(rows.last().key, record)),
            },
        }
    }
}

/// Reading a store file's content: the vault it holds, or why it holds none.
pub open spec fn decode_document(document: DocumentModel) -> Result<
    Map<Seq<char>, RecordModel>,
    Seq<char>,
> {
    match document.videos {
        None => Err(missing_field(STORE_TABLE@)),
        Some(rows) => decode_rows(rows),
    }
}

/// The table that holds a record: every field under its name, those without
/// a value left out.
pub open spec fn with_optional(
    m: Map<Seq<char>, FieldModel>,
    name: Seq<char>,
    value: Option<Seq<char>>,
) -> Map<Seq<char>, FieldModel> {
    match value {
        Some(text) => m.insert(name, FieldModel::Text(text)),
        None => m,
    }
}

/// The table that holds `r`.
pub open spec fn encoded_fields(r: RecordModel) -> Map<Seq<char>, FieldModel> {
    let m = Map::<Seq<char>, FieldModel>::empty().insert("id"@, FieldModel::Text(r.id)).insert(
        "url"@,
        FieldModel::Text(r.url),
    );
    let m = with_optional(m, "title"@, r.title);
    let m = m.insert("downloaded"@, FieldModel::Flag(r.downloaded)).insert(
        "transcribed"@,
        FieldModel::Flag(r.transcribed),
    ).insert("summarized"@, FieldModel::Flag(r.summarized));
    let m = with_optional(m, "audio_file"@, r.audio_file);
    let m = with_optional(m, "transcript_content"@, r.transcript_content);
    let m = with_optional(m, "summary_content"@, r.summary_content);
    m.insert("created_at"@, FieldModel::Text(r.created_at)).insert(
        "updated_at"@,
        FieldModel::Text(r.updated_at),
    )
}

/// No two fields of a record have the same name.
pub proof fn lemma_field_names_distinct()
    ensures
        "id"@.len() == 2,
        "url"@.len() == 3,
        "title"@.len() == 5,
        "transcribed"@.len() == 11,
        "transcript_content"@.len() == 18,
        "summary_content"@.len() == 15,
        "downloaded"@.len() == 10 && "downloaded"@[0] == 'd',
        "summarized"@.len() == 10 && "summarized"@[0] == 's',
        "audio_file"@.len() == 10 && "audio_file"@[0] == 'a',
        "created_at"@.len() == 10 && "created_at"@[0] == 'c',
        "updated_at"@.len() == 10 && "updated_at"@[0] == 'u',
{
    reveal_strlit("id");
    reveal_strlit("url");
    reveal_strlit("title");
    reveal_strlit("downloaded");
    reveal_strlit("transcribed");
    reveal_strlit("summarized");
    reveal_strlit("audio_file");
    reveal_strlit("transcript_content");
    reveal_strlit("summary_content");
    reveal_strlit("created_at");
    reveal_strlit("updated_at");
}

/// A record that is written to a table and read back is the same record.
pub proof fn lemma_record_round_trip(r: RecordModel)
    ensures
        decode_record(encoded_fields(r)) == Ok::<RecordModel, Seq<char>>(r),
{
    lemma_field_names_distinct();
    let m = encoded_fields(r);
    assert(record_error(m) is None);
    assert(record_of(m) == r);
}

/// The rows that hold the entries of a vault, in their order.
pub open spec fn encoded_rows(entries: Seq<VaultEntry>) -> Seq<RowModel> {
    Seq::new(
        entries.len(),
        |i: int| RowModel { key: entries[i].key@, fields: Some(encoded_fields(entries[i].record@)) },
    )
}

/// Entries that are written to rows and read back file the same records
/// under the same keys.
pub proof fn lemma_rows_round_trip(entries: Seq<VaultEntry>)
    ensures
        decode_rows(encoded_rows(entries)) == Ok::<Map<Seq<char>, RecordModel>, Seq<char>>(
            filed(entries),
        ),
    decreases entries.len(),
{
    if entries.len() > 0 {
        lemma_rows_round_trip(entries.drop_last());
        assert(encoded_rows(entries).drop_last() =~= encoded_rows(entries.drop_last()));
        lemma_record_round_trip(entries.last().record@);
    }
}

/// A vault that is written to a store file's content and read back is the
/// same vault.
pub proof fn lemma_store_round_trip(entries: Seq<VaultEntry>)
    requires
        keys_distinct(entries),
    ensures
        decode_document(DocumentModel { videos: Some(encoded_rows(entries)) }) == Ok::<
            Map<Seq<char>, RecordModel>,
            Seq<char>,
        >(entries_map(entries)),
{
    lemma_rows_round_trip(entries);
    lemma_filed_distinct(entries);
}

/// What a record or a diagnostic means.
pub open spec fn record_result(r: Result<VideoRecord, String>) -> Result<RecordModel, Seq<char>> {
    match r {
        Ok(record) => Ok(record@),
        Err(diagnostic) => Err(diagnostic@),
    }
}

/// What a vault or a failure means.
pub open spec fn vault_result(r: Result<Vault, PipelineError>) -> Result<
    Map<Seq<char>, RecordModel>,
    ErrorModel,
> {
    match r {
        Ok(vault) => Ok(vault@),
        Err(error) => Err(error@),
    }
}

fn quoted(lead: &str, name: &str) -> (text: String)
    ensures
        text@ == lead@ + name@ + "`"@,
{
    let mut out: Vec<char> = Vec::new();
    push_text(lead, &mut out);
    push_text(name, &mut out);
    push_text("`", &mut out);
    string_of(&out)
}

/// The value of the last field called `name`.
fn lookup<'a>(fields: &'a Vec<StoreField>, name: &str) -> (found: Option<&'a FieldValue>)
    ensures
        match found {
            Some(value) => fields_map(fields@).contains_key(name@) && fields_map(fields@)[name@]
                == value@,
            None => !fields_map(fields@).contains_key(name@),
        },
{
    let mut at: Option<usize> = None;
    let mut i: usize = 0;
    assert(fields@.take(0) =~= Seq::<StoreField>::empty());
    while i < fields.len()
        invariant
            i <= fields.len(),
            match at {
                Some(k) => k < i && fields_map(fields@.take(i as int)).contains_key(name@)
                    && fields_map(fields@.take(i as int))[name@] == fields@[k as int].value@,
                None => !fields_map(fields@.take(i as int)).contains_key(name@),
            },
        decreases fields.len() - i,
    {
        assert(fields@.take(i as int + 1).drop_last() =~= fields@.take(i as int));
        if crate::text::same_text(fields[i].name.as_str(), name) {
            at = Some(i);
        }
        i += 1;
    }
    assert(fields@.take(fields.len() as int) =~= fields@);
    match at {
        Some(k) => Some(&fields[k].value),
        None => None,
    }
}

fn required_text(fields: &Vec<StoreField>, name: &str) -> (r: Result<String, String>)
    ensures
        match r {
            Ok(text) => text_error(fields_map(fields@), name@) is None && text@ == text_of(
                fields_map(fields@),
                name@,
            ),
            Err(diagnostic) => text_error(fields_map(fields@), name@) == Some(diagnostic@),
        },
{
    match lookup(fields, name) {
        None => Err(quoted("missing field `", name)),
        Some(FieldValue::Text(text)) => Ok(text.clone()),
        Some(_) => Err(quoted("invalid type for field `", name)),
    }
}

fn optional_text(fields: &Vec<StoreField>, name: &str) -> (r: Result<Option<String>, String>)
    ensures
        match r {
            Ok(text) => optional_error(fields_map(fields@), name@) is None && opt_text(text)
                == optional_of(fields_map(fields@), name@),
            Err(diagnostic) => optional_error(fields_map(fields@), name@) == Some(diagnostic@),
        },
{
    match lookup(fields, name) {
        None => Ok(None),
        Some(FieldValue::Text(text)) => Ok(Some(text.clone())),
        Some(_) => Err(quoted("invalid type for field `", name)),
    }
}

fn required_flag(fields: &Vec<StoreField>, name: &str) -> (r: Result<bool, String>)
    ensures
        match r {
            Ok(flag) => flag_error(fields_map(fields@), name@) is None && flag == fields_map(
                fields@,
            )[name@]->Flag_0,
            Err(diagnostic) => flag_error(fields_map(fields@), name@) == Some(diagnostic@),
        },
{
    match lookup(fields, name) {
        None => Err(quoted("missing field `", name)),
        Some(FieldValue::Flag(flag)) => Ok(*flag),
        Some(_) => Err(quoted("invalid type for field `", name)),
    }
}

/// Reads a record from the fields of an item's table.
pub fn read_record(fields: &Vec<StoreField>) -> (r: Result<VideoRecord, String>)
    ensures
        record_result(r) == decode_record(fields_map(fields@)),
{
    let id = match required_text(fields, "id") {
        Ok(value) => value,
        Err(diagnostic) => {
            return Err(diagnostic);
        },
    };
    let url = match required_text(fields, "url") {
        Ok(value) => value,
        Err(diagnostic) => {
            return Err(diagnostic);
        },
    };
    let title = match optional_text(fields, "title") {
        Ok(value) => value,
        Err(diagnostic) => {
            return Err(diagnostic);
        },
    };
    let downloaded = match required_flag(fields, "downloaded") {
        Ok(value) => value,
        Err(diagnostic) => {
            return Err(diagnostic);
        },
    };
    let transcribed = match required_flag(fields, "transcribed") {
        Ok(value) => value,
        Err(diagnostic) => {
            return Err(diagnostic);
        },
    };
    let summarized = match required_flag(fields, "summarized") {
        Ok(value) => value,
        Err(diagnostic) => {
            return Err(diagnostic);
        },
    };
    let audio_file = match optional_text(fields, "audio_file") {
        Ok(value) => value,
        Err(diagnostic) => {
            return Err(diagnostic);
        },
    };
    let transcript_content = match optional_text(fields, "transcript_content") {
        Ok(value) => value,
        Err(diagnostic) => {
            return Err(diagnostic);
        },
    };
    let summary_content = match optional_text(fields, "summary_content") {
        Ok(value) => value,
        Err(diagnostic) => {
            return Err(diagnostic);
        },
    };
    let created_at = match required_text(fields, "created_at") {
        Ok(value) => value,
        Err(diagnostic) => {
            return Err(diagnostic);
        },
    };
    let updated_at = match required_text(fields, "updated_at") {
        Ok(value) => value,
        Err(diagnostic) => {
            return Err(diagnostic);
        },
    };
    Ok(
        VideoRecord {
            id,
            url,
            title,
            downloaded,
            transcribed,
            summarized,
            audio_file,
            transcript_content,
            summary_content,
            created_at,
            updated_at,
        },
    )
}

/// Reads the record of one row.
pub fn read_row(row: &StoreRow) -> (r: Result<VideoRecord, String>)
    ensures
        record_result(r) == decode_row(row@),
{
    match &row.fields {
        None => Err(quoted("expected a table under `", row.key.as_str())),
        Some(fields) => match read_record(fields) {
            Ok(record) => Ok(record),
            Err(diagnostic) => {
                let mut out: Vec<char> = Vec::new();
                push_text(diagnostic.as_str(), &mut out);
                push_text(" in `", &mut out);
                push_text(row.key.as_str(), &mut out);
                push_text("`", &mut out);
                Err(string_of(&out))
            },
        },
    }
}

/// What reading a store file's content gives a run: the vault, or the
/// failure of a store that cannot be understood.
#[verifier::opaque]
pub open spec fn loaded_vault(document: DocumentModel) -> Result<
    Map<Seq<char>, RecordModel>,
    ErrorModel,
> {
    match decode_document(document) {
        Ok(vault) => Ok(vault),
        Err(diagnostic) => Err(failure(FailureKind::StoreCorrupt, Stage::Store, diagnostic)),
    }
}

fn corrupt(diagnostic: String) -> (e: PipelineError)
    ensures
        e@ == failure(FailureKind::StoreCorrupt, Stage::Store, diagnostic@),
{
    PipelineError::new(FailureKind::StoreCorrupt, Stage::Store, diagnostic)
}

/// Reads the vault from a store file's content.
pub fn load_vault(document: &StoreDocument) -> (r: Result<Vault, PipelineError>)
    ensures
        vault_result(r) == loaded_vault(document@),
{
    proof {
        reveal(loaded_vault);
    }
    let rows = match &document.videos {
        Some(rows) => rows,
        None => {
            return Err(corrupt(quoted("missing field `", STORE_TABLE)));
        },
    };
    let mut vault = Vault::new();
    let mut i: usize = 0;
    assert(row_models(rows@).take(0) =~= Seq::<RowModel>::empty());
    while i < rows.len()
        invariant
            i <= rows.len(),
            document@.videos == Some(row_models(rows@)),
            decode_rows(row_models(rows@).take(i as int)) == Ok::<
                Map<Seq<char>, RecordModel>,
                Seq<char>,
            >(vault@),
        decreases rows.len() - i,
    {
        let ghost next = row_models(rows@).take(i as int + 1);
        assert(next.drop_last() =~= row_models(rows@).take(i as int));
        assert(next.last() == rows@[i as int]@);
        match read_row(&rows[i]) {
            Ok(record) => {
                vault = vault.insert(rows[i].key.clone(), record);
            },
            Err(diagnostic) => {
                proof {
                    reveal(loaded_vault);
                    assert(decode_rows(next) == Err::<Map<Seq<char>, RecordModel>, Seq<char>>(
                        diagnostic@,
                    ));
                    lemma_decode_rows_error(row_models(rows@), i as int + 1);
                }
                return Err(corrupt(diagnostic));
            },
        }
        i += 1;
    }
    assert(row_models(rows@).take(rows.len() as int) =~= row_models(rows@));
    Ok(vault)
}

/// Rows that cannot be read up to some point cannot be read as a whole, for
/// the same reason.
pub proof fn lemma_decode_rows_error(rows: Seq<RowModel>, n: int)
    requires
        0 <= n <= rows.len(),
        decode_rows(rows.take(n)) is Err,
    ensures
        decode_rows(rows) == decode_rows(rows.take(n)),
    decreases rows.len() - n,
{
    if n < rows.len() {
        assert(rows.take(n + 1).drop_last() =~= rows.take(n));
        lemma_decode_rows_error(rows, n + 1);
    } else {
        assert(rows.take(n) =~= rows);
    }
}

fn text_field(name: &str, value: &str) -> (field: StoreField)
    ensures
        field.name@ == name@,
        field.value@ == FieldModel::Text(value@),
{
    StoreField { name: name.to_owned(), value: FieldValue::Text(value.to_owned()) }
}

fn flag_field(name: &str, value: bool) -> (field: StoreField)
    ensures
        field.name@ == name@,
        field.value@ == FieldModel::Flag(value),
{
    StoreField { name: name.to_owned(), value: FieldValue::Flag(value) }
}

fn push_field(fields: &mut Vec<StoreField>, field: StoreField)
    ensures
        final(fields)@ == old(fields)@.push(field),
        fields_map(final(fields)@) == fields_map(old(fields)@).insert(field.name@, field.value@),
{
    fields.push(field);
    assert(fields@.drop_last() =~= old(fields)@);
}

fn push_optional(fields: &mut Vec<StoreField>, name: &str, value: &Option<String>)
    ensures
        fields_map(final(fields)@) == with_optional(
            fields_map(old(fields)@),
            name@,
            opt_text(*value),
        ),
{
    if let Some(text) = value {
        push_field(fields, text_field(name, text.as_str()));
    }
}

/// Writes a record as the fields of an item's table.
pub fn write_record(record: &VideoRecord) -> (fields: Vec<StoreField>)
    ensures
        fields_map(fields@) == encoded_fields(record@),
{
    let mut fields: Vec<StoreField> = Vec::new();
    push_field(&mut fields, text_field("id", record.id.as_str()));
    push_field(&mut fields, text_field("url", record.url.as_str()));
    push_optional(&mut fields, "title", &record.title);
    push_field(&mut fields, flag_field("downloaded", record.downloaded));
    push_field(&mut fields, flag_field("transcribed", record.transcribed));
    push_field(&mut fields, flag_field("summarized", record.summarized));
    push_optional(&mut fields, "audio_file", &record.audio_file);
    push_optional(&mut fields, "transcript_content", &record.transcript_content);
    push_optional(&mut fields, "summary_content", &record.summary_content);
    push_field(&mut fields, text_field("created_at", record.created_at.as_str()));
    push_field(&mut fields, text_field("updated_at", record.updated_at.as_str()));
    fields
}

/// Writes the whole vault as a store file's content: one row per entry, in
/// the vault's order. Reading the content back gives the same vault.
pub fn save_vault(vault: &Vault) -> (document: StoreDocument)
    ensures
        document@.videos == Some(encoded_rows(vault.listed())),
        decode_document(document@) == Ok::<Map<Seq<char>, RecordModel>, Seq<char>>(vault@),
{
    let entries = vault.entries();
    let mut rows: Vec<StoreRow> = Vec::new();
    let mut i: usize = 0;
    while i < entries.len()
        invariant
            i <= entries.len(),
            rows.len() == i,
            forall|j: int| 0 <= j < i ==> (#[trigger] rows@[j])@ == encoded_rows(entries@)[j],
        decreases entries.len() - i,
    {
        let row = StoreRow {
            key: entries[i].key.clone(),
            fields: Some(write_record(&entries[i].record)),
        };
        rows.push(row);
        i += 1;
    }
    assert(row_models(rows@) =~= encoded_rows(entries@));
    proof {
        lemma_store_round_trip(entries@);
    }
    StoreDocument { videos: Some(rows) }
}

} // verus!
