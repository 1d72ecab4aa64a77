//! What holds of every run, whatever its driver reports.

use vstd::prelude::*;

use crate::artifacts::{audio_in, lemma_found_audio_has_directory, EntryModel};
use crate::errors::FailureKind;
use crate::identity::video_id_text;
use crate::pipeline::{ActionModel, EventModel, Phase, RunModel, SaveModel, SnapshotModel};
use crate::record::{entries_map, keys_distinct, record_consistent, RecordModel, VaultEntry};
use crate::run::context_for;
use crate::store::{
    decode_document, encoded_rows, lemma_store_round_trip, loaded_vault, DocumentModel,
};
use crate::summary::{lemma_simple_summary_nonempty, ApiReplyModel};
use crate::tools::{downloader, transcriber};
use crate::transitions::{
    audio_dir, begin_download, begin_summary, begin_transcribe, is_saving, step_model,
    unexpected_event,
};

verus! {

/// Whether the run is in the download stage.
pub open spec fn in_download(phase: Phase) -> bool {
    ||| phase == Phase::ProbingDownloader
    ||| phase == Phase::FetchingTitle
    ||| phase == Phase::Downloading
    ||| phase == Phase::Settling
    ||| phase == Phase::LocatingAudio
}

/// Whether the run is in the transcription stage.
pub open spec fn in_transcribe(phase: Phase) -> bool {
    ||| phase == Phase::Transcribing
    ||| phase == Phase::LocatingTranscript
    ||| phase == Phase::ReadingTranscript
}

/// Whether the action runs the downloader.
pub open spec fn runs_downloader(action: ActionModel) -> bool {
    action matches ActionModel::RunTool { command } && command.program == downloader()
}

/// Whether the action runs the transcriber.
pub open spec fn runs_transcriber(action: ActionModel) -> bool {
    action matches ActionModel::RunTool { command } && command.program == transcriber()
}

/// Whether the action asks the summary provider.
pub open spec fn calls_provider(action: ActionModel) -> bool {
    action is CallApi
}

/// The run after the reports `inputs`, each with the time it was made at.
pub open spec fn run_after(s: RunModel, inputs: Seq<(EventModel, Seq<char>)>) -> RunModel
    decreases inputs.len(),
{
    if inputs.len() == 0 {
        s
    } else {
        step_model(run_after(s, inputs.drop_last()), inputs.last().0, inputs.last().1).0
    }
}

/// The request that answers the last of the reports `inputs`.
pub open spec fn last_action(s: RunModel, inputs: Seq<(EventModel, Seq<char>)>) -> ActionModel
    recommends
        inputs.len() > 0,
{
    step_model(run_after(s, inputs.drop_last()), inputs.last().0, inputs.last().1).1
}

/// The identifier of a run's item depends on the URL alone: whatever the base
/// path, the home directory, the credentials, the provider and the time, a
/// run for the same URL is about the same item.
pub proof fn lemma_identity_is_stable(
    url: Seq<char>,
    base_path: Option<Seq<char>>,
    temp_dir: Seq<char>,
    home: Option<Seq<char>>,
    api_key: Option<Seq<char>>,
    api_provider: Option<Seq<char>>,
)
    ensures
        context_for(url, base_path, temp_dir, home, api_key, api_provider).video_id
            == video_id_text(url),
{
}

/// The two tools have different names.
pub proof fn lemma_tools_differ()
    ensures
        downloader() != transcriber(),
{
    reveal_strlit("yt-dlp");
    reveal_strlit("whisper");
    assert(downloader().len() != transcriber().len());
}

/// A step never changes what the run is about, and once the store is loaded
/// it never changes the record's id, URL or time of creation, never takes a
/// stage's completion back, and stamps every change of the record with the
/// time of the step.
pub proof fn lemma_step_keeps_identity(s: RunModel, event: EventModel, now: Seq<char>)
    ensures
        step_model(s, event, now).0.context == s.context,
        s.phase != Phase::LoadingStore ==> ({
            let t = step_model(s, event, now).0;
            &&& t.record.id == s.record.id
            &&& t.record.url == s.record.url
            &&& t.record.created_at == s.record.created_at
            &&& s.record.downloaded ==> t.record.downloaded
            &&& s.record.transcribed ==> t.record.transcribed
            &&& s.record.summarized ==> t.record.summarized
            &&& t.record != s.record ==> t.record.updated_at == now
        }),
{
}

/// How many of the three stages a record marks complete.
pub open spec fn stages_done(r: RecordModel) -> int {
    (if r.downloaded {
        1int
    } else {
        0int
    }) + (if r.transcribed {
        1int
    } else {
        0int
    }) + (if r.summarized {
        1int
    } else {
        0int
    })
}

/// Once the store is loaded, a step completes at most one stage, and it
/// completes one only when it asks for the store to be saved.
pub proof fn lemma_one_stage_per_step(s: RunModel, event: EventModel, now: Seq<char>)
    requires
        s.phase != Phase::LoadingStore,
    ensures
        ({
            let (t, action) = step_model(s, event, now);
            &&& stages_done(s.record) <= stages_done(t.record) <= stages_done(s.record) + 1
            &&& stages_done(t.record) > stages_done(s.record) ==> action is SaveStore
        }),
{
}

/// A step that gives the run up, or refuses a report, leaves the record and
/// the vault as they were.
pub proof fn lemma_failure_changes_nothing(s: RunModel, event: EventModel, now: Seq<char>)
    requires
        step_model(s, event, now).1 is Fail,
    ensures
        step_model(s, event, now).0.record == s.record,
        step_model(s, event, now).0.vault == s.vault,
        step_model(s, event, now).0.context == s.context,
{
}

/// Whenever the store is to be saved, the vault holds the run's record under
/// the item's id, every other entry of the vault is as it was, and the run
/// waits for the save.
pub proof fn lemma_saved_vault_holds_record(s: RunModel, event: EventModel, now: Seq<char>)
    requires
        step_model(s, event, now).1 is SaveStore,
    ensures
        ({
            let t = step_model(s, event, now).0;
            &&& t.vault == s.vault.insert(s.context.video_id, t.record)
            &&& is_saving(t.phase)
        }),
{
}

/// A run that waits for a save goes on to the next stage only when the save
/// is reported: any other report changes nothing.
pub proof fn lemma_next_stage_waits_for_save(s: RunModel, event: EventModel, now: Seq<char>)
    requires
        is_saving(s.phase),
        !(event is StoreSaved),
    ensures
        step_model(s, event, now) == (s, ActionModel::Fail { error: unexpected_event() }),
{
}

/// Once the store is loaded, the vault changes only when it is to be saved.
pub proof fn lemma_vault_changes_only_when_saved(s: RunModel, event: EventModel, now: Seq<char>)
    requires
        s.phase != Phase::LoadingStore,
        !(step_model(s, event, now).1 is SaveStore),
    ensures
        step_model(s, event, now).0.vault == s.vault,
        step_model(s, event, now).0.record == s.record,
{
}

/// A record in which every completed stage has its artifact stays so.
pub proof fn lemma_step_keeps_consistency(s: RunModel, event: EventModel, now: Seq<char>)
    requires
        record_consistent(s.record),
        s.phase == Phase::LoadingStore ==> forall|key: Seq<char>| #[trigger]
            s.vault.contains_key(key) ==> record_consistent(s.vault[key]),
        event matches EventModel::StoreLoaded(SnapshotModel::Present(document))
            ==> decode_document(document) matches Ok(vault) ==> forall|key: Seq<char>| #[trigger]
            vault.contains_key(key) ==> record_consistent(vault[key]),
    ensures
        record_consistent(step_model(s, event, now).0.record),
{
    reveal(loaded_vault);
}

/// While a run is in the download stage, no step touches what the later
/// stages record: a download that fails leaves the transcript and the
/// summary as they were.
pub proof fn lemma_download_leaves_later_stages(s: RunModel, event: EventModel, now: Seq<char>)
    requires
        in_download(s.phase),
    ensures
        ({
            let t = step_model(s, event, now).0;
            &&& t.record.transcribed == s.record.transcribed
            &&& t.record.summarized == s.record.summarized
            &&& t.record.transcript_content == s.record.transcript_content
            &&& t.record.summary_content == s.record.summary_content
            &&& step_model(s, event, now).1 is Fail ==> t.record.downloaded == s.record.downloaded
        }),
{
}

/// One step of a run whose record is marked downloaded, outside the
/// download stage.
proof fn lemma_downloaded_step(s: RunModel, event: EventModel, now: Seq<char>)
    requires
        s.record.downloaded,
        s.phase != Phase::LoadingStore,
        !in_download(s.phase),
    ensures
        step_model(s, event, now).0.record.downloaded,
        step_model(s, event, now).0.phase != Phase::LoadingStore,
        !in_download(step_model(s, event, now).0.phase),
        !runs_downloader(step_model(s, event, now).1),
{
    lemma_tools_differ();
}

/// One step of a run whose record is marked transcribed, outside the
/// transcription stage.
proof fn lemma_transcribed_step(s: RunModel, event: EventModel, now: Seq<char>)
    requires
        s.record.transcribed,
        s.phase != Phase::LoadingStore,
        !in_transcribe(s.phase),
    ensures
        step_model(s, event, now).0.record.transcribed,
        step_model(s, event, now).0.phase != Phase::LoadingStore,
        !in_transcribe(step_model(s, event, now).0.phase),
        !runs_transcriber(step_model(s, event, now).1),
{
    lemma_tools_differ();
}

/// Once a record is marked downloaded, the run never enters the download
/// stage and never runs the downloader again, whatever is reported to it.
pub proof fn lemma_download_not_repeated(s: RunModel, inputs: Seq<(EventModel, Seq<char>)>)
    requires
        s.record.downloaded,
        s.phase != Phase::LoadingStore,
        !in_download(s.phase),
    ensures
        run_after(s, inputs).record.downloaded,
        run_after(s, inputs).phase != Phase::LoadingStore,
        !in_download(run_after(s, inputs).phase),
        inputs.len() > 0 ==> !runs_downloader(last_action(s, inputs)),
    decreases inputs.len(),
{
    if inputs.len() > 0 {
        lemma_download_not_repeated(s, inputs.drop_last());
        lemma_downloaded_step(run_after(s, inputs.drop_last()), inputs.last().0, inputs.last().1);
    }
}

/// Once a record is marked transcribed, the run never enters the
/// transcription stage and never runs the transcriber again.
pub proof fn lemma_transcription_not_repeated(s: RunModel, inputs: Seq<(EventModel, Seq<char>)>)
    requires
        s.record.transcribed,
        s.phase != Phase::LoadingStore,
        !in_transcribe(s.phase),
    ensures
        run_after(s, inputs).record.transcribed,
        run_after(s, inputs).phase != Phase::LoadingStore,
        !in_transcribe(run_after(s, inputs).phase),
        inputs.len() > 0 ==> !runs_transcriber(last_action(s, inputs)),
    decreases inputs.len(),
{
    if inputs.len() > 0 {
        lemma_transcription_not_repeated(s, inputs.drop_last());
        lemma_transcribed_step(run_after(s, inputs.drop_last()), inputs.last().0, inputs.last().1);
    }
}

/// Entering any stage with a record that is marked summarised leaves the
/// record as it is and does not ask the provider.
proof fn lemma_summarized_enters_nothing(s: RunModel, now: Seq<char>)
    requires
        s.record.summarized,
    ensures
        begin_summary(s, now) == (
            RunModel { phase: Phase::Finished, ..s },
            ActionModel::Finish,
        ),
        begin_transcribe(s, now).0.record == s.record,
        begin_transcribe(s, now).0.phase != Phase::Summarizing,
        begin_transcribe(s, now).0.phase != Phase::LoadingStore,
        !calls_provider(begin_transcribe(s, now).1),
        begin_download(s, now).0.record == s.record,
        begin_download(s, now).0.phase != Phase::Summarizing,
        begin_download(s, now).0.phase != Phase::LoadingStore,
        !calls_provider(begin_download(s, now).1),
{
}

/// One step of a run whose record is marked summarised.
proof fn lemma_summarized_step(s: RunModel, event: EventModel, now: Seq<char>)
    requires
        s.record.summarized,
        s.phase != Phase::LoadingStore,
        s.phase != Phase::Summarizing,
    ensures
        step_model(s, event, now).0.record.summarized,
        step_model(s, event, now).0.record.summary_content == s.record.summary_content,
        step_model(s, event, now).0.phase != Phase::LoadingStore,
        step_model(s, event, now).0.phase != Phase::Summarizing,
        !calls_provider(step_model(s, event, now).1),
{
    lemma_summarized_enters_nothing(s, now);
}

/// Once a record is marked summarised, the run never asks the provider and
/// never replaces the summary.
pub proof fn lemma_summary_not_repeated(s: RunModel, inputs: Seq<(EventModel, Seq<char>)>)
    requires
        s.record.summarized,
        s.phase != Phase::LoadingStore,
        s.phase != Phase::Summarizing,
    ensures
        run_after(s, inputs).record.summarized,
        run_after(s, inputs).record.summary_content == s.record.summary_content,
        run_after(s, inputs).phase != Phase::LoadingStore,
        run_after(s, inputs).phase != Phase::Summarizing,
        inputs.len() > 0 ==> !calls_provider(last_action(s, inputs)),
    decreases inputs.len(),
{
    if inputs.len() > 0 {
        lemma_summary_not_repeated(s, inputs.drop_last());
        lemma_summarized_step(
            run_after(s, inputs.drop_last()),
            inputs.last().0,
            inputs.last().1,
        );
    }
}

/// A run that loads a store in which its item is marked downloaded takes up
/// that record and never runs the downloader; likewise for the transcriber
/// and the provider where the item is marked transcribed or summarised.
pub proof fn lemma_resume_skips_completed_stages(
    s: RunModel,
    document: DocumentModel,
    vault: Map<Seq<char>, RecordModel>,
    now: Seq<char>,
    inputs: Seq<(EventModel, Seq<char>)>,
)
    requires
        s.phase == Phase::LoadingStore,
        decode_document(document) == Ok::<Map<Seq<char>, RecordModel>, Seq<char>>(vault),
        vault.contains_key(s.context.video_id),
        inputs.len() > 0,
    ensures
        ({
            let loaded = step_model(
                s,
                EventModel::StoreLoaded(SnapshotModel::Present(document)),
                now,
            );
            let record = vault[s.context.video_id];
            &&& loaded.0.record == record
            &&& loaded.1 is EnsureDir
            &&& record.downloaded ==> !runs_downloader(last_action(loaded.0, inputs))
            &&& record.transcribed ==> !runs_transcriber(last_action(loaded.0, inputs))
            &&& record.summarized ==> !calls_provider(last_action(loaded.0, inputs))
        }),
{
    reveal(loaded_vault);
    let loaded = step_model(s, EventModel::StoreLoaded(SnapshotModel::Present(document)), now);
    let record = vault[s.context.video_id];
    if record.downloaded {
        lemma_download_not_repeated(loaded.0, inputs);
    }
    if record.transcribed {
        lemma_transcription_not_repeated(loaded.0, inputs);
    }
    if record.summarized {
        lemma_summary_not_repeated(loaded.0, inputs);
    }
}

/// Whether the action gives the run up for want of a usable audio path.
pub open spec fn lacks_audio(action: ActionModel) -> bool {
    action matches ActionModel::Fail { error } && error.kind == FailureKind::MissingAudioArtifact
}

/// Whether the run is past loading the store, preparing the directory and
/// repairing the record.
pub open spec fn past_preparation(phase: Phase) -> bool {
    phase != Phase::LoadingStore && phase != Phase::PreparingDir && phase != Phase::Repairing
}

/// A record that names an audio file in a directory keeps doing so, and a
/// run with such a record is never given up for want of a usable audio path.
pub proof fn lemma_usable_audio_step(s: RunModel, event: EventModel, now: Seq<char>)
    requires
        audio_dir(s.record) is Some,
        s.phase != Phase::LoadingStore,
    ensures
        audio_dir(step_model(s, event, now).0.record) is Some,
        !lacks_audio(step_model(s, event, now).1),
{
    if let EventModel::DirListed(listing) = event {
        lemma_found_audio_has_directory(listing);
    }
}

/// One step of a run past its preparation whose record is marked downloaded
/// and names an audio file in a directory.
proof fn lemma_settled_step(s: RunModel, event: EventModel, now: Seq<char>)
    requires
        s.record.downloaded,
        audio_dir(s.record) is Some,
        past_preparation(s.phase),
        !in_download(s.phase),
    ensures
        ({
            let (t, action) = step_model(s, event, now);
            &&& t.record.downloaded
            &&& t.record.audio_file == s.record.audio_file
            &&& t.record.title == s.record.title
            &&& past_preparation(t.phase)
            &&& !in_download(t.phase)
            &&& !runs_downloader(action)
            &&& !lacks_audio(action)
        }),
{
    lemma_tools_differ();
}

/// Once a record is marked downloaded and names an audio file in a
/// directory, a run past its preparation keeps the audio file and the title,
/// never runs the downloader and is never given up for want of a usable
/// audio path.
pub proof fn lemma_settled_run(s: RunModel, inputs: Seq<(EventModel, Seq<char>)>)
    requires
        s.record.downloaded,
        audio_dir(s.record) is Some,
        past_preparation(s.phase),
        !in_download(s.phase),
    ensures
        run_after(s, inputs).record.downloaded,
        run_after(s, inputs).record.audio_file == s.record.audio_file,
        run_after(s, inputs).record.title == s.record.title,
        past_preparation(run_after(s, inputs).phase),
        !in_download(run_after(s, inputs).phase),
        inputs.len() > 0 ==> !runs_downloader(last_action(s, inputs)) && !lacks_audio(
            last_action(s, inputs),
        ),
    decreases inputs.len(),
{
    if inputs.len() > 0 {
        lemma_settled_run(s, inputs.drop_last());
        lemma_settled_step(run_after(s, inputs.drop_last()), inputs.last().0, inputs.last().1);
    }
}

/// A repair is complete: once the audio file of a record that is marked
/// downloaded has been found in the item's directory, the rest of the run,
/// whatever is reported to it, keeps that audio file and the stored title,
/// never runs the downloader and never stops for want of a usable audio path.
pub proof fn lemma_repaired_run(
    s: RunModel,
    listing: Option<Seq<EntryModel>>,
    path: Seq<char>,
    now: Seq<char>,
    later: Seq<char>,
    inputs: Seq<(EventModel, Seq<char>)>,
)
    requires
        s.phase == Phase::PreparingDir,
        s.record.downloaded,
        s.record.audio_file is None,
        audio_in(listing) == Some(path),
    ensures
        ({
            let asked = step_model(s, EventModel::DirReady(None), now);
            let repaired = step_model(asked.0, EventModel::DirListed(listing), later);
            let end = run_after(repaired.0, inputs);
            &&& !runs_downloader(asked.1) && !lacks_audio(asked.1)
            &&& !runs_downloader(repaired.1) && !lacks_audio(repaired.1)
            &&& end.record.downloaded
            &&& end.record.audio_file == Some(path)
            &&& end.record.title == s.record.title
            &&& inputs.len() > 0 ==> !runs_downloader(last_action(repaired.0, inputs))
                && !lacks_audio(last_action(repaired.0, inputs))
        }),
{
    lemma_found_audio_has_directory(listing);
    let asked = step_model(s, EventModel::DirReady(None), now);
    let repaired = step_model(asked.0, EventModel::DirListed(listing), later);
    lemma_settled_run(repaired.0, inputs);
}

/// A record that is marked downloaded but names no audio file is repaired
/// from the item's directory: the audio file found there is recorded and the
/// vault is to be saved, without the downloader being run.
pub proof fn lemma_repair_recovers_audio(
    s: RunModel,
    listing: Option<Seq<EntryModel>>,
    path: Seq<char>,
    now: Seq<char>,
    later: Seq<char>,
)
    requires
        s.phase == Phase::PreparingDir,
        s.record.downloaded,
        s.record.audio_file is None,
        audio_in(listing) == Some(path),
    ensures
        ({
            let asked = step_model(s, EventModel::DirReady(None), now);
            let repaired = step_model(asked.0, EventModel::DirListed(listing), later);
            &&& asked.1 == (ActionModel::ListDir { path: s.context.video_dir })
            &&& asked.0.record == s.record
            &&& repaired.1 is SaveStore
            &&& repaired.0.record == (RecordModel {
                audio_file: Some(path),
                updated_at: later,
                ..s.record
            })
            &&& repaired.0.vault == s.vault.insert(s.context.video_id, repaired.0.record)
            &&& !in_download(repaired.0.phase)
        }),
{
}

/// Without credentials the summary stage cannot fail: a run whose transcript
/// has just been saved records a summary that is not empty, and is complete
/// as soon as that is saved.
pub proof fn lemma_summary_never_aborts(s: RunModel, now: Seq<char>, later: Seq<char>)
    requires
        s.phase == Phase::SavingTranscript,
        s.record.transcript_content is Some,
        !s.record.summarized,
        s.context.api_key is None,
    ensures
        ({
            let summarized = step_model(s, EventModel::StoreSaved(SaveModel::Saved), now);
            let done = step_model(summarized.0, EventModel::StoreSaved(SaveModel::Saved), later);
            &&& summarized.1 is SaveStore
            &&& summarized.0.record.summarized
            &&& summarized.0.record.summary_content is Some
            &&& summarized.0.record.summary_content->0.len() > 0
            &&& done.1 == ActionModel::Finish
            &&& done.0.phase == Phase::Finished
            &&& done.0.record == summarized.0.record
        }),
{
    lemma_simple_summary_nonempty(s.record.transcript_content->0);
}

/// With credentials the summary stage cannot fail either: whatever the
/// provider answers, a summary is recorded.
pub proof fn lemma_reply_never_aborts(s: RunModel, reply: ApiReplyModel, now: Seq<char>)
    requires
        s.phase == Phase::Summarizing,
        s.record.transcript_content is Some,
    ensures
        ({
            let summarized = step_model(s, EventModel::ApiReplied(reply), now);
            &&& summarized.1 is SaveStore
            &&& summarized.0.record.summarized
            &&& summarized.0.record.summary_content is Some
        }),
{
}

/// Wherever the summary stage is entered without credentials, for a record
/// with a transcript and no summary, it records a summary that is not empty.
pub proof fn lemma_local_summary_recorded(s: RunModel, now: Seq<char>)
    requires
        s.record.transcript_content is Some,
        !s.record.summarized,
        s.context.api_key is None,
    ensures
        begin_summary(s, now).1 is SaveStore,
        begin_summary(s, now).0.record.summarized,
        begin_summary(s, now).0.record.summary_content is Some,
        begin_summary(s, now).0.record.summary_content->0.len() > 0,
{
    lemma_simple_summary_nonempty(s.record.transcript_content->0);
}

/// A run that loads what an earlier run saved starts from the vault the
/// earlier run had, and from its record of the item where it had one.
pub proof fn lemma_reload_resumes(s: RunModel, saved: Seq<VaultEntry>, now: Seq<char>)
    requires
        s.phase == Phase::LoadingStore,
        keys_distinct(saved),
    ensures
        ({
            let document = DocumentModel { videos: Some(encoded_rows(saved)) };
            let loaded = step_model(
                s,
                EventModel::StoreLoaded(SnapshotModel::Present(document)),
                now,
            );
            let vault = entries_map(saved);
            &&& loaded.1 is EnsureDir
            &&& loaded.0.vault == vault
            &&& loaded.0.record == if vault.contains_key(s.context.video_id) {
                vault[s.context.video_id]
            } else {
                s.record
            }
        }),
{
    reveal(loaded_vault);
    lemma_store_round_trip(saved);
}

} // verus!
