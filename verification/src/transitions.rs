//! What a run does with each report of its driver, stated over the models.

use vstd::prelude::*;

use crate::adapters::{
    download_verdict, failure, located_verdict, probe_verdict, title_verdict,
    transcriber_verdict, transcript_missing, transcript_verdict,
};
use crate::artifacts::{audio_in, transcript_in, EntryModel};
use crate::errors::{ErrorModel, FailureKind, Stage};
use crate::paths::parent_path;
use crate::pipeline::{ActionModel, EventModel, Phase, RunModel, SaveModel, SnapshotModel};
use crate::record::RecordModel;
use crate::store::loaded_vault;
use crate::summary::{chat_request, simple_summary, summary_after, ApiReplyModel};
use crate::tools::{download_command, probe_command, title_command, transcribe_command, ExitModel};

verus! {

/// How long a download is left to settle, in milliseconds.
pub const SETTLE_MILLIS: u64 = 1000;

/// What a run says when transcription is due and no audio file is known.
pub open spec fn missing_audio_notice() -> Seq<char> {
    "无法转录：未找到音频文件路径"@
}

/// The failure of a run whose record names no usable audio file.
pub open spec fn missing_audio() -> ErrorModel {
    failure(FailureKind::MissingAudioArtifact, Stage::Transcribe, missing_audio_notice())
}

/// The failure that answers a report the run was not waiting for.
pub open spec fn unexpected_event() -> ErrorModel {
    failure(FailureKind::UnexpectedEvent, Stage::Protocol, Seq::empty())
}

/// The run in another phase.
pub open spec fn moved(s: RunModel, phase: Phase) -> RunModel {
    RunModel { phase, ..s }
}

/// Giving the run up with `error`: nothing but the phase changes.
pub open spec fn fail(s: RunModel, error: ErrorModel) -> (RunModel, ActionModel) {
    (moved(s, Phase::Failed), ActionModel::Fail { error })
}

/// Recording `record` as the item's new state: it is filed in the vault
/// under the item's id, and the whole vault is to be saved.
pub open spec fn persist(s: RunModel, record: RecordModel, phase: Phase) -> (
    RunModel,
    ActionModel,
) {
    (
        RunModel { phase, record, vault: s.vault.insert(s.context.video_id, record), ..s },
        ActionModel::SaveStore {
            vault_path: s.context.vault_path,
            store_path: s.context.store_path,
        },
    )
}

/// The directory of the record's audio file, where the record names one
/// that has a directory.
pub open spec fn audio_dir(record: RecordModel) -> Option<Seq<char>> {
    match record.audio_file {
        Some(audio) => parent_path(audio),
        None => None,
    }
}

/// Entering the summary stage: skipped where the record is summarised or has
/// no transcript; done on the spot where there are no credentials; else the
/// provider is asked.
pub open spec fn begin_summary(s: RunModel, now: Seq<char>) -> (RunModel, ActionModel) {
    match s.record.transcript_content {
        Some(transcript) if !s.record.summarized => match s.context.api_key {
            None => persist(
                s,
                RecordModel {
                    summarized: true,
                    summary_content: Some(simple_summary(transcript)),
                    updated_at: now,
                    ..s.record
                },
                Phase::SavingSummary,
            ),
            Some(key) => (
                moved(s, Phase::Summarizing),
                ActionModel::CallApi { request: chat_request(transcript, key, s.context.provider) },
            ),
        },
        _ => (moved(s, Phase::Finished), ActionModel::Finish),
    }
}

/// Entering the transcription stage: skipped where the record is
/// transcribed; given up where the record names no usable audio file; else
/// the transcriber is run.
pub open spec fn begin_transcribe(s: RunModel, now: Seq<char>) -> (RunModel, ActionModel) {
    if s.record.transcribed {
        begin_summary(s, now)
    } else {
        match (s.record.audio_file, audio_dir(s.record)) {
            (Some(audio), Some(dir)) => (
                moved(s, Phase::Transcribing),
                ActionModel::RunTool { command: transcribe_command(audio, dir) },
            ),
            _ => fail(s, missing_audio()),
        }
    }
}

/// Entering the download stage: skipped where the record is downloaded; else
/// the downloader is probed.
pub open spec fn begin_download(s: RunModel, now: Seq<char>) -> (RunModel, ActionModel) {
    if s.record.downloaded {
        begin_transcribe(s, now)
    } else {
        (moved(s, Phase::ProbingDownloader), ActionModel::RunTool { command: probe_command() })
    }
}

/// Asking for the item's directory.
pub open spec fn prepare_dir(s: RunModel) -> (RunModel, ActionModel) {
    (moved(s, Phase::PreparingDir), ActionModel::EnsureDir { path: s.context.video_dir })
}

/// The store was looked for: an absent store is an empty vault, a store that
/// cannot be read, parsed or understood ends the run, and the item's record
/// is the one the vault holds, or stays the fresh one.
pub open spec fn on_store_loaded(s: RunModel, snapshot: SnapshotModel) -> (RunModel, ActionModel) {
    match snapshot {
        SnapshotModel::Absent => prepare_dir(RunModel { vault: Map::empty(), ..s }),
        SnapshotModel::Present(document) => match loaded_vault(document) {
            Ok(vault) => prepare_dir(
                RunModel {
                    vault,
                    record: if vault.contains_key(s.context.video_id) {
                        vault[s.context.video_id]
                    } else {
                        s.record
                    },
                    ..s
                },
            ),
            Err(error) => fail(s, error),
        },
        SnapshotModel::Unreadable(reason) => fail(
            s,
            failure(FailureKind::StoreUnreadable, Stage::Store, reason),
        ),
        SnapshotModel::Corrupt(reason) => fail(
            s,
            failure(FailureKind::StoreCorrupt, Stage::Store, reason),
        ),
    }
}

/// Whether the record claims a download but names no audio file.
pub open spec fn needs_repair(record: RecordModel) -> bool {
    record.downloaded && record.audio_file is None
}

/// The item's directory was prepared.
pub open spec fn on_dir_ready(s: RunModel, failed: Option<Seq<char>>, now: Seq<char>) -> (
    RunModel,
    ActionModel,
) {
    match failed {
        Some(reason) => fail(s, failure(FailureKind::DirectoryFailed, Stage::Prepare, reason)),
        None => if needs_repair(s.record) {
            (moved(s, Phase::Repairing), ActionModel::ListDir { path: s.context.video_dir })
        } else {
            begin_download(s, now)
        },
    }
}

/// The item's directory was listed for a repair: an audio file that is found
/// is recorded and saved; one that is not is no failure yet.
pub open spec fn on_repair_listed(
    s: RunModel,
    listing: Option<Seq<EntryModel>>,
    now: Seq<char>,
) -> (RunModel, ActionModel) {
    match audio_in(listing) {
        Some(path) => persist(
            s,
            RecordModel { audio_file: Some(path), updated_at: now, ..s.record },
            Phase::SavingRepair,
        ),
        None => begin_download(s, now),
    }
}

/// The downloader was probed.
pub open spec fn on_probed(s: RunModel, exit: ExitModel) -> (RunModel, ActionModel) {
    match probe_verdict(exit) {
        Some(error) => fail(s, error),
        None => (
            moved(s, Phase::FetchingTitle),
            ActionModel::RunTool { command: title_command(s.context.url) },
        ),
    }
}

/// The title query ended.
pub open spec fn on_title(s: RunModel, exit: ExitModel) -> (RunModel, ActionModel) {
    match title_verdict(exit) {
        Err(error) => fail(s, error),
        Ok(title) => (
            RunModel { phase: Phase::Downloading, title, ..s },
            ActionModel::RunTool { command: download_command(s.context.url, s.context.video_dir) },
        ),
    }
}

/// The download ended.
pub open spec fn on_downloaded(s: RunModel, exit: ExitModel) -> (RunModel, ActionModel) {
    match download_verdict(exit) {
        Some(error) => fail(s, error),
        None => (moved(s, Phase::Settling), ActionModel::Pause { millis: SETTLE_MILLIS }),
    }
}

/// The download has settled.
pub open spec fn on_settled(s: RunModel) -> (RunModel, ActionModel) {
    (moved(s, Phase::LocatingAudio), ActionModel::ListDir { path: s.context.video_dir })
}

/// The item's directory was listed after the download: the audio file and
/// the title are recorded and saved, or the run ends for want of the file.
pub open spec fn on_audio_listed(s: RunModel, listing: Option<Seq<EntryModel>>, now: Seq<char>) -> (
    RunModel,
    ActionModel,
) {
    match located_verdict(s.context.video_dir, listing) {
        Ok(path) => persist(
            s,
            RecordModel {
                downloaded: true,
                audio_file: Some(path),
                title: Some(s.title),
                updated_at: now,
                ..s.record
            },
            Phase::SavingDownload,
        ),
        Err(error) => fail(s, error),
    }
}

/// The transcriber ended.
pub open spec fn on_transcribed(s: RunModel, exit: ExitModel) -> (RunModel, ActionModel) {
    match transcriber_verdict(exit) {
        Some(error) => fail(s, error),
        None => match audio_dir(s.record) {
            Some(dir) => (moved(s, Phase::LocatingTranscript), ActionModel::ListDir { path: dir }),
            None => fail(s, missing_audio()),
        },
    }
}

/// The audio file's directory was listed after the transcription.
pub open spec fn on_transcript_listed(s: RunModel, listing: Option<Seq<EntryModel>>) -> (
    RunModel,
    ActionModel,
) {
    match s.record.audio_file {
        Some(audio) => match transcript_in(audio, listing) {
            Some(path) => (moved(s, Phase::ReadingTranscript), ActionModel::ReadText { path }),
            None => fail(s, transcript_missing(listing)),
        },
        None => fail(s, missing_audio()),
    }
}

/// The transcript file was read: the transcript is recorded and saved.
pub open spec fn on_transcript_read(
    s: RunModel,
    read: Result<Seq<char>, Seq<char>>,
    now: Seq<char>,
) -> (RunModel, ActionModel) {
    match transcript_verdict(read) {
        Ok(transcript) => persist(
            s,
            RecordModel {
                transcribed: true,
                transcript_content: Some(transcript),
                updated_at: now,
                ..s.record
            },
            Phase::SavingTranscript,
        ),
        Err(error) => fail(s, error),
    }
}

/// The provider answered or failed to: either way a summary is recorded and
/// saved.
pub open spec fn on_replied(s: RunModel, reply: ApiReplyModel, now: Seq<char>) -> (
    RunModel,
    ActionModel,
) {
    match s.record.transcript_content {
        Some(transcript) => persist(
            s,
            RecordModel {
                summarized: true,
                summary_content: Some(summary_after(transcript, reply)),
                updated_at: now,
                ..s.record
            },
            Phase::SavingSummary,
        ),
        None => (s, ActionModel::Fail { error: unexpected_event() }),
    }
}

/// Whether the run waits for the store to be saved.
pub open spec fn is_saving(phase: Phase) -> bool {
    phase == Phase::SavingRepair || phase == Phase::SavingDownload || phase
        == Phase::SavingTranscript || phase == Phase::SavingSummary
}

/// The store was saved, or not: a failure ends the run, a success lets it go
/// on with the stage after the one just recorded.
pub open spec fn on_saved(s: RunModel, outcome: SaveModel, now: Seq<char>) -> (
    RunModel,
    ActionModel,
) {
    match outcome {
        SaveModel::SerializeFailed(reason) => fail(
            s,
            failure(FailureKind::StoreSerializeFailed, Stage::Store, reason),
        ),
        SaveModel::WriteFailed(reason) => fail(
            s,
            failure(FailureKind::StoreWriteFailed, Stage::Store, reason),
        ),
        SaveModel::Saved => match s.phase {
            Phase::SavingRepair => begin_download(s, now),
            Phase::SavingDownload => begin_transcribe(s, now),
            Phase::SavingTranscript => begin_summary(s, now),
            _ => (moved(s, Phase::Finished), ActionModel::Finish),
        },
    }
}

/// What a run does with a report: the transition of the phase that awaits
/// this kind of report. Any other report changes nothing and is answered
/// with a failure.
pub open spec fn step_model(s: RunModel, event: EventModel, now: Seq<char>) -> (
    RunModel,
    ActionModel,
) {
    match (s.phase, event) {
        (Phase::LoadingStore, EventModel::StoreLoaded(snapshot)) => on_store_loaded(s, snapshot),
        (Phase::PreparingDir, EventModel::DirReady(failed)) => on_dir_ready(s, failed, now),
        (Phase::Repairing, EventModel::DirListed(listing)) => on_repair_listed(s, listing, now),
        (Phase::ProbingDownloader, EventModel::ToolExited(exit)) => on_probed(s, exit),
        (Phase::FetchingTitle, EventModel::ToolExited(exit)) => on_title(s, exit),
        (Phase::Downloading, EventModel::ToolExited(exit)) => on_downloaded(s, exit),
        (Phase::Settling, EventModel::Paused) => on_settled(s),
        (Phase::LocatingAudio, EventModel::DirListed(listing)) => on_audio_listed(s, listing, now),
        (Phase::Transcribing, EventModel::ToolExited(exit)) => on_transcribed(s, exit),
        (Phase::LocatingTranscript, EventModel::DirListed(listing)) => on_transcript_listed(
            s,
            listing,
        ),
        (Phase::ReadingTranscript, EventModel::TextRead(read)) => on_transcript_read(s, read, now),
        (Phase::Summarizing, EventModel::ApiReplied(reply)) => on_replied(s, reply, now),
        (_, EventModel::StoreSaved(outcome)) if is_saving(s.phase) => on_saved(s, outcome, now),
        _ => (s, ActionModel::Fail { error: unexpected_event() }),
    }
}

} // verus!
