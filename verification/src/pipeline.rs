//! The pipeline as a state machine: what a run is, what it asks its driver
//! to do, and what the driver reports back.

use vstd::prelude::*;

use crate::artifacts::{listing_model, DirEntryInfo, EntryModel};
use crate::errors::{ErrorModel, PipelineError};
use crate::record::{opt_text, RecordModel, Vault, VideoRecord};
use crate::store::{DocumentModel, StoreDocument};
use crate::summary::{ApiProvider, ApiReply, ApiReplyModel, ChatRequest, ChatRequestModel};
use crate::tools::{CommandModel, ExitModel, ToolCommand, ToolExit};

verus! {

/// Where a run stands: what it is waiting for, or how it ended.
#[derive(Clone, Copy, Debug, PartialEq, Eq, Structural)]
pub enum Phase {
    /// Waiting for the store to be loaded.
    LoadingStore,
    /// Waiting for the item's directory to exist.
    PreparingDir,
    /// Waiting for the item directory's listing, to find the audio file of
    /// a record that lost track of it.
    Repairing,
    /// Waiting for the store to be saved after a repair.
    SavingRepair,
    /// Waiting for the downloader's probe.
    ProbingDownloader,
    /// Waiting for the title query.
    FetchingTitle,
    /// Waiting for the download.
    Downloading,
    /// Waiting for the downloaded file to settle.
    Settling,
    /// Waiting for the item directory's listing, to find the download.
    LocatingAudio,
    /// Waiting for the store to be saved after the download.
    SavingDownload,
    /// Waiting for the transcriber.
    Transcribing,
    /// Waiting for the audio directory's listing, to find the transcript.
    LocatingTranscript,
    /// Waiting for the transcript file's text.
    ReadingTranscript,
    /// Waiting for the store to be saved after the transcription.
    SavingTranscript,
    /// Waiting for the provider's answer.
    Summarizing,
    /// Waiting for the store to be saved after the summary.
    SavingSummary,
    /// The run is complete.
    Finished,
    /// The run was given up.
    Failed,
}

/// What stays the same throughout a run.
#[derive(Clone, Debug, PartialEq, Eq)]
pub struct RunContext {
    pub url: String,
    pub video_id: String,
    pub vault_path: String,
    pub store_path: String,
    pub video_dir: String,
    pub api_key: Option<String>,
    pub provider: ApiProvider,
}

/// What a [`RunContext`] means.
pub struct ContextModel {
    pub url: Seq<char>,
    pub video_id: Seq<char>,
    pub vault_path: Seq<char>,
    pub store_path: Seq<char>,
    pub video_dir: Seq<char>,
    pub api_key: Option<Seq<char>>,
    pub provider: ApiProvider,
}

impl View for RunContext {
    type V = ContextModel;

    open spec fn view(&self) -> ContextModel {
        ContextModel {
            url: self.url@,
            video_id: self.video_id@,
            vault_path: self.vault_path@,
            store_path: self.store_path@,
            video_dir: self.video_dir@,
            api_key: opt_text(self.api_key),
            provider: self.provider,
        }
    }
}

/// One run of the pipeline for one item.
#[derive(Debug)]
pub struct PipelineRun {
    pub context: RunContext,
    pub phase: Phase,
    /// The vault as last loaded or saved.
    pub vault: Vault,
    /// The item's record.
    pub record: VideoRecord,
    /// The title the downloader reported, until the download is recorded.
    pub title: String,
}

/// What a [`PipelineRun`] means.
pub struct RunModel {
    pub context: ContextModel,
    pub phase: Phase,
    pub vault: Map<Seq<char>, RecordModel>,
    pub record: RecordModel,
    pub title: Seq<char>,
}

impl View for PipelineRun {
    type V = RunModel;

    open spec fn view(&self) -> RunModel {
        RunModel {
            context: self.context@,
            phase: self.phase,
            vault: self.vault@,
            record: self.record@,
            title: self.title@,
        }
    }
}

/// What the driver found where the store file should be.
#[derive(Clone, Debug, PartialEq, Eq)]
pub enum StoreSnapshot {
    /// There is no store file yet.
    Absent,
    /// The file is there but could not be read.
    Unreadable(String),
    /// The file was read but could not be parsed.
    Corrupt(String),
    /// The file was parsed and held this.
    Present(StoreDocument),
}

/// What a [`StoreSnapshot`] means.
pub enum SnapshotModel {
    Absent,
    Unreadable(Seq<char>),
    Corrupt(Seq<char>),
    Present(DocumentModel),
}

impl View for StoreSnapshot {
    type V = SnapshotModel;

    open spec fn view(&self) -> SnapshotModel {
        match self {
            StoreSnapshot::Absent => SnapshotModel::Absent,
            StoreSnapshot::Unreadable(reason) => SnapshotModel::Unreadable(reason@),
            StoreSnapshot::Corrupt(reason) => SnapshotModel::Corrupt(reason@),
            StoreSnapshot::Present(document) => SnapshotModel::Present(document@),
        }
    }
}

/// How saving the store went.
#[derive(Clone, Debug, PartialEq, Eq)]
pub enum SaveOutcome {
    /// The whole vault is on disk.
    Saved,
    /// The vault could not be rendered as text.
    SerializeFailed(String),
    /// The directory or the file could not be written.
    WriteFailed(String),
}

/// What a [`SaveOutcome`] means.
pub enum SaveModel {
    Saved,
    SerializeFailed(Seq<char>),
    WriteFailed(Seq<char>),
}

impl View for SaveOutcome {
    type V = SaveModel;

    open spec fn view(&self) -> SaveModel {
        match self {
            SaveOutcome::Saved => SaveModel::Saved,
            SaveOutcome::SerializeFailed(reason) => SaveModel::SerializeFailed(reason@),
            SaveOutcome::WriteFailed(reason) => SaveModel::WriteFailed(reason@),
        }
    }
}

/// What the driver reports back to a run.
#[derive(Debug, PartialEq, Eq)]
pub enum Event {
    /// The store was looked for.
    StoreLoaded(StoreSnapshot),
    /// The directory exists now, or could not be created for the reason given.
    DirReady(Option<String>),
    /// The directory's entries, or nothing where it could not be read.
    DirListed(Option<Vec<DirEntryInfo>>),
    /// The tool ended.
    ToolExited(ToolExit),
    /// The pause is over.
    Paused,
    /// The file's text, or the reason it could not be read.
    TextRead(Result<String, String>),
    /// The provider answered, or failed to.
    ApiReplied(ApiReply),
    /// The store was saved, or not.
    StoreSaved(SaveOutcome),
}

/// What an [`Event`] means.
pub enum EventModel {
    StoreLoaded(SnapshotModel),
    DirReady(Option<Seq<char>>),
    DirListed(Option<Seq<EntryModel>>),
    ToolExited(ExitModel),
    Paused,
    TextRead(Result<Seq<char>, Seq<char>>),
    ApiReplied(ApiReplyModel),
    StoreSaved(SaveModel),
}

impl View for Event {
    type V = EventModel;

    open spec fn view(&self) -> EventModel {
        match self {
            Event::StoreLoaded(snapshot) => EventModel::StoreLoaded(snapshot@),
            Event::DirReady(failure) => EventModel::DirReady(opt_text(*failure)),
            Event::DirListed(listing) => EventModel::DirListed(listing_model(*listing)),
            Event::ToolExited(exit) => EventModel::ToolExited(exit@),
            Event::Paused => EventModel::Paused,
            Event::TextRead(read) => EventModel::TextRead(crate::adapters::read_model(*read)),
            Event::ApiReplied(reply) => EventModel::ApiReplied(reply@),
            Event::StoreSaved(outcome) => EventModel::StoreSaved(outcome@),
        }
    }
}

/// What a run asks its driver to do next.
#[derive(Clone, Debug, PartialEq, Eq)]
pub enum Action {
    /// Look for the store file and report [`Event::StoreLoaded`].
    LoadStore { path: String },
    /// Create the directory with its parents and report [`Event::DirReady`].
    EnsureDir { path: String },
    /// List the directory and report [`Event::DirListed`].
    ListDir { path: String },
    /// Run the tool and report [`Event::ToolExited`].
    RunTool { command: ToolCommand },
    /// Wait and report [`Event::Paused`].
    Pause { millis: u64 },
    /// Read the file and report [`Event::TextRead`].
    ReadText { path: String },
    /// Post the request and report [`Event::ApiReplied`].
    CallApi { request: ChatRequest },
    /// Write the run's whole vault, as [`crate::store::save_vault`] renders
    /// it, to the store file, creating the vault directory where it is
    /// missing, and report [`Event::StoreSaved`].
    SaveStore { vault_path: String, store_path: String },
    /// Nothing: the run is complete and its record is final.
    Finish,
    /// Nothing: the run was given up, or the event was not awaited.
    Fail { error: PipelineError },
}

/// What an [`Action`] means.
pub enum ActionModel {
    LoadStore { path: Seq<char> },
    EnsureDir { path: Seq<char> },
    ListDir { path: Seq<char> },
    RunTool { command: CommandModel },
    Pause { millis: u64 },
    ReadText { path: Seq<char> },
    CallApi { request: ChatRequestModel },
    SaveStore { vault_path: Seq<char>, store_path: Seq<char> },
    Finish,
    Fail { error: ErrorModel },
}

impl View for Action {
    type V = ActionModel;

    open spec fn view(&self) -> ActionModel {
        match self {
            Action::LoadStore { path } => ActionModel::LoadStore { path: path@ },
            Action::EnsureDir { path } => ActionModel::EnsureDir { path: path@ },
            Action::ListDir { path } => ActionModel::ListDir { path: path@ },
            Action::RunTool { command } => ActionModel::RunTool { command: command@ },
            Action::Pause { millis } => ActionModel::Pause { millis: *millis },
            Action::ReadText { path } => ActionModel::ReadText { path: path@ },
            Action::CallApi { request } => ActionModel::CallApi { request: request@ },
            Action::SaveStore { vault_path, store_path } => ActionModel::SaveStore {
                vault_path: vault_path@,
                store_path: store_path@,
            },
            Action::Finish => ActionModel::Finish,
            Action::Fail { error } => ActionModel::Fail { error: error@ },
        }
    }
}

} // verus!
