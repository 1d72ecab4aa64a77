//! The pipeline's decisions: how a run starts and what it does with each
//! report of its driver.

use vstd::prelude::*;

use crate::adapters::{
    check_download, check_downloader, check_transcriber, download_video_to_dir, read_title,
    transcribe_audio_file, transcript_not_found,
};
use crate::artifacts::{find_audio_in, find_transcript_in, DirEntryInfo};
use crate::clock::{get_current_timestamp, is_timestamp};
use crate::errors::{FailureKind, PipelineError, Stage};
use crate::identity::{generate_video_id, video_id_text};
use crate::paths::{
    expand_tilde_path, expanded_path, get_vault_config_path, get_vault_path, get_video_dir_path,
    joined_path, path_parent, store_file_name, vault_dir_name,
};
use crate::pipeline::{
    Action, ActionModel, ContextModel, Event, Phase, PipelineRun, RunContext, RunModel,
    SaveOutcome, StoreSnapshot,
};
use crate::record::{fresh_record, opt_text, Vault, VideoRecord};
use crate::store::load_vault;
use crate::summary::{
    finish_summary, provider_for, summarize_transcript_content, ApiProvider, ApiReply,
    SummaryPlan,
};
use crate::tools::{
    build_download_command, build_probe_command, build_title_command, build_transcribe_command,
    ToolExit,
};
use crate::transitions::{
    begin_download, begin_summary, begin_transcribe, fail, missing_audio, moved, on_audio_listed,
    on_dir_ready, on_downloaded, on_probed, on_replied, on_repair_listed, on_saved, on_settled,
    on_store_loaded, on_title, on_transcribed, on_transcript_listed, on_transcript_read, persist,
    prepare_dir, step_model, unexpected_event, SETTLE_MILLIS,
};

verus! {

/// The text held by an optional string slice.
pub open spec fn opt_str(o: Option<&str>) -> Option<Seq<char>> {
    match o {
        Some(s) => Some(s@),
        None => None,
    }
}

/// The layout and settings of the run for `url`: the vault lies below the
/// base path, or below the temporary directory where none is given, after a
/// leading `~/` has been replaced by the home directory.
pub open spec fn context_for(
    url: Seq<char>,
    base_path: Option<Seq<char>>,
    temp_dir: Seq<char>,
    home: Option<Seq<char>>,
    api_key: Option<Seq<char>>,
    api_provider: Option<Seq<char>>,
) -> ContextModel {
    let base = expanded_path(
        match base_path {
            Some(path) => path,
            None => temp_dir,
        },
        home,
    );
    let vault_path = joined_path(base, vault_dir_name());
    ContextModel {
        url,
        video_id: video_id_text(url),
        vault_path,
        store_path: joined_path(vault_path, store_file_name()),
        video_dir: joined_path(vault_path, video_id_text(url)),
        api_key,
        provider: provider_for(api_provider),
    }
}

/// A run that has yet to load its store: the vault is empty and the record
/// is the fresh one.
pub open spec fn initial_run(context: ContextModel, now: Seq<char>) -> RunModel {
    RunModel {
        context,
        phase: Phase::LoadingStore,
        vault: Map::empty(),
        record: fresh_record(context.video_id, context.url, now),
        title: Seq::empty(),
    }
}

/// Starts a run for the item at `url`. The run's first request is to load
/// the store.
pub fn process_video_pipeline(
    url: &str,
    base_path: Option<&str>,
    temp_dir: &str,
    home: Option<&str>,
    api_key: Option<String>,
    api_provider: Option<&str>,
    now: &str,
) -> (r: (PipelineRun, Action))
    ensures
        r.0@ == initial_run(
            context_for(
                url@,
                opt_str(base_path),
                temp_dir@,
                opt_str(home),
                opt_text(api_key),
                opt_str(api_provider),
            ),
            now@,
        ),
        r.1@ == (ActionModel::LoadStore { path: r.0@.context.store_path }),
{
    let base_dir = match base_path {
        Some(path) => path,
        None => temp_dir,
    };
    let expanded = expand_tilde_path(base_dir, home);
    let vault_path = get_vault_path(expanded.as_str());
    let video_id = generate_video_id(url);
    let store_path = get_vault_config_path(vault_path.as_str());
    let video_dir = get_video_dir_path(vault_path.as_str(), video_id.as_str());
    let record = VideoRecord::new(video_id.clone(), url.to_owned(), now.to_owned());
    let action = Action::LoadStore { path: store_path.clone() };
    let context = RunContext {
        url: url.to_owned(),
        video_id,
        vault_path,
        store_path,
        video_dir,
        api_key,
        provider: ApiProvider::from_tag(api_provider),
    };
    let run = PipelineRun {
        context,
        phase: Phase::LoadingStore,
        vault: Vault::new(),
        record,
        title: String::new(),
    };
    (run, action)
}

/// Starts a run for the item at `url` at the present moment:
/// [`process_video_pipeline`] with the clock's timestamp for `now`, so that a
/// fresh record is created with a timestamp.
pub fn start_video_pipeline(
    url: &str,
    base_path: Option<&str>,
    temp_dir: &str,
    home: Option<&str>,
    api_key: Option<String>,
    api_provider: Option<&str>,
) -> (r: (PipelineRun, Action))
    ensures
        exists|now: Seq<char>|
            is_timestamp(now) && r.0@ == #[trigger] initial_run(
                context_for(
                    url@,
                    opt_str(base_path),
                    temp_dir@,
                    opt_str(home),
                    opt_text(api_key),
                    opt_str(api_provider),
                ),
                now,
            ),
        is_timestamp(r.0@.record.created_at),
        r.1@ == (ActionModel::LoadStore { path: r.0@.context.store_path }),
{
    let now = get_current_timestamp();
    process_video_pipeline(url, base_path, temp_dir, home, api_key, api_provider, now.as_str())
}

impl PipelineRun {
    fn moved(self, phase: Phase) -> (run: PipelineRun)
        ensures
            run@ == moved(self@, phase),
    {
        let mut run = self;
        run.phase = phase;
        run
    }

    fn fail(self, error: PipelineError) -> (r: (PipelineRun, Action))
        ensures
            (r.0@, r.1@) == fail(self@, error@),
    {
        (self.moved(Phase::Failed), Action::Fail { error })
    }

    fn unexpected(self) -> (r: (PipelineRun, Action))
        ensures
            r.0@ == self@,
            r.1@ == (ActionModel::Fail { error: unexpected_event() }),
    {
        let error = PipelineError::new(
            FailureKind::UnexpectedEvent,
            Stage::Protocol,
            String::new(),
        );
        (self, Action::Fail { error })
    }

    fn missing_audio(self) -> (r: (PipelineRun, Action))
        ensures
            (r.0@, r.1@) == fail(self@, missing_audio()),
    {
        let error = PipelineError::new(
            FailureKind::MissingAudioArtifact,
            Stage::Transcribe,
            "无法转录：未找到音频文件路径".to_owned(),
        );
        self.fail(error)
    }

    /// Files the run's record in the vault and asks for the vault to be saved.
    fn persist(self, phase: Phase) -> (r: (PipelineRun, Action))
        ensures
            (r.0@, r.1@) == persist(self@, self@.record, phase),
    {
        let PipelineRun { context, phase: _, vault, record, title } = self;
        let vault = vault.insert(context.video_id.clone(), record.duplicate());
        let action = Action::SaveStore {
            vault_path: context.vault_path.clone(),
            store_path: context.store_path.clone(),
        };
        (PipelineRun { context, phase, vault, record, title }, action)
    }

    fn begin_summary(self, now: &str) -> (r: (PipelineRun, Action))
        ensures
            (r.0@, r.1@) == begin_summary(self@, now@),
    {
        let plan = if self.record.summarized {
            None
        } else {
            match &self.record.transcript_content {
                Some(transcript) => Some(
                    summarize_transcript_content(
                        transcript.as_str(),
                        &self.context.api_key,
                        self.context.provider,
                    ),
                ),
                None => None,
            }
        };
        match plan {
            None => (self.moved(Phase::Finished), Action::Finish),
            Some(SummaryPlan::Local(summary)) => {
                let mut run = self;
                run.record.summarized = true;
                run.record.summary_content = Some(summary);
                run.record.updated_at = now.to_owned();
                run.persist(Phase::SavingSummary)
            },
            Some(SummaryPlan::Remote(request)) => (
                self.moved(Phase::Summarizing),
                Action::CallApi { request },
            ),
        }
    }

    fn begin_transcribe(self, now: &str) -> (r: (PipelineRun, Action))
        ensures
            (r.0@, r.1@) == begin_transcribe(self@, now@),
    {
        if self.record.transcribed {
            return self.begin_summary(now);
        }
        let command = match &self.record.audio_file {
            Some(audio) => match path_parent(audio.as_str()) {
                Some(dir) => Some(build_transcribe_command(audio.as_str(), dir.as_str())),
                None => None,
            },
            None => None,
        };
        match command {
            Some(command) => (self.moved(Phase::Transcribing), Action::RunTool { command }),
            None => self.missing_audio(),
        }
    }

    fn begin_download(self, now: &str) -> (r: (PipelineRun, Action))
        ensures
            (r.0@, r.1@) == begin_download(self@, now@),
    {
        if self.record.downloaded {
            self.begin_transcribe(now)
        } else {
            let command = build_probe_command();
            (self.moved(Phase::ProbingDownloader), Action::RunTool { command })
        }
    }

    fn on_store_loaded(self, snapshot: StoreSnapshot) -> (r: (PipelineRun, Action))
        ensures
            (r.0@, r.1@) == on_store_loaded(self@, snapshot@),
    {
        match snapshot {
            StoreSnapshot::Absent => {
                let mut run = self;
                run.vault = Vault::new();
                run.prepare_dir()
            },
            StoreSnapshot::Present(document) => match load_vault(&document) {
                Ok(vault) => {
                    let known = match vault.get(self.context.video_id.as_str()) {
                        Some(record) => Some(record.duplicate()),
                        None => None,
                    };
                    let mut run = self;
                    run.vault = vault;
                    if let Some(record) = known {
                        run.record = record;
                    }
                    run.prepare_dir()
                },
                Err(error) => self.fail(error),
            },
            StoreSnapshot::Unreadable(reason) => self.fail(
                PipelineError::new(FailureKind::StoreUnreadable, Stage::Store, reason),
            ),
            StoreSnapshot::Corrupt(reason) => self.fail(
                PipelineError::new(FailureKind::StoreCorrupt, Stage::Store, reason),
            ),
        }
    }

    fn prepare_dir(self) -> (r: (PipelineRun, Action))
        ensures
            (r.0@, r.1@) == prepare_dir(self@),
    {
        let path = self.context.video_dir.clone();
        (self.moved(Phase::PreparingDir), Action::EnsureDir { path })
    }

    fn list_item_dir(self, phase: Phase) -> (r: (PipelineRun, Action))
        ensures
            r.0@ == moved(self@, phase),
            r.1@ == (ActionModel::ListDir { path: self@.context.video_dir }),
    {
        let path = self.context.video_dir.clone();
        (self.moved(phase), Action::ListDir { path })
    }

    fn on_dir_ready(self, failed: Option<String>, now: &str) -> (r: (PipelineRun, Action))
        ensures
            (r.0@, r.1@) == on_dir_ready(self@, opt_text(failed), now@),
    {
        match failed {
            Some(reason) => self.fail(
                PipelineError::new(FailureKind::DirectoryFailed, Stage::Prepare, reason),
            ),
            None => {
                if self.record.downloaded && self.record.audio_file.is_none() {
                    self.list_item_dir(Phase::Repairing)
                } else {
                    self.begin_download(now)
                }
            },
        }
    }

    fn on_repair_listed(self, listing: Option<Vec<DirEntryInfo>>, now: &str) -> (r: (
        PipelineRun,
        Action,
    ))
        ensures
            (r.0@, r.1@) == on_repair_listed(
                self@,
                crate::artifacts::listing_model(listing),
                now@,
            ),
    {
        match find_audio_in(&listing) {
            Some(path) => {
                let mut run = self;
                run.record.audio_file = Some(path);
                run.record.updated_at = now.to_owned();
                run.persist(Phase::SavingRepair)
            },
            None => self.begin_download(now),
        }
    }

    fn on_probed(self, exit: ToolExit) -> (r: (PipelineRun, Action))
        ensures
            (r.0@, r.1@) == on_probed(self@, exit@),
    {
        match check_downloader(&exit) {
            Some(error) => self.fail(error),
            None => {
                let command = build_title_command(self.context.url.as_str());
                (self.moved(Phase::FetchingTitle), Action::RunTool { command })
            },
        }
    }

    fn on_title(self, exit: ToolExit) -> (r: (PipelineRun, Action))
        ensures
            (r.0@, r.1@) == on_title(self@, exit@),
    {
        match read_title(&exit) {
            Err(error) => self.fail(error),
            Ok(title) => {
                let command = build_download_command(
                    self.context.url.as_str(),
                    self.context.video_dir.as_str(),
                );
                let mut run = self;
                run.phase = Phase::Downloading;
                run.title = title;
                (run, Action::RunTool { command })
            },
        }
    }

    fn on_downloaded(self, exit: ToolExit) -> (r: (PipelineRun, Action))
        ensures
            (r.0@, r.1@) == on_downloaded(self@, exit@),
    {
        match check_download(&exit) {
            Some(error) => self.fail(error),
            None => (self.moved(Phase::Settling), Action::Pause { millis: SETTLE_MILLIS }),
        }
    }

    fn on_settled(self) -> (r: (PipelineRun, Action))
        ensures
            (r.0@, r.1@) == on_settled(self@),
    {
        self.list_item_dir(Phase::LocatingAudio)
    }

    fn on_audio_listed(self, listing: Option<Vec<DirEntryInfo>>, now: &str) -> (r: (
        PipelineRun,
        Action,
    ))
        ensures
            (r.0@, r.1@) == on_audio_listed(self@, crate::artifacts::listing_model(listing), now@),
    {
        match download_video_to_dir(self.context.video_dir.as_str(), &listing) {
            Ok(path) => {
                let mut run = self;
                run.record.downloaded = true;
                run.record.audio_file = Some(path);
                run.record.title = Some(run.title.clone());
                run.record.updated_at = now.to_owned();
                run.persist(Phase::SavingDownload)
            },
            Err(error) => self.fail(error),
        }
    }

    fn on_transcribed(self, exit: ToolExit) -> (r: (PipelineRun, Action))
        ensures
            (r.0@, r.1@) == on_transcribed(self@, exit@),
    {
        match check_transcriber(&exit) {
            Some(error) => self.fail(error),
            None => {
                let dir = match &self.record.audio_file {
                    Some(audio) => path_parent(audio.as_str()),
                    None => None,
                };
                match dir {
                    Some(path) => (
                        self.moved(Phase::LocatingTranscript),
                        Action::ListDir { path },
                    ),
                    None => self.missing_audio(),
                }
            },
        }
    }

    fn on_transcript_listed(self, listing: Option<Vec<DirEntryInfo>>) -> (r: (
        PipelineRun,
        Action,
    ))
        ensures
            (r.0@, r.1@) == on_transcript_listed(self@, crate::artifacts::listing_model(listing)),
    {
        let found = match &self.record.audio_file {
            Some(audio) => Some(find_transcript_in(audio.as_str(), &listing)),
            None => None,
        };
        match found {
            Some(Some(path)) => (self.moved(Phase::ReadingTranscript), Action::ReadText { path }),
            Some(None) => self.fail(transcript_not_found(&listing)),
            None => self.missing_audio(),
        }
    }

    fn on_transcript_read(self, read: Result<String, String>, now: &str) -> (r: (
        PipelineRun,
        Action,
    ))
        ensures
            (r.0@, r.1@) == on_transcript_read(self@, crate::adapters::read_model(read), now@),
    {
        match transcribe_audio_file(&read) {
            Ok(transcript) => {
                let mut run = self;
                run.record.transcribed = true;
                run.record.transcript_content = Some(transcript);
                run.record.updated_at = now.to_owned();
                run.persist(Phase::SavingTranscript)
            },
            Err(error) => self.fail(error),
        }
    }

    fn on_replied(self, reply: ApiReply, now: &str) -> (r: (PipelineRun, Action))
        ensures
            (r.0@, r.1@) == on_replied(self@, reply@, now@),
    {
        let summary = match &self.record.transcript_content {
            Some(transcript) => Some(finish_summary(transcript.as_str(), &reply)),
            None => None,
        };
        match summary {
            Some(summary) => {
                let mut run = self;
                run.record.summarized = true;
                run.record.summary_content = Some(summary);
                run.record.updated_at = now.to_owned();
                run.persist(Phase::SavingSummary)
            },
            None => self.unexpected(),
        }
    }

    fn on_saved(self, outcome: SaveOutcome, now: &str) -> (r: (PipelineRun, Action))
        ensures
            (r.0@, r.1@) == on_saved(self@, outcome@, now@),
    {
        match outcome {
            SaveOutcome::SerializeFailed(reason) => self.fail(
                PipelineError::new(FailureKind::StoreSerializeFailed, Stage::Store, reason),
            ),
            SaveOutcome::WriteFailed(reason) => self.fail(
                PipelineError::new(FailureKind::StoreWriteFailed, Stage::Store, reason),
            ),
            SaveOutcome::Saved => match self.phase {
                Phase::SavingRepair => self.begin_download(now),
                Phase::SavingDownload => self.begin_transcribe(now),
                Phase::SavingTranscript => self.begin_summary(now),
                _ => (self.moved(Phase::Finished), Action::Finish),
            },
        }
    }

    /// Takes the driver's report and answers with the next request. `now` is
    /// the current time as text; it becomes the record's time of last change
    /// where this step changes the record.
    pub fn step(self, event: Event, now: &str) -> (r: (PipelineRun, Action))
        ensures
            (r.0@, r.1@) == step_model(self@, event@, now@),
    {
        match event {
            Event::StoreLoaded(snapshot) => match self.phase {
                Phase::LoadingStore => self.on_store_loaded(snapshot),
                _ => self.unexpected(),
            },
            Event::DirReady(failed) => match self.phase {
                Phase::PreparingDir => self.on_dir_ready(failed, now),
                _ => self.unexpected(),
            },
            Event::DirListed(listing) => match self.phase {
                Phase::Repairing => self.on_repair_listed(listing, now),
                Phase::LocatingAudio => self.on_audio_listed(listing, now),
                Phase::LocatingTranscript => self.on_transcript_listed(listing),
                _ => self.unexpected(),
            },
            Event::ToolExited(exit) => match self.phase {
                Phase::ProbingDownloader => self.on_probed(exit),
                Phase::FetchingTitle => self.on_title(exit),
                Phase::Downloading => self.on_downloaded(exit),
                Phase::Transcribing => self.on_transcribed(exit),
                _ => self.unexpected(),
            },
            Event::Paused => match self.phase {
                Phase::Settling => self.on_settled(),
                _ => self.unexpected(),
            },
            Event::TextRead(read) => match self.phase {
                Phase::ReadingTranscript => self.on_transcript_read(read, now),
                _ => self.unexpected(),
            },
            Event::ApiReplied(reply) => match self.phase {
                Phase::Summarizing => self.on_replied(reply, now),
                _ => self.unexpected(),
            },
            Event::StoreSaved(outcome) => match self.phase {
                Phase::SavingRepair
                | Phase::SavingDownload
                | Phase::SavingTranscript
                | Phase::SavingSummary => self.on_saved(outcome, now),
                _ => self.unexpected(),
            },
        }
    }

    /// Takes the driver's report at the present moment: [`PipelineRun::step`]
    /// with the clock's timestamp for `now`.
    pub fn advance(self, event: Event) -> (r: (PipelineRun, Action))
        ensures
            exists|now: Seq<char>|
                is_timestamp(now) && (r.0@, r.1@) == #[trigger] step_model(self@, event@, now),
    {
        let now = get_current_timestamp();
        self.step(event, now.as_str())
    }
}

} // verus!
