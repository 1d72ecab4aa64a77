use video_transcriber::artifacts::DirEntryInfo;
use video_transcriber::errors::{FailureKind, PipelineError, Stage};
use video_transcriber::identity::generate_video_id;
use video_transcriber::pipeline::{Action, Event, Phase, PipelineRun, SaveOutcome, StoreSnapshot};
use video_transcriber::record::{Vault, VideoRecord};
use video_transcriber::run::{process_video_pipeline, start_video_pipeline};
use video_transcriber::store::{save_vault, FieldValue, StoreDocument, StoreField, StoreRow};
use video_transcriber::summary::{build_chat_request, generate_simple_summary, ApiProvider, ApiReply};
use video_transcriber::tools::{
    build_download_command, build_probe_command, build_title_command, build_transcribe_command,
    ToolExit,
};

const URL: &str = "https://example.com/v1";
const ID: &str = "c2939bd1ae5fce5b";
const ROOT: &str = "/base/video-transcriber-vault";
const DIR: &str = "/base/video-transcriber-vault/c2939bd1ae5fce5b";

fn begin(api_key: Option<&str>) -> (PipelineRun, Action) {
    process_video_pipeline(
        URL,
        Some("/base"),
        "/tmp",
        Some("/home/u"),
        api_key.map(|k| k.to_string()),
        None,
        "100",
    )
}

fn ok_exit(stdout: &str) -> ToolExit {
    ToolExit {
        launched: true,
        launch_error: String::new(),
        success: true,
        code: Some(0),
        stdout: stdout.to_string(),
        stderr: String::new(),
    }
}

fn bad_exit(stderr: &str) -> ToolExit {
    ToolExit {
        launched: true,
        launch_error: String::new(),
        success: false,
        code: Some(1),
        stdout: String::new(),
        stderr: stderr.to_string(),
    }
}

fn file(name: &str) -> DirEntryInfo {
    DirEntryInfo { name: name.to_string(), path: format!("{}/{}", DIR, name), is_file: true }
}

fn save_action() -> Action {
    Action::SaveStore { vault_path: ROOT.to_string(), store_path: format!("{}/vault.toml", ROOT) }
}

fn done_record() -> VideoRecord {
    VideoRecord {
        id: ID.to_string(),
        url: URL.to_string(),
        title: Some("Talk".to_string()),
        downloaded: true,
        transcribed: true,
        summarized: true,
        audio_file: Some(format!("{}/Talk.wav", DIR)),
        transcript_content: Some("Some words.".to_string()),
        summary_content: Some("A summary".to_string()),
        created_at: "10".to_string(),
        updated_at: "20".to_string(),
    }
}

fn loaded_with(record: VideoRecord, api_key: Option<&str>) -> (PipelineRun, Action) {
    let (run, _) = begin(api_key);
    let vault = Vault::new().insert(ID.to_string(), record);
    let document = save_vault(&vault);
    let (run, action) = run.step(Event::StoreLoaded(StoreSnapshot::Present(document)), "101");
    assert_eq!(action, Action::EnsureDir { path: DIR.to_string() });
    run.step(Event::DirReady(None), "102")
}

#[test]
fn run_starts_by_loading_the_store() {
    let (run, action) = begin(Some("key"));
    assert_eq!(action, Action::LoadStore { path: format!("{}/vault.toml", ROOT) });
    assert_eq!(run.phase, Phase::LoadingStore);
    assert_eq!(run.context.url, URL);
    assert_eq!(run.context.video_id, generate_video_id(URL));
    assert_eq!(run.context.video_id, ID);
    assert_eq!(run.context.vault_path, ROOT);
    assert_eq!(run.context.video_dir, DIR);
    assert_eq!(run.context.api_key, Some("key".to_string()));
    assert_eq!(run.context.provider, ApiProvider::OpenAI);
    assert_eq!(run.record, VideoRecord::new(ID.to_string(), URL.to_string(), "100".to_string()));
    assert!(run.vault.entries().is_empty());
}

#[test]
fn base_path_defaults_to_the_temporary_directory_and_expands_home() {
    let (run, _) = process_video_pipeline(URL, None, "/tmp", None, None, Some("deepseek"), "1");
    assert_eq!(run.context.vault_path, "/tmp/video-transcriber-vault");
    assert_eq!(run.context.provider, ApiProvider::DeepSeek);
    let (run, _) =
        process_video_pipeline(URL, Some("~/media"), "/tmp", Some("/home/u"), None, None, "1");
    assert_eq!(run.context.vault_path, "/home/u/media/video-transcriber-vault");
}

#[test]
fn fresh_item_goes_through_all_three_stages() {
    let (run, _) = begin(None);
    let (run, action) = run.step(Event::StoreLoaded(StoreSnapshot::Absent), "101");
    assert_eq!(action, Action::EnsureDir { path: DIR.to_string() });
    let (run, action) = run.step(Event::DirReady(None), "102");
    assert_eq!(action, Action::RunTool { command: build_probe_command() });
    let (run, action) = run.step(Event::ToolExited(ok_exit("2024.01.01\n")), "103");
    assert_eq!(action, Action::RunTool { command: build_title_command(URL) });
    let (run, action) = run.step(Event::ToolExited(ok_exit("My Talk\n")), "104");
    assert_eq!(action, Action::RunTool { command: build_download_command(URL, DIR) });
    let (run, action) = run.step(Event::ToolExited(ok_exit("")), "105");
    assert_eq!(action, Action::Pause { millis: 1000 });
    assert!(!run.record.downloaded);
    let (run, action) = run.step(Event::Paused, "106");
    assert_eq!(action, Action::ListDir { path: DIR.to_string() });
    let (run, action) = run.step(Event::DirListed(Some(vec![file("My Talk.wav")])), "107");
    assert_eq!(action, save_action());
    assert_eq!(run.phase, Phase::SavingDownload);
    assert!(run.record.downloaded);
    assert_eq!(run.record.id, generate_video_id(URL));
    assert_eq!(run.record.audio_file, Some(format!("{}/My Talk.wav", DIR)));
    assert_eq!(run.record.title, Some("My Talk".to_string()));
    assert_eq!(run.record.created_at, "100");
    assert_eq!(run.record.updated_at, "107");
    assert_eq!(run.vault.entries().len(), 1);
    assert_eq!(run.vault.get(ID), Some(&run.record));

    let audio = format!("{}/My Talk.wav", DIR);
    let (run, action) = run.step(Event::StoreSaved(SaveOutcome::Saved), "108");
    assert_eq!(action, Action::RunTool { command: build_transcribe_command(&audio, DIR) });
    let (run, action) = run.step(Event::ToolExited(ok_exit("")), "109");
    assert_eq!(action, Action::ListDir { path: DIR.to_string() });
    let listing = vec![file("My Talk.wav"), file("My Talk.txt")];
    let (run, action) = run.step(Event::DirListed(Some(listing)), "110");
    assert_eq!(action, Action::ReadText { path: format!("{}/My Talk.txt", DIR) });
    let (run, action) = run.step(Event::TextRead(Ok(" First. Second. \n".to_string())), "111");
    assert_eq!(action, save_action());
    assert!(run.record.transcribed);
    assert_eq!(run.record.transcript_content, Some("First. Second.".to_string()));
    assert_eq!(run.record.updated_at, "111");
    assert_eq!(run.vault.get(ID), Some(&run.record));

    let (run, action) = run.step(Event::StoreSaved(SaveOutcome::Saved), "112");
    assert_eq!(action, save_action());
    assert_eq!(run.phase, Phase::SavingSummary);
    assert!(run.record.summarized);
    assert_eq!(run.record.summary_content, Some(generate_simple_summary("First. Second.")));
    assert_eq!(run.record.updated_at, "112");
    assert_eq!(run.vault.get(ID), Some(&run.record));

    let (run, action) = run.step(Event::StoreSaved(SaveOutcome::Saved), "113");
    assert_eq!(action, Action::Finish);
    assert_eq!(run.phase, Phase::Finished);
    assert_eq!(run.record.created_at, "100");
    assert_eq!(run.record.updated_at, "112");
}

#[test]
fn complete_record_is_returned_without_any_stage_running() {
    let (run, _) = begin(Some("key"));
    let other = VideoRecord::new("other".to_string(), "u".to_string(), "1".to_string());
    let vault = Vault::new()
        .insert("other".to_string(), other.duplicate())
        .insert(ID.to_string(), done_record());
    let document = save_vault(&vault);
    let (run, action) = run.step(Event::StoreLoaded(StoreSnapshot::Present(document)), "101");
    assert_eq!(action, Action::EnsureDir { path: DIR.to_string() });
    let (run, action) = run.step(Event::DirReady(None), "102");
    assert_eq!(action, Action::Finish);
    assert_eq!(run.phase, Phase::Finished);
    assert_eq!(run.record, done_record());
    assert_eq!(run.vault.entries().len(), 2);
    assert_eq!(run.vault.get(ID), Some(&done_record()));
    assert_eq!(run.vault.get("other"), Some(&other));
}

#[test]
fn download_that_leaves_no_audio_file_fails_and_changes_nothing() {
    let (run, _) = begin(None);
    let (run, _) = run.step(Event::StoreLoaded(StoreSnapshot::Absent), "101");
    let (run, _) = run.step(Event::DirReady(None), "102");
    let (run, _) = run.step(Event::ToolExited(ok_exit("1")), "103");
    let (run, _) = run.step(Event::ToolExited(ok_exit("T")), "104");
    let (run, _) = run.step(Event::ToolExited(ok_exit("")), "105");
    let (run, _) = run.step(Event::Paused, "106");
    let (run, action) = run.step(Event::DirListed(Some(vec![file("T.webm")])), "107");
    match action {
        Action::Fail { error } => {
            assert_eq!(error.kind, FailureKind::ArtifactMissing);
            assert_eq!(error.stage, Stage::Download);
            assert!(error.detail.ends_with("T.webm"));
        }
        other => panic!("unexpected action {:?}", other),
    }
    assert_eq!(run.phase, Phase::Failed);
    assert!(!run.record.downloaded);
    assert_eq!(run.record, VideoRecord::new(ID.to_string(), URL.to_string(), "100".to_string()));
    assert!(run.vault.entries().is_empty());
}

#[test]
fn failed_download_leaves_later_stages_untouched() {
    let (run, _) = begin(None);
    let (run, _) = run.step(Event::StoreLoaded(StoreSnapshot::Absent), "101");
    let (run, _) = run.step(Event::DirReady(None), "102");
    let (run, _) = run.step(Event::ToolExited(ok_exit("1")), "103");
    let (run, _) = run.step(Event::ToolExited(ok_exit("T")), "104");
    let (run, action) = run.step(Event::ToolExited(bad_exit("HTTP 403")), "105");
    assert_eq!(
        action,
        Action::Fail {
            error: PipelineError {
                kind: FailureKind::StageFailed,
                stage: Stage::Download,
                detail: "yt-dlp下载失败 (退出码: 1)\nSTDOUT: \nSTDERR: HTTP 403".to_string(),
            }
        }
    );
    assert_eq!(run.phase, Phase::Failed);
    assert!(!run.record.downloaded && !run.record.transcribed && !run.record.summarized);
    assert_eq!(run.record.transcript_content, None);
    assert_eq!(run.record.summary_content, None);
    assert!(run.vault.entries().is_empty());
}

#[test]
fn downloaded_record_is_not_downloaded_again() {
    let mut record = done_record();
    record.transcribed = false;
    record.transcript_content = None;
    record.summarized = false;
    record.summary_content = None;
    let audio = record.audio_file.clone().unwrap();
    let (run, action) = loaded_with(record, None);
    assert_eq!(action, Action::RunTool { command: build_transcribe_command(&audio, DIR) });
    assert_eq!(run.phase, Phase::Transcribing);
}

#[test]
fn transcribed_record_is_not_transcribed_again() {
    let mut record = done_record();
    record.summarized = false;
    record.summary_content = None;
    let (run, action) = loaded_with(record, Some("key"));
    assert_eq!(
        action,
        Action::CallApi { request: build_chat_request("Some words.", "key", ApiProvider::OpenAI) }
    );
    assert_eq!(run.phase, Phase::Summarizing);
}

#[test]
fn record_without_audio_path_is_repaired_from_the_directory() {
    let mut record = done_record();
    record.audio_file = None;
    record.transcribed = false;
    record.transcript_content = None;
    record.summarized = false;
    record.summary_content = None;
    let (run, action) = loaded_with(record, None);
    assert_eq!(action, Action::ListDir { path: DIR.to_string() });
    assert_eq!(run.phase, Phase::Repairing);
    let (run, action) = run.step(Event::DirListed(Some(vec![file("x.txt"), file("Talk.mp3")])), "103");
    assert_eq!(action, save_action());
    assert_eq!(run.record.audio_file, Some(format!("{}/Talk.mp3", DIR)));
    assert_eq!(run.record.updated_at, "103");
    assert!(run.record.downloaded);
    assert_eq!(run.vault.get(ID), Some(&run.record));
    let (run, action) = run.step(Event::StoreSaved(SaveOutcome::Saved), "104");
    let audio = format!("{}/Talk.mp3", DIR);
    assert_eq!(action, Action::RunTool { command: build_transcribe_command(&audio, DIR) });
    assert_eq!(run.phase, Phase::Transcribing);
}

#[test]
fn repair_that_finds_nothing_fails_only_when_transcription_is_due() {
    let mut record = done_record();
    record.audio_file = None;
    let (run, action) = loaded_with(record.duplicate(), None);
    assert_eq!(action, Action::ListDir { path: DIR.to_string() });
    let (run, action) = run.step(Event::DirListed(Some(Vec::new())), "103");
    assert_eq!(action, Action::Finish);
    assert_eq!(run.record, record);

    record.transcribed = false;
    record.summarized = false;
    let (run, _) = loaded_with(record.duplicate(), None);
    let (run, action) = run.step(Event::DirListed(None), "103");
    assert_eq!(
        action,
        Action::Fail {
            error: PipelineError {
                kind: FailureKind::MissingAudioArtifact,
                stage: Stage::Transcribe,
                detail: "无法转录：未找到音频文件路径".to_string(),
            }
        }
    );
    assert_eq!(run.phase, Phase::Failed);
    assert_eq!(run.record, record);
}

#[test]
fn provider_answer_becomes_the_summary() {
    let mut record = done_record();
    record.summarized = false;
    record.summary_content = None;
    let (run, _) = loaded_with(record, Some("key"));
    let reply = ApiReply { delivered: true, success: true, content: Some("Remote".to_string()) };
    let (run, action) = run.step(Event::ApiReplied(reply), "103");
    assert_eq!(action, save_action());
    assert!(run.record.summarized);
    assert_eq!(run.record.summary_content, Some("Remote".to_string()));
    let (run, action) = run.step(Event::StoreSaved(SaveOutcome::Saved), "104");
    assert_eq!(action, Action::Finish);
    assert_eq!(run.phase, Phase::Finished);
}

#[test]
fn provider_failure_falls_back_to_the_local_summary() {
    let mut record = done_record();
    record.summarized = false;
    record.summary_content = None;
    let (run, _) = loaded_with(record, Some("key"));
    let reply = ApiReply { delivered: true, success: false, content: None };
    let (run, action) = run.step(Event::ApiReplied(reply), "103");
    assert_eq!(action, save_action());
    assert!(run.record.summarized);
    assert_eq!(run.record.summary_content, Some(generate_simple_summary("Some words.")));
}

#[test]
fn record_without_transcript_is_not_summarised() {
    let mut record = done_record();
    record.summarized = false;
    record.summary_content = None;
    record.transcript_content = None;
    let (run, action) = loaded_with(record.duplicate(), None);
    assert_eq!(action, Action::Finish);
    assert_eq!(run.record, record);
}

#[test]
fn store_that_cannot_be_parsed_ends_the_run() {
    let (run, _) = begin(None);
    let (run, action) =
        run.step(Event::StoreLoaded(StoreSnapshot::Corrupt("line 3".to_string())), "101");
    assert_eq!(
        action,
        Action::Fail {
            error: PipelineError {
                kind: FailureKind::StoreCorrupt,
                stage: Stage::Store,
                detail: "line 3".to_string(),
            }
        }
    );
    assert_eq!(run.phase, Phase::Failed);
    let (run, _) = begin(None);
    let (_, action) =
        run.step(Event::StoreLoaded(StoreSnapshot::Unreadable("denied".to_string())), "101");
    match action {
        Action::Fail { error } => assert_eq!(error.kind, FailureKind::StoreUnreadable),
        other => panic!("unexpected action {:?}", other),
    }
}

#[test]
fn directory_and_store_failures_end_the_run() {
    let (run, _) = begin(None);
    let (run, _) = run.step(Event::StoreLoaded(StoreSnapshot::Absent), "101");
    let (run, action) = run.step(Event::DirReady(Some("read-only".to_string())), "102");
    assert_eq!(
        action,
        Action::Fail {
            error: PipelineError {
                kind: FailureKind::DirectoryFailed,
                stage: Stage::Prepare,
                detail: "read-only".to_string(),
            }
        }
    );
    assert_eq!(run.phase, Phase::Failed);

    let mut record = done_record();
    record.audio_file = None;
    let (run, _) = loaded_with(record, None);
    let (run, _) = run.step(Event::DirListed(Some(vec![file("a.wav")])), "103");
    let (run, action) =
        run.step(Event::StoreSaved(SaveOutcome::WriteFailed("disk full".to_string())), "104");
    match action {
        Action::Fail { error } => {
            assert_eq!(error.kind, FailureKind::StoreWriteFailed);
            assert_eq!(error.detail, "disk full");
        }
        other => panic!("unexpected action {:?}", other),
    }
    assert_eq!(run.phase, Phase::Failed);

    let mut record = done_record();
    record.audio_file = None;
    let (run, _) = loaded_with(record, None);
    let (run, _) = run.step(Event::DirListed(Some(vec![file("a.wav")])), "103");
    let (_, action) =
        run.step(Event::StoreSaved(SaveOutcome::SerializeFailed("bad".to_string())), "104");
    match action {
        Action::Fail { error } => assert_eq!(error.kind, FailureKind::StoreSerializeFailed),
        other => panic!("unexpected action {:?}", other),
    }
}

#[test]
fn tool_failures_end_the_run_in_their_stage() {
    let (run, _) = begin(None);
    let (run, _) = run.step(Event::StoreLoaded(StoreSnapshot::Absent), "101");
    let (run, _) = run.step(Event::DirReady(None), "102");
    let (run, action) = run.step(Event::ToolExited(bad_exit("")), "103");
    match action {
        Action::Fail { error } => {
            assert_eq!(error.kind, FailureKind::ToolUnavailable);
            assert_eq!(error.stage, Stage::Download);
        }
        other => panic!("unexpected action {:?}", other),
    }
    assert_eq!(run.phase, Phase::Failed);

    let mut record = done_record();
    record.transcribed = false;
    record.transcript_content = None;
    let (run, _) = loaded_with(record.duplicate(), None);
    let (run, action) = run.step(Event::ToolExited(bad_exit("no model")), "103");
    match action {
        Action::Fail { error } => {
            assert_eq!(error.kind, FailureKind::StageFailed);
            assert_eq!(error.stage, Stage::Transcribe);
            assert_eq!(error.describe(), "转录失败: Whisper 转录失败: no model");
        }
        other => panic!("unexpected action {:?}", other),
    }
    assert_eq!(run.record, record);

    let (run, _) = loaded_with(record.duplicate(), None);
    let (run, _) = run.step(Event::ToolExited(ok_exit("")), "103");
    let listing = vec![file("Talk.wav"), file("Talk.srt")];
    let (run, action) = run.step(Event::DirListed(Some(listing)), "104");
    assert_eq!(
        action,
        Action::Fail {
            error: PipelineError {
                kind: FailureKind::ArtifactMissing,
                stage: Stage::Transcribe,
                detail: "未找到转录输出文件\n目录内容: Talk.wav, Talk.srt".to_string(),
            }
        }
    );
    assert_eq!(run.phase, Phase::Failed);
    assert!(!run.record.transcribed);
    assert_eq!(run.record, record);
}

#[test]
fn reports_that_are_not_awaited_change_nothing() {
    let (run, _) = begin(None);
    let (run, action) = run.step(Event::Paused, "101");
    assert_eq!(
        action,
        Action::Fail {
            error: PipelineError {
                kind: FailureKind::UnexpectedEvent,
                stage: Stage::Protocol,
                detail: String::new(),
            }
        }
    );
    assert_eq!(run.phase, Phase::LoadingStore);
    let (run, action) = run.step(Event::StoreLoaded(StoreSnapshot::Absent), "102");
    assert_eq!(action, Action::EnsureDir { path: DIR.to_string() });
    let (run, action) = run.step(Event::StoreSaved(SaveOutcome::Saved), "103");
    assert!(matches!(action, Action::Fail { .. }));
    assert_eq!(run.phase, Phase::PreparingDir);

    let (run, _) = loaded_with(done_record(), None);
    assert_eq!(run.phase, Phase::Finished);
    let (run, action) = run.step(Event::DirReady(None), "104");
    assert!(matches!(action, Action::Fail { .. }));
    assert_eq!(run.phase, Phase::Finished);
    assert_eq!(run.record, done_record());
}

#[test]
fn store_that_cannot_be_understood_ends_the_run() {
    let (run, _) = begin(None);
    let (run, action) = run
        .step(Event::StoreLoaded(StoreSnapshot::Present(StoreDocument { videos: None })), "101");
    assert_eq!(
        action,
        Action::Fail {
            error: PipelineError {
                kind: FailureKind::StoreCorrupt,
                stage: Stage::Store,
                detail: "missing field `videos`".to_string(),
            }
        }
    );
    assert_eq!(run.phase, Phase::Failed);

    let row = StoreRow {
        key: ID.to_string(),
        fields: Some(vec![StoreField {
            name: "id".to_string(),
            value: FieldValue::Text(ID.to_string()),
        }]),
    };
    let (run, _) = begin(None);
    let document = StoreDocument { videos: Some(vec![row]) };
    let (run, action) = run.step(Event::StoreLoaded(StoreSnapshot::Present(document)), "101");
    match action {
        Action::Fail { error } => {
            assert_eq!(error.kind, FailureKind::StoreCorrupt);
            assert_eq!(error.detail, format!("missing field `url` in `{}`", ID));
            assert_eq!(
                error.describe(),
                format!("解析vault配置失败: missing field `url` in `{}`", ID)
            );
        }
        other => panic!("unexpected action {:?}", other),
    }
    assert_eq!(run.phase, Phase::Failed);
    assert!(run.vault.entries().is_empty());
}

#[test]
fn second_run_takes_up_what_the_first_saved() {
    let (run, _) = begin(None);
    let (run, _) = run.step(Event::StoreLoaded(StoreSnapshot::Absent), "101");
    let (run, _) = run.step(Event::DirReady(None), "102");
    let (run, _) = run.step(Event::ToolExited(ok_exit("1")), "103");
    let (run, _) = run.step(Event::ToolExited(ok_exit("T")), "104");
    let (run, _) = run.step(Event::ToolExited(ok_exit("")), "105");
    let (run, _) = run.step(Event::Paused, "106");
    let (first, action) = run.step(Event::DirListed(Some(vec![file("T.wav")])), "107");
    assert_eq!(action, save_action());
    let on_disk = save_vault(&first.vault);

    let (run, _) = process_video_pipeline(URL, Some("/base"), "/tmp", None, None, None, "200");
    let (run, _) = run.step(Event::StoreLoaded(StoreSnapshot::Present(on_disk)), "201");
    assert_eq!(run.record, first.record);
    assert_eq!(run.record.created_at, "100");
    let (run, action) = run.step(Event::DirReady(None), "202");
    let audio = format!("{}/T.wav", DIR);
    assert_eq!(action, Action::RunTool { command: build_transcribe_command(&audio, DIR) });
    assert_eq!(run.phase, Phase::Transcribing);
}

#[test]
fn advancing_stamps_changes_with_the_clock() {
    let mut record = done_record();
    record.audio_file = None;
    let (run, _) = begin(None);
    let vault = Vault::new().insert(ID.to_string(), record);
    let (run, _) = run.advance(Event::StoreLoaded(StoreSnapshot::Present(save_vault(&vault))));
    let (run, action) = run.advance(Event::DirReady(None));
    assert_eq!(action, Action::ListDir { path: DIR.to_string() });
    let (run, action) = run.advance(Event::DirListed(Some(vec![file("a.flac")])));
    assert_eq!(action, save_action());
    assert_eq!(run.record.audio_file, Some(format!("{}/a.flac", DIR)));
    assert_eq!(run.record.created_at, "10");
    let stamped: u64 = run.record.updated_at.parse().unwrap();
    assert!(stamped > 1_600_000_000);
}

#[test]
fn run_started_with_the_clock_creates_a_timestamped_record() {
    let (run, action) =
        start_video_pipeline(URL, Some("/base"), "/tmp", None, Some("k".to_string()), None);
    assert_eq!(action, Action::LoadStore { path: format!("{}/vault.toml", ROOT) });
    assert_eq!(run.phase, Phase::LoadingStore);
    assert_eq!(run.context.video_id, ID);
    assert_eq!(run.context.api_key, Some("k".to_string()));
    let created: u64 = run.record.created_at.parse().unwrap();
    assert!(created > 1_600_000_000);
    assert_eq!(run.record.updated_at, run.record.created_at);
    assert_eq!(
        run.record,
        VideoRecord::new(ID.to_string(), URL.to_string(), run.record.created_at.clone())
    );
}

#[test]
fn repaired_run_goes_on_to_the_end_without_the_downloader() {
    let mut record = done_record();
    record.audio_file = None;
    record.transcribed = false;
    record.transcript_content = None;
    record.summarized = false;
    record.summary_content = None;
    let (run, _) = loaded_with(record, None);
    let (run, _) = run.step(Event::DirListed(Some(vec![file("Talk.ogg")])), "103");
    let audio = format!("{}/Talk.ogg", DIR);
    let (run, action) = run.step(Event::StoreSaved(SaveOutcome::Saved), "104");
    assert_eq!(action, Action::RunTool { command: build_transcribe_command(&audio, DIR) });
    let (run, action) = run.step(Event::ToolExited(ok_exit("")), "105");
    assert_eq!(action, Action::ListDir { path: DIR.to_string() });
    let (run, action) =
        run.step(Event::DirListed(Some(vec![file("Talk.ogg"), file("Talk.txt")])), "106");
    assert_eq!(action, Action::ReadText { path: format!("{}/Talk.txt", DIR) });
    let (run, action) = run.step(Event::TextRead(Ok("Words here.".to_string())), "107");
    assert_eq!(action, save_action());
    let (run, action) = run.step(Event::StoreSaved(SaveOutcome::Saved), "108");
    assert_eq!(action, save_action());
    let (run, action) = run.step(Event::StoreSaved(SaveOutcome::Saved), "109");
    assert_eq!(action, Action::Finish);
    assert!(run.record.downloaded && run.record.transcribed && run.record.summarized);
    assert_eq!(run.record.audio_file, Some(audio));
    assert_eq!(run.record.title, Some("Talk".to_string()));
}
