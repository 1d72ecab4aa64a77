use video_transcriber::adapters::{
    check_download, check_downloader, check_transcriber, download_video_to_dir, read_title,
    transcribe_audio_file, transcript_not_found,
};
use video_transcriber::artifacts::DirEntryInfo;
use video_transcriber::errors::{FailureKind, PipelineError, Stage};
use video_transcriber::tools::{
    build_download_command, build_probe_command, build_title_command, build_transcribe_command,
    ToolExit,
};

fn exited(success: bool, code: Option<i32>, stdout: &str, stderr: &str) -> ToolExit {
    ToolExit {
        launched: true,
        launch_error: String::new(),
        success,
        code,
        stdout: stdout.to_string(),
        stderr: stderr.to_string(),
    }
}

fn not_launched(reason: &str) -> ToolExit {
    ToolExit {
        launched: false,
        launch_error: reason.to_string(),
        success: false,
        code: None,
        stdout: String::new(),
        stderr: String::new(),
    }
}

fn error(kind: FailureKind, stage: Stage, detail: &str) -> PipelineError {
    PipelineError { kind, stage, detail: detail.to_string() }
}

#[test]
fn commands_are_spelled_out() {
    let probe = build_probe_command();
    assert_eq!(probe.program, "yt-dlp");
    assert_eq!(probe.args, vec!["--version"]);
    let title = build_title_command("https://e.x/v");
    assert_eq!(title.program, "yt-dlp");
    assert_eq!(title.args, vec!["--print", "%(title)s", "--no-download", "https://e.x/v"]);
    let download = build_download_command("https://e.x/v", "/v/id");
    assert_eq!(download.program, "yt-dlp");
    assert_eq!(
        download.args,
        vec![
            "--extract-audio",
            "--audio-format",
            "wav",
            "--audio-quality",
            "0",
            "--output",
            "/v/id/%(title)s.%(ext)s",
            "--verbose",
            "https://e.x/v",
        ]
    );
    let transcribe = build_transcribe_command("/v/id/a.wav", "/v/id");
    assert_eq!(transcribe.program, "whisper");
    assert_eq!(
        transcribe.args,
        vec!["/v/id/a.wav", "--model", "base", "--output_format", "txt", "--output_dir", "/v/id"]
    );
}

#[test]
fn downloader_that_cannot_run_is_unavailable() {
    assert_eq!(check_downloader(&exited(true, Some(0), "2024.01.01", "")), None);
    assert_eq!(
        check_downloader(&not_launched("No such file")),
        Some(error(
            FailureKind::ToolUnavailable,
            Stage::Download,
            "yt-dlp未安装或不在PATH中。请先安装yt-dlp: pip install yt-dlp"
        ))
    );
    assert_eq!(
        check_downloader(&exited(false, Some(1), "", "broken")),
        Some(error(FailureKind::ToolUnavailable, Stage::Download, "yt-dlp无法正常运行，请检查安装"))
    );
}

#[test]
fn title_is_the_trimmed_output() {
    assert_eq!(read_title(&exited(true, Some(0), "  My Talk \n", "")), Ok("My Talk".to_string()));
    assert_eq!(
        read_title(&exited(false, Some(1), "", "ERROR: gone\n")),
        Err(error(FailureKind::StageFailed, Stage::Download, "无法获取视频信息: ERROR: gone\n"))
    );
    assert_eq!(
        read_title(&not_launched("denied")),
        Err(error(FailureKind::ToolUnavailable, Stage::Download, "执行yt-dlp失败: denied"))
    );
}

#[test]
fn failed_download_reports_code_and_output() {
    assert_eq!(check_download(&exited(true, Some(0), "done", "")), None);
    assert_eq!(
        check_download(&exited(false, Some(2), " out \n", "\nerr ")),
        Some(error(
            FailureKind::StageFailed,
            Stage::Download,
            "yt-dlp下载失败 (退出码: 2)\nSTDOUT: out\nSTDERR: err"
        ))
    );
    assert_eq!(
        check_download(&exited(false, None, "", "killed")),
        Some(error(
            FailureKind::StageFailed,
            Stage::Download,
            "yt-dlp下载失败 (退出码: -1)\nSTDOUT: \nSTDERR: killed"
        ))
    );
    assert_eq!(
        check_download(&not_launched("gone")),
        Some(error(FailureKind::ToolUnavailable, Stage::Download, "执行 yt-dlp 失败: gone"))
    );
}

#[test]
fn download_without_audio_file_is_an_artifact_missing() {
    let listing = Some(vec![
        DirEntryInfo { name: "a.part".into(), path: "/v/id/a.part".into(), is_file: true },
        DirEntryInfo { name: "b.wav".into(), path: "/v/id/b.wav".into(), is_file: false },
    ]);
    assert_eq!(
        download_video_to_dir("/v/id", &listing),
        Err(error(
            FailureKind::ArtifactMissing,
            Stage::Download,
            "下载似乎成功但未找到音频文件。\n目录: /v/id\n目录内容: a.part, b.wav"
        ))
    );
    assert_eq!(
        download_video_to_dir("/v/id", &None),
        Err(error(
            FailureKind::ArtifactMissing,
            Stage::Download,
            "下载似乎成功但未找到音频文件。\n目录: /v/id\n目录内容: 无法读取目录"
        ))
    );
    let found = Some(vec![DirEntryInfo {
        name: "t.wav".into(),
        path: "/v/id/t.wav".into(),
        is_file: true,
    }]);
    assert_eq!(download_video_to_dir("/v/id", &found), Ok("/v/id/t.wav".to_string()));
}

#[test]
fn transcriber_failures_are_told_apart() {
    assert_eq!(check_transcriber(&exited(true, Some(0), "", "")), None);
    assert_eq!(
        check_transcriber(&not_launched("not found")),
        Some(error(
            FailureKind::ToolUnavailable,
            Stage::Transcribe,
            "执行 Whisper 失败: not found. 请确保已安装 OpenAI Whisper"
        ))
    );
    assert_eq!(
        check_transcriber(&exited(false, Some(1), "", "bad audio")),
        Some(error(FailureKind::StageFailed, Stage::Transcribe, "Whisper 转录失败: bad audio"))
    );
    let listing = Some(vec![
        DirEntryInfo { name: "talk.wav".into(), path: "/d/talk.wav".into(), is_file: true },
        DirEntryInfo { name: "talk.srt".into(), path: "/d/talk.srt".into(), is_file: true },
    ]);
    assert_eq!(
        transcript_not_found(&listing),
        error(
            FailureKind::ArtifactMissing,
            Stage::Transcribe,
            "未找到转录输出文件\n目录内容: talk.wav, talk.srt"
        )
    );
    assert_eq!(
        transcript_not_found(&Some(Vec::new())),
        error(FailureKind::ArtifactMissing, Stage::Transcribe, "未找到转录输出文件\n目录内容: ")
    );
    assert_eq!(
        transcript_not_found(&None),
        error(
            FailureKind::ArtifactMissing,
            Stage::Transcribe,
            "未找到转录输出文件\n目录内容: 无法读取目录"
        )
    );
}

#[test]
fn transcript_is_the_trimmed_file() {
    assert_eq!(transcribe_audio_file(&Ok("\n hello there \n\n".into())), Ok("hello there".into()));
    assert_eq!(transcribe_audio_file(&Ok("".into())), Ok("".into()));
    assert_eq!(
        transcribe_audio_file(&Err("denied".into())),
        Err(error(FailureKind::ArtifactMissing, Stage::Transcribe, "读取转录文件失败: denied"))
    );
}

#[test]
fn failures_are_told_with_their_lead() {
    let cases = [
        (FailureKind::ToolUnavailable, Stage::Download, "下载失败: x"),
        (FailureKind::StageFailed, Stage::Download, "下载失败: x"),
        (FailureKind::ArtifactMissing, Stage::Download, "下载失败: x"),
        (FailureKind::StageFailed, Stage::Transcribe, "转录失败: x"),
        (FailureKind::ArtifactMissing, Stage::Transcribe, "转录失败: x"),
        (FailureKind::StageFailed, Stage::Summarize, "总结失败: x"),
        (FailureKind::StageFailed, Stage::Store, "x"),
        (FailureKind::MissingAudioArtifact, Stage::Transcribe, "x"),
        (FailureKind::StoreCorrupt, Stage::Store, "解析vault配置失败: x"),
        (FailureKind::StoreUnreadable, Stage::Store, "读取vault配置失败: x"),
        (FailureKind::StoreWriteFailed, Stage::Store, "保存vault配置失败: x"),
        (FailureKind::StoreSerializeFailed, Stage::Store, "序列化vault配置失败: x"),
        (FailureKind::DirectoryFailed, Stage::Prepare, "创建视频目录失败: x"),
        (FailureKind::UnexpectedEvent, Stage::Protocol, "意外的事件x"),
    ];
    for (kind, stage, message) in cases {
        assert_eq!(PipelineError::new(kind, stage, "x".to_string()).describe(), message);
    }
}
