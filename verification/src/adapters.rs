//! What the download and transcription tools' results mean for a run.

use vstd::prelude::*;

use crate::artifacts::{
    audio_in, describe_listing, find_audio_in, listing_model, listing_text, DirEntryInfo,
    EntryModel,
};
use crate::errors::{ErrorModel, FailureKind, PipelineError, Stage};
use crate::text::{glue, push_signed, push_text, signed_decimal, string_of, trim_text, trimmed};
use crate::tools::{ExitModel, ToolExit};

verus! {

/// A failure, as a model.
pub open spec fn failure(kind: FailureKind, stage: Stage, detail: Seq<char>) -> ErrorModel {
    ErrorModel { kind, stage, detail }
}

/// What an optional failure means.
pub open spec fn opt_error(e: Option<PipelineError>) -> Option<ErrorModel> {
    match e {
        Some(e) => Some(e@),
        None => None,
    }
}

/// What a text or a failure means.
pub open spec fn text_result(r: Result<String, PipelineError>) -> Result<Seq<char>, ErrorModel> {
    match r {
        Ok(text) => Ok(text@),
        Err(e) => Err(e@),
    }
}

/// The exit code reported for a tool that ended without one.
pub const NO_EXIT_CODE: i32 = -1;

/// What is said of a downloader that cannot be started.
pub open spec fn downloader_missing_notice() -> Seq<char> {
    "yt-dlp未安装或不在PATH中。请先安装yt-dlp: pip install yt-dlp"@
}

/// What is said of a downloader that starts and fails its probe.
pub open spec fn downloader_broken_notice() -> Seq<char> {
    "yt-dlp无法正常运行，请检查安装"@
}

/// What introduces the reason the title query could not be started.
pub open spec fn title_launch_lead() -> Seq<char> {
    "执行yt-dlp失败: "@
}

/// What introduces the diagnostic of a title query that failed.
pub open spec fn title_failed_lead() -> Seq<char> {
    "无法获取视频信息: "@
}

/// What introduces the reason the download could not be started.
pub open spec fn download_launch_lead() -> Seq<char> {
    "执行 yt-dlp 失败: "@
}

/// The diagnostic of a download that exited with failure: its exit code and
/// what it wrote, without surrounding whitespace.
pub open spec fn download_report(exit: ExitModel) -> Seq<char> {
    "yt-dlp下载失败 (退出码: "@ + signed_decimal(
        match exit.code {
            Some(code) => code as int,
            None => NO_EXIT_CODE as int,
        },
    ) + ")\nSTDOUT: "@ + trimmed(exit.stdout) + "\nSTDERR: "@ + trimmed(exit.stderr)
}

/// The diagnostic of a download that left no audio file in `dir`.
pub open spec fn missing_audio_report(dir: Seq<char>, listing: Option<Seq<EntryModel>>) -> Seq<
    char,
> {
    "下载似乎成功但未找到音频文件。\n目录: "@ + dir + "\n目录内容: "@ + listing_text(listing)
}

/// What the downloader's probe says: nothing where it ran and succeeded, else
/// that the tool is unavailable.
pub open spec fn probe_verdict(exit: ExitModel) -> Option<ErrorModel> {
    if !exit.launched {
        Some(failure(FailureKind::ToolUnavailable, Stage::Download, downloader_missing_notice()))
    } else if !exit.success {
        Some(failure(FailureKind::ToolUnavailable, Stage::Download, downloader_broken_notice()))
    } else {
        None
    }
}

/// What the title query says: the title, which is its output without
/// surrounding whitespace, or why there is none.
pub open spec fn title_verdict(exit: ExitModel) -> Result<Seq<char>, ErrorModel> {
    if !exit.launched {
        Err(
            failure(
                FailureKind::ToolUnavailable,
                Stage::Download,
                title_launch_lead() + exit.launch_error,
            ),
        )
    } else if !exit.success {
        Err(failure(FailureKind::StageFailed, Stage::Download, title_failed_lead() + exit.stderr))
    } else {
        Ok(trimmed(exit.stdout))
    }
}

/// What the download's exit says: nothing where it succeeded, else why it
/// failed.
pub open spec fn download_verdict(exit: ExitModel) -> Option<ErrorModel> {
    if !exit.launched {
        Some(
            failure(
                FailureKind::ToolUnavailable,
                Stage::Download,
                download_launch_lead() + exit.launch_error,
            ),
        )
    } else if !exit.success {
        Some(failure(FailureKind::StageFailed, Stage::Download, download_report(exit)))
    } else {
        None
    }
}

/// What the item directory says after a download that reported success: the
/// audio file, or that it is missing.
pub open spec fn located_verdict(dir: Seq<char>, listing: Option<Seq<EntryModel>>) -> Result<
    Seq<char>,
    ErrorModel,
> {
    match audio_in(listing) {
        Some(path) => Ok(path),
        None => Err(
            failure(
                FailureKind::ArtifactMissing,
                Stage::Download,
                missing_audio_report(dir, listing),
            ),
        ),
    }
}

/// Judges the downloader's probe.
pub fn check_downloader(exit: &ToolExit) -> (verdict: Option<PipelineError>)
    ensures
        opt_error(verdict) == probe_verdict(exit@),
{
    if !exit.launched {
        Some(
            PipelineError::new(
                FailureKind::ToolUnavailable,
                Stage::Download,
                "yt-dlp未安装或不在PATH中。请先安装yt-dlp: pip install yt-dlp".to_owned(),
            ),
        )
    } else if !exit.success {
        Some(
            PipelineError::new(
                FailureKind::ToolUnavailable,
                Stage::Download,
                "yt-dlp无法正常运行，请检查安装".to_owned(),
            ),
        )
    } else {
        None
    }
}

/// Judges the title query.
pub fn read_title(exit: &ToolExit) -> (verdict: Result<String, PipelineError>)
    ensures
        text_result(verdict) == title_verdict(exit@),
{
    if !exit.launched {
        Err(
            PipelineError::new(
                FailureKind::ToolUnavailable,
                Stage::Download,
                glue("执行yt-dlp失败: ", exit.launch_error.as_str()),
            ),
        )
    } else if !exit.success {
        Err(
            PipelineError::new(
                FailureKind::StageFailed,
                Stage::Download,
                glue("无法获取视频信息: ", exit.stderr.as_str()),
            ),
        )
    } else {
        Ok(trim_text(exit.stdout.as_str()))
    }
}

/// Judges the download's exit.
pub fn check_download(exit: &ToolExit) -> (verdict: Option<PipelineError>)
    ensures
        opt_error(verdict) == download_verdict(exit@),
{
    if !exit.launched {
        Some(
            PipelineError::new(
                FailureKind::ToolUnavailable,
                Stage::Download,
                glue("执行 yt-dlp 失败: ", exit.launch_error.as_str()),
            ),
        )
    } else if !exit.success {
        let code = match exit.code {
            Some(code) => code,
            None => NO_EXIT_CODE,
        };
        let out = trim_text(exit.stdout.as_str());
        let err = trim_text(exit.stderr.as_str());
        let mut report: Vec<char> = Vec::new();
        push_text("yt-dlp下载失败 (退出码: ", &mut report);
        push_signed(code, &mut report);
        push_text(")\nSTDOUT: ", &mut report);
        push_text(out.as_str(), &mut report);
        push_text("\nSTDERR: ", &mut report);
        push_text(err.as_str(), &mut report);
        assert(report@ =~= download_report(exit@));
        Some(
            PipelineError::new(FailureKind::StageFailed, Stage::Download, string_of(&report)),
        )
    } else {
        None
    }
}

/// Looks for the audio file that a download left in `dir`.
pub fn download_video_to_dir(dir: &str, listing: &Option<Vec<DirEntryInfo>>) -> (verdict: Result<
    String,
    PipelineError,
>)
    ensures
        text_result(verdict) == located_verdict(dir@, listing_model(*listing)),
{
    match find_audio_in(listing) {
        Some(path) => Ok(path),
        None => {
            let names = describe_listing(listing);
            let mut report: Vec<char> = Vec::new();
            push_text("下载似乎成功但未找到音频文件。\n目录: ", &mut report);
            push_text(dir, &mut report);
            push_text("\n目录内容: ", &mut report);
            push_text(names.as_str(), &mut report);
            assert(report@ =~= missing_audio_report(dir@, listing_model(*listing)));
            Err(
                PipelineError::new(
                    FailureKind::ArtifactMissing,
                    Stage::Download,
                    string_of(&report),
                ),
            )
        },
    }
}

/// What introduces the reason the transcriber could not be started.
pub open spec fn transcriber_launch_lead() -> Seq<char> {
    "执行 Whisper 失败: "@
}

/// What follows that reason: the hint to install the transcriber.
pub open spec fn transcriber_launch_hint() -> Seq<char> {
    ". 请确保已安装 OpenAI Whisper"@
}

/// What introduces the diagnostic of a transcriber that failed.
pub open spec fn transcriber_failed_lead() -> Seq<char> {
    "Whisper 转录失败: "@
}

/// What is said of a transcription that left no transcript.
pub open spec fn transcript_missing_notice() -> Seq<char> {
    "未找到转录输出文件"@
}

/// What introduces the reason the transcript could not be read.
pub open spec fn transcript_unreadable_lead() -> Seq<char> {
    "读取转录文件失败: "@
}

/// What the transcriber's exit says: nothing where it succeeded, else why it
/// failed.
pub open spec fn transcriber_verdict(exit: ExitModel) -> Option<ErrorModel> {
    if !exit.launched {
        Some(
            failure(
                FailureKind::ToolUnavailable,
                Stage::Transcribe,
                transcriber_launch_lead() + exit.launch_error + transcriber_launch_hint(),
            ),
        )
    } else if !exit.success {
        Some(
            failure(
                FailureKind::StageFailed,
                Stage::Transcribe,
                transcriber_failed_lead() + exit.stderr,
            ),
        )
    } else {
        None
    }
}

/// The diagnostic of a transcription that left no transcript: the notice,
/// and what the audio file's directory holds instead.
pub open spec fn missing_transcript_report(listing: Option<Seq<EntryModel>>) -> Seq<char> {
    transcript_missing_notice() + "\n目录内容: "@ + listing_text(listing)
}

/// The failure of a transcription that left no transcript in the directory
/// with the given listing.
pub open spec fn transcript_missing(listing: Option<Seq<EntryModel>>) -> ErrorModel {
    failure(
        FailureKind::ArtifactMissing,
        Stage::Transcribe,
        missing_transcript_report(listing),
    )
}

/// What reading the transcript file says: the transcript, which is the
/// file's text without surrounding whitespace, or that it is out of reach.
pub open spec fn transcript_verdict(read: Result<Seq<char>, Seq<char>>) -> Result<
    Seq<char>,
    ErrorModel,
> {
    match read {
        Ok(content) => Ok(trimmed(content)),
        Err(reason) => Err(
            failure(
                FailureKind::ArtifactMissing,
                Stage::Transcribe,
                transcript_unreadable_lead() + reason,
            ),
        ),
    }
}

/// What a text that was read, or the reason it was not, means.
pub open spec fn read_model(read: Result<String, String>) -> Result<Seq<char>, Seq<char>> {
    match read {
        Ok(content) => Ok(content@),
        Err(reason) => Err(reason@),
    }
}

/// Judges the transcriber's exit.
pub fn check_transcriber(exit: &ToolExit) -> (verdict: Option<PipelineError>)
    ensures
        opt_error(verdict) == transcriber_verdict(exit@),
{
    if !exit.launched {
        let mut report: Vec<char> = Vec::new();
        push_text("执行 Whisper 失败: ", &mut report);
        push_text(exit.launch_error.as_str(), &mut report);
        push_text(". 请确保已安装 OpenAI Whisper", &mut report);
        Some(
            PipelineError::new(
                FailureKind::ToolUnavailable,
                Stage::Transcribe,
                string_of(&report),
            ),
        )
    } else if !exit.success {
        Some(
            PipelineError::new(
                FailureKind::StageFailed,
                Stage::Transcribe,
                glue("Whisper 转录失败: ", exit.stderr.as_str()),
            ),
        )
    } else {
        None
    }
}

/// The failure of a transcription that left no transcript in the directory
/// with the given listing.
pub fn transcript_not_found(listing: &Option<Vec<DirEntryInfo>>) -> (e: PipelineError)
    ensures
        e@ == transcript_missing(listing_model(*listing)),
{
    let names = describe_listing(listing);
    let mut report: Vec<char> = Vec::new();
    push_text("未找到转录输出文件", &mut report);
    push_text("\n目录内容: ", &mut report);
    push_text(names.as_str(), &mut report);
    assert(report@ =~= missing_transcript_report(listing_model(*listing)));
    PipelineError::new(FailureKind::ArtifactMissing, Stage::Transcribe, string_of(&report))
}

/// Turns what was read from the transcript file into the transcript.
pub fn transcribe_audio_file(read: &Result<String, String>) -> (verdict: Result<
    String,
    PipelineError,
>)
    ensures
        text_result(verdict) == transcript_verdict(read_model(*read)),
{
    match read {
        Ok(content) => Ok(trim_text(content.as_str())),
        Err(reason) => Err(
            PipelineError::new(
                FailureKind::ArtifactMissing,
                Stage::Transcribe,
                glue("读取转录文件失败: ", reason.as_str()),
            ),
        ),
    }
}

} // verus!
