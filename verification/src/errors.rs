//! The failures a pipeline run can end with.

use vstd::prelude::*;

use crate::text::glue;

verus! {

/// The part of a run in which something happened.
#[derive(Clone, Copy, Debug, PartialEq, Eq, Structural)]
pub enum Stage {
    /// Loading or saving the record store.
    Store,
    /// Preparing the item's directory.
    Prepare,
    /// Fetching the media and extracting its audio.
    Download,
    /// Turning the audio into text.
    Transcribe,
    /// Condensing the transcript.
    Summarize,
    /// The exchange between a run and its driver.
    Protocol,
}

/// Why a run stopped.
#[derive(Clone, Copy, Debug, PartialEq, Eq, Structural)]
pub enum FailureKind {
    /// An external tool is missing or cannot be started.
    ToolUnavailable,
    /// A tool ran and reported failure; its diagnostic is attached.
    StageFailed,
    /// A tool reported success but its output could not be found.
    ArtifactMissing,
    /// Transcription is due but the record names no usable audio file.
    MissingAudioArtifact,
    /// The store file exists but cannot be parsed.
    StoreCorrupt,
    /// The store file exists but cannot be read.
    StoreUnreadable,
    /// The store could not be written.
    StoreWriteFailed,
    /// The store could not be rendered as text.
    StoreSerializeFailed,
    /// The item's directory could not be created.
    DirectoryFailed,
    /// The driver reported something the run was not waiting for.
    UnexpectedEvent,
}

/// A failure: what kind, in which stage, and the diagnostic that came with it.
#[derive(Clone, Debug, PartialEq, Eq)]
pub struct PipelineError {
    pub kind: FailureKind,
    pub stage: Stage,
    pub detail: String,
}

/// What a [`PipelineError`] means.
pub struct ErrorModel {
    pub kind: FailureKind,
    pub stage: Stage,
    pub detail: Seq<char>,
}

impl View for PipelineError {
    type V = ErrorModel;

    open spec fn view(&self) -> ErrorModel {
        ErrorModel { kind: self.kind, stage: self.stage, detail: self.detail@ }
    }
}

/// What introduces the detail of a failure when it is told to the user: the
/// store's failures and a directory that cannot be made have leads of their
/// own, a tool's failure is introduced by its stage, and a missing audio
/// path speaks for itself.
pub open spec fn failure_lead(kind: FailureKind, stage: Stage) -> Seq<char> {
    match kind {
        FailureKind::StoreCorrupt => "解析vault配置失败: "@,
        FailureKind::StoreUnreadable => "读取vault配置失败: "@,
        FailureKind::StoreWriteFailed => "保存vault配置失败: "@,
        FailureKind::StoreSerializeFailed => "序列化vault配置失败: "@,
        FailureKind::DirectoryFailed => "创建视频目录失败: "@,
        FailureKind::MissingAudioArtifact => Seq::empty(),
        FailureKind::UnexpectedEvent => "意外的事件"@,
        _ => match stage {
            Stage::Download => "下载失败: "@,
            Stage::Transcribe => "转录失败: "@,
            Stage::Summarize => "总结失败: "@,
            _ => Seq::empty(),
        },
    }
}

/// The message that tells a failure to the user.
pub open spec fn failure_message(e: ErrorModel) -> Seq<char> {
    failure_lead(e.kind, e.stage) + e.detail
}

impl PipelineError {
    /// The message that tells this failure to the user: which stage or
    /// store operation failed, and why.
    pub fn describe(&self) -> (message: String)
        ensures
            message@ == failure_message(self@),
    {
        let lead = match self.kind {
            FailureKind::StoreCorrupt => "解析vault配置失败: ",
            FailureKind::StoreUnreadable => "读取vault配置失败: ",
            FailureKind::StoreWriteFailed => "保存vault配置失败: ",
            FailureKind::StoreSerializeFailed => "序列化vault配置失败: ",
            FailureKind::DirectoryFailed => "创建视频目录失败: ",
            FailureKind::MissingAudioArtifact => "",
            FailureKind::UnexpectedEvent => "意外的事件",
            _ => match self.stage {
                Stage::Download => "下载失败: ",
                Stage::Transcribe => "转录失败: ",
                Stage::Summarize => "总结失败: ",
                _ => "",
            },
        };
        proof {
            reveal_strlit("");
            assert(""@ =~= Seq::<char>::empty());
        }
        glue(lead, self.detail.as_str())
    }

    /// A failure of the given kind and stage carrying `detail`.
    pub fn new(kind: FailureKind, stage: Stage, detail: String) -> (e: PipelineError)
        ensures
            e@ == (ErrorModel { kind, stage, detail: detail@ }),
    {
        PipelineError { kind, stage, detail }
    }
}

} // verus!
