//! The external tools: how they are invoked, and what their exit means.

use vstd::prelude::*;

use crate::text::strings;

verus! {

/// One invocation of an external program.
#[derive(Clone, Debug, PartialEq, Eq)]
pub struct ToolCommand {
    pub program: String,
    pub args: Vec<String>,
}

/// What a [`ToolCommand`] means.
pub struct CommandModel {
    pub program: Seq<char>,
    pub args: Seq<Seq<char>>,
}

impl View for ToolCommand {
    type V = CommandModel;

    open spec fn view(&self) -> CommandModel {
        CommandModel { program: self.program@, args: strings(self.args@) }
    }
}

/// How an invocation ended.
#[derive(Clone, Debug, PartialEq, Eq)]
pub struct ToolExit {
    /// Whether the program could be started at all.
    pub launched: bool,
    /// Why it could not be started, where it could not.
    pub launch_error: String,
    /// Whether it exited with status 0.
    pub success: bool,
    /// Its exit code, where it had one.
    pub code: Option<i32>,
    /// What it wrote to standard output.
    pub stdout: String,
    /// What it wrote to standard error.
    pub stderr: String,
}

/// What a [`ToolExit`] means.
pub struct ExitModel {
    pub launched: bool,
    pub launch_error: Seq<char>,
    pub success: bool,
    pub code: Option<i32>,
    pub stdout: Seq<char>,
    pub stderr: Seq<char>,
}

impl View for ToolExit {
    type V = ExitModel;

    open spec fn view(&self) -> ExitModel {
        ExitModel {
            launched: self.launched,
            launch_error: self.launch_error@,
            success: self.success,
            code: self.code,
            stdout: self.stdout@,
            stderr: self.stderr@,
        }
    }
}

/// The downloader's program name.
pub open spec fn downloader() -> Seq<char> {
    "yt-dlp"@
}

/// The transcriber's program name.
pub open spec fn transcriber() -> Seq<char> {
    "whisper"@
}

/// The invocation that tells whether the downloader can run.
pub open spec fn probe_command() -> CommandModel {
    CommandModel { program: downloader(), args: seq!["--version"@] }
}

/// The invocation that prints the title of the media at `url` and fetches
/// nothing.
pub open spec fn title_command(url: Seq<char>) -> CommandModel {
    CommandModel {
        program: downloader(),
        args: seq!["--print"@, "%(title)s"@, "--no-download"@, url],
    }
}

/// The file name template handed to the downloader, below the output
/// directory.
pub open spec fn output_template() -> Seq<char> {
    "/%(title)s.%(ext)s"@
}

/// The invocation that fetches the media at `url` and leaves its audio, as
/// WAV of the best quality, in `dir`.
pub open spec fn download_command(url: Seq<char>, dir: Seq<char>) -> CommandModel {
    CommandModel {
        program: downloader(),
        args: seq![
            "--extract-audio"@,
            "--audio-format"@,
            "wav"@,
            "--audio-quality"@,
            "0"@,
            "--output"@,
            dir + output_template(),
            "--verbose"@,
            url,
        ],
    }
}

/// The invocation that transcribes the audio file at `audio` into a text
/// file in `out_dir`.
pub open spec fn transcribe_command(audio: Seq<char>, out_dir: Seq<char>) -> CommandModel {
    CommandModel {
        program: transcriber(),
        args: seq![
            audio,
            "--model"@,
            "base"@,
            "--output_format"@,
            "txt"@,
            "--output_dir"@,
            out_dir,
        ],
    }
}

/// Builds [`probe_command`].
pub fn build_probe_command() -> (command: ToolCommand)
    ensures
        command@ == probe_command(),
{
    let mut args: Vec<String> = Vec::new();
    args.push("--version".to_owned());
    assert(strings(args@) =~= probe_command().args);
    ToolCommand { program: "yt-dlp".to_owned(), args }
}

/// Builds [`title_command`].
pub fn build_title_command(url: &str) -> (command: ToolCommand)
    ensures
        command@ == title_command(url@),
{
    let mut args: Vec<String> = Vec::new();
    args.push("--print".to_owned());
    args.push("%(title)s".to_owned());
    args.push("--no-download".to_owned());
    args.push(url.to_owned());
    assert(strings(args@) =~= title_command(url@).args);
    ToolCommand { program: "yt-dlp".to_owned(), args }
}

/// Builds [`download_command`].
pub fn build_download_command(url: &str, dir: &str) -> (command: ToolCommand)
    ensures
        command@ == download_command(url@, dir@),
{
    let mut args: Vec<String> = Vec::new();
    args.push("--extract-audio".to_owned());
    args.push("--audio-format".to_owned());
    args.push("wav".to_owned());
    args.push("--audio-quality".to_owned());
    args.push("0".to_owned());
    args.push("--output".to_owned());
    args.push(crate::text::glue(dir, "/%(title)s.%(ext)s"));
    args.push("--verbose".to_owned());
    args.push(url.to_owned());
    assert(strings(args@) =~= download_command(url@, dir@).args);
    ToolCommand { program: "yt-dlp".to_owned(), args }
}

/// Builds [`transcribe_command`].
pub fn build_transcribe_command(audio: &str, out_dir: &str) -> (command: ToolCommand)
    ensures
        command@ == transcribe_command(audio@, out_dir@),
{
    let mut args: Vec<String> = Vec::new();
    args.push(audio.to_owned());
    args.push("--model".to_owned());
    args.push("base".to_owned());
    args.push("--output_format".to_owned());
    args.push("txt".to_owned());
    args.push("--output_dir".to_owned());
    args.push(out_dir.to_owned());
    assert(strings(args@) =~= transcribe_command(audio@, out_dir@).args);
    ToolCommand { program: "whisper".to_owned(), args }
}

} // verus!
