//! Summaries: the local fallback, the remote providers, and the choice
//! between what a provider answered and the fallback.

use vstd::prelude::*;

use crate::record::opt_text;
use crate::text::{
    chars_of, count_words, decimal, join_chars, joined, leading_pieces, push_decimal, push_text,
    same_text, split_leading, string_of, texts, trim_chars, trimmed, word_count,
};

verus! {

/// How many leading sentences a local summary draws on.
pub const SUMMARY_SENTENCES: usize = 3;

/// The summary of a transcript without words.
pub open spec fn empty_notice() -> Seq<char> {
    "转录内容为空，无法生成总结。"@
}

/// What opens a local summary, before the word count.
pub open spec fn summary_head() -> Seq<char> {
    "📊 内容统计：共约"@
}

/// What stands between the word count and the outline.
pub open spec fn summary_middle() -> Seq<char> {
    "词\n\n📝 内容概要：\n"@
}

/// The outline of a transcript whose leading sentences are all blank.
pub open spec fn short_notice() -> Seq<char> {
    "转录内容较短，建议查看完整转录文本"@
}

/// What closes a local summary: the hint to configure credentials.
pub open spec fn summary_tail() -> Seq<char> {
    "\n\n💡 提示：配置OpenAI API密钥可获得更精准的AI总结"@
}

/// What separates the sentences of an outline.
pub open spec fn sentence_mark() -> Seq<char> {
    "。"@
}

/// The pieces that are not blank, each without surrounding whitespace, in
/// their order.
pub open spec fn kept_sentences(pieces: Seq<Seq<char>>) -> Seq<Seq<char>>
    decreases pieces.len(),
{
    if pieces.len() == 0 {
        Seq::empty()
    } else {
        let before = kept_sentences(pieces.drop_last());
        let last = trimmed(pieces.last());
        if last.len() == 0 {
            before
        } else {
            before.push(last)
        }
    }
}

/// The outline of a transcript: its first sentences that are not blank,
/// joined by the sentence mark.
pub open spec fn outline(transcript: Seq<char>) -> Seq<char> {
    joined(
        kept_sentences(leading_pieces(transcript, '.', SUMMARY_SENTENCES as nat)),
        sentence_mark(),
    )
}

/// The local summary of a transcript: a notice where it has no words, else
/// its word count, its outline and the hint to configure credentials.
pub open spec fn simple_summary(transcript: Seq<char>) -> Seq<char> {
    if word_count(transcript) == 0 {
        empty_notice()
    } else {
        summary_head() + decimal(word_count(transcript)) + summary_middle() + (if outline(
            transcript,
        ).len() == 0 {
            short_notice()
        } else {
            outline(transcript)
        }) + summary_tail()
    }
}

/// Trims every piece and keeps those that are not blank.
fn keep_sentences(pieces: &Vec<Vec<char>>) -> (kept: Vec<Vec<char>>)
    ensures
        texts(kept@) == kept_sentences(texts(pieces@)),
{
    let mut kept: Vec<Vec<char>> = Vec::new();
    let mut i: usize = 0;
    assert(texts(pieces@).take(0) =~= Seq::<Seq<char>>::empty());
    assert(texts(kept@) =~= Seq::<Seq<char>>::empty());
    while i < pieces.len()
        invariant
            i <= pieces.len(),
            texts(kept@) == kept_sentences(texts(pieces@).take(i as int)),
        decreases pieces.len() - i,
    {
        let ghost so_far = texts(pieces@).take(i as int + 1);
        let ghost before = kept@;
        assert(so_far.drop_last() =~= texts(pieces@).take(i as int));
        assert(so_far.last() == pieces@[i as int]@);
        let sentence = trim_chars(&pieces[i]);
        if sentence.len() > 0 {
            kept.push(sentence);
            assert(texts(kept@) =~= texts(before).push(sentence@));
        }
        i += 1;
    }
    assert(texts(pieces@).take(pieces.len() as int) =~= texts(pieces@));
    kept
}

/// Summarises a transcript without any outside help.
pub fn generate_simple_summary(transcript: &str) -> (summary: String)
    ensures
        summary@ == simple_summary(transcript@),
{
    let chars = chars_of(transcript);
    let total_words = count_words(&chars);
    if total_words == 0 {
        return "转录内容为空，无法生成总结。".to_owned();
    }
    let pieces = split_leading(&chars, '.', SUMMARY_SENTENCES);
    let kept = keep_sentences(&pieces);
    let mut sentences = join_chars(&kept, "。");
    let mut out: Vec<char> = Vec::new();
    push_text("📊 内容统计：共约", &mut out);
    push_decimal(total_words as u64, &mut out);
    push_text("词\n\n📝 内容概要：\n", &mut out);
    if sentences.len() == 0 {
        push_text("转录内容较短，建议查看完整转录文本", &mut out);
    } else {
        out.append(&mut sentences);
    }
    push_text("\n\n💡 提示：配置OpenAI API密钥可获得更精准的AI总结", &mut out);
    assert(out@ =~= simple_summary(transcript@));
    string_of(&out)
}

/// A local summary is never empty.
pub proof fn lemma_simple_summary_nonempty(transcript: Seq<char>)
    ensures
        simple_summary(transcript).len() > 0,
{
    reveal_strlit("转录内容为空，无法生成总结。");
    reveal_strlit("📊 内容统计：共约");
}

/// A remote summarisation service.
#[derive(Clone, Copy, Debug, PartialEq, Eq, Structural)]
pub enum ApiProvider {
    OpenAI,
    DeepSeek,
}

/// The tag that selects DeepSeek. Every other tag, and no tag, selects the
/// default provider, OpenAI.
pub open spec fn deepseek_tag() -> Seq<char> {
    "deepseek"@
}

/// The provider that a tag selects.
pub open spec fn provider_for(tag: Option<Seq<char>>) -> ApiProvider {
    if tag == Some(deepseek_tag()) {
        ApiProvider::DeepSeek
    } else {
        ApiProvider::OpenAI
    }
}

impl ApiProvider {
    /// The endpoint that chat completions are posted to.
    pub open spec fn endpoint(self) -> Seq<char> {
        match self {
            ApiProvider::OpenAI => "https://api.openai.com/v1/chat/completions"@,
            ApiProvider::DeepSeek => "https://api.deepseek.com/chat/completions"@,
        }
    }

    /// The model asked for when none is chosen.
    pub open spec fn model(self) -> Seq<char> {
        match self {
            ApiProvider::OpenAI => "gpt-3.5-turbo"@,
            ApiProvider::DeepSeek => "deepseek-chat"@,
        }
    }

    /// The endpoint that chat completions are posted to.
    pub fn base_url(&self) -> (url: &'static str)
        ensures
            url@ == self.endpoint(),
    {
        match self {
            ApiProvider::OpenAI => "https://api.openai.com/v1/chat/completions",
            ApiProvider::DeepSeek => "https://api.deepseek.com/chat/completions",
        }
    }

    /// The model asked for when none is chosen.
    pub fn default_model(&self) -> (model: &'static str)
        ensures
            model@ == self.model(),
    {
        match self {
            ApiProvider::OpenAI => "gpt-3.5-turbo",
            ApiProvider::DeepSeek => "deepseek-chat",
        }
    }

    /// The provider that `tag` selects; an unknown tag selects the default.
    pub fn from_tag(tag: Option<&str>) -> (provider: ApiProvider)
        ensures
            provider == provider_for(
                match tag {
                    Some(t) => Some(t@),
                    None => None,
                },
            ),
    {
        match tag {
            Some(t) => {
                if same_text(t, "deepseek") {
                    ApiProvider::DeepSeek
                } else {
                    ApiProvider::OpenAI
                }
            },
            None => ApiProvider::OpenAI,
        }
    }
}

/// The most tokens a remote summary may take.
pub const SUMMARY_MAX_TOKENS: u32 = 500;

/// The sampling temperature of a remote summary, in hundredths.
pub const SUMMARY_TEMPERATURE_PERCENT: u32 = 70;

/// A chat completion to ask a provider for.
#[derive(Clone, Debug, PartialEq, Eq)]
pub struct ChatRequest {
    /// Where to post the request.
    pub url: String,
    /// The value of the `Authorization` header.
    pub authorization: String,
    pub model: String,
    /// The content of the message with role `system`.
    pub system_prompt: String,
    /// The content of the message with role `user`.
    pub user_prompt: String,
    pub max_tokens: u32,
    /// The sampling temperature, in hundredths.
    pub temperature_percent: u32,
}

/// What a [`ChatRequest`] means.
pub struct ChatRequestModel {
    pub url: Seq<char>,
    pub authorization: Seq<char>,
    pub model: Seq<char>,
    pub system_prompt: Seq<char>,
    pub user_prompt: Seq<char>,
    pub max_tokens: u32,
    pub temperature_percent: u32,
}

impl View for ChatRequest {
    type V = ChatRequestModel;

    open spec fn view(&self) -> ChatRequestModel {
        ChatRequestModel {
            url: self.url@,
            authorization: self.authorization@,
            model: self.model@,
            system_prompt: self.system_prompt@,
            user_prompt: self.user_prompt@,
            max_tokens: self.max_tokens,
            temperature_percent: self.temperature_percent,
        }
    }
}

/// The instructions given to the summarising model.
pub open spec fn system_prompt() -> Seq<char> {
    "你是一个专业的内容总结助手。请为用户提供简洁、准确的视频内容总结。总结应该包含主要观点、重要信息和关键结论。请用中文回复。"@
}

/// What introduces the transcript in the user's message.
pub open spec fn user_prompt_lead() -> Seq<char> {
    "请总结以下视频转录内容，提取主要观点和重要信息：\n\n"@
}

/// What precedes the key in the `Authorization` header.
pub open spec fn bearer_lead() -> Seq<char> {
    "Bearer "@
}

/// The request that asks `provider` to summarise `transcript` on behalf of
/// the holder of `api_key`.
pub open spec fn chat_request(
    transcript: Seq<char>,
    api_key: Seq<char>,
    provider: ApiProvider,
) -> ChatRequestModel {
    ChatRequestModel {
        url: provider.endpoint(),
        authorization: bearer_lead() + api_key,
        model: provider.model(),
        system_prompt: system_prompt(),
        user_prompt: user_prompt_lead() + transcript,
        max_tokens: SUMMARY_MAX_TOKENS,
        temperature_percent: SUMMARY_TEMPERATURE_PERCENT,
    }
}

/// Builds the request for a remote summary.
pub fn build_chat_request(transcript: &str, api_key: &str, provider: ApiProvider) -> (request:
    ChatRequest)
    ensures
        request@ == chat_request(transcript@, api_key@, provider),
{
    let mut authorization: Vec<char> = Vec::new();
    push_text("Bearer ", &mut authorization);
    push_text(api_key, &mut authorization);
    let mut user_prompt: Vec<char> = Vec::new();
    push_text("请总结以下视频转录内容，提取主要观点和重要信息：\n\n", &mut user_prompt);
    push_text(transcript, &mut user_prompt);
    ChatRequest {
        url: provider.base_url().to_owned(),
        authorization: string_of(&authorization),
        model: provider.default_model().to_owned(),
        system_prompt: "你是一个专业的内容总结助手。请为用户提供简洁、准确的视频内容总结。总结应该包含主要观点、重要信息和关键结论。请用中文回复。".to_owned(),
        user_prompt: string_of(&user_prompt),
        max_tokens: SUMMARY_MAX_TOKENS,
        temperature_percent: SUMMARY_TEMPERATURE_PERCENT,
    }
}

/// How a remote summary went.
#[derive(Clone, Debug, PartialEq, Eq)]
pub struct ApiReply {
    /// Whether the request reached the provider and an answer came back.
    pub delivered: bool,
    /// Whether the answer's status reported success.
    pub success: bool,
    /// The content of the first choice, where the answer held one.
    pub content: Option<String>,
}

/// What an [`ApiReply`] means.
pub struct ApiReplyModel {
    pub delivered: bool,
    pub success: bool,
    pub content: Option<Seq<char>>,
}

impl View for ApiReply {
    type V = ApiReplyModel;

    open spec fn view(&self) -> ApiReplyModel {
        ApiReplyModel {
            delivered: self.delivered,
            success: self.success,
            content: opt_text(self.content),
        }
    }
}

/// The summary after a remote attempt: what the provider wrote where the
/// attempt succeeded and held a choice, the local summary in every other case.
pub open spec fn summary_after(transcript: Seq<char>, reply: ApiReplyModel) -> Seq<char> {
    match reply.content {
        Some(content) if reply.delivered && reply.success => content,
        _ => simple_summary(transcript),
    }
}

/// Settles on a summary once the provider has answered or failed to.
pub fn finish_summary(transcript: &str, reply: &ApiReply) -> (summary: String)
    ensures
        summary@ == summary_after(transcript@, reply@),
{
    if reply.delivered && reply.success {
        if let Some(content) = &reply.content {
            return content.clone();
        }
    }
    generate_simple_summary(transcript)
}

/// What summarising a transcript takes: nothing more, or a remote call.
#[derive(Clone, Debug, PartialEq, Eq)]
pub enum SummaryPlan {
    /// No credentials: this is the summary.
    Local(String),
    /// Credentials are there: send this, then settle with [`finish_summary`].
    Remote(ChatRequest),
}

/// What a [`SummaryPlan`] means.
pub enum SummaryPlanModel {
    Local(Seq<char>),
    Remote(ChatRequestModel),
}

impl View for SummaryPlan {
    type V = SummaryPlanModel;

    open spec fn view(&self) -> SummaryPlanModel {
        match self {
            SummaryPlan::Local(summary) => SummaryPlanModel::Local(summary@),
            SummaryPlan::Remote(request) => SummaryPlanModel::Remote(request@),
        }
    }
}

/// The plan for a transcript: the local summary without credentials, the
/// provider's request with them.
pub open spec fn summary_plan(
    transcript: Seq<char>,
    api_key: Option<Seq<char>>,
    provider: ApiProvider,
) -> SummaryPlanModel {
    match api_key {
        None => SummaryPlanModel::Local(simple_summary(transcript)),
        Some(key) => SummaryPlanModel::Remote(chat_request(transcript, key, provider)),
    }
}

/// Starts summarising: without credentials the summary is made locally and
/// at once, with them the provider is to be asked.
pub fn summarize_transcript_content(
    transcript: &str,
    api_key: &Option<String>,
    provider: ApiProvider,
) -> (plan: SummaryPlan)
    ensures
        plan@ == summary_plan(transcript@, opt_text(*api_key), provider),
{
    match api_key {
        None => SummaryPlan::Local(generate_simple_summary(transcript)),
        Some(key) => SummaryPlan::Remote(build_chat_request(transcript, key.as_str(), provider)),
    }
}

} // verus!
