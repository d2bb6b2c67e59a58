use vstd::prelude::*;

use crate::error::{internal_error, Error};
use crate::models::{ChatMessage, ChatRequest, ChatResponse, Role};
use crate::outside::{contains_text, lower_of, now_micros, occurs_in, to_lower};

verus! {

/// The number of keyword groups of the offline assistant.
pub const GROUPS: usize = 5;

/// The keywords of each group, in order of priority: greetings,
/// recommendations, guides, food, lodging.
pub open spec fn keywords(g: int) -> Seq<Seq<char>> {
    if g == 0 {
        seq!["你好"@, "hi"@, "hello"@]
    } else if g == 1 {
        seq!["推荐"@, "建议"@]
    } else if g == 2 {
        seq!["攻略"@, "指南"@]
    } else if g == 3 {
        seq!["吃"@, "美食"@]
    } else if g == 4 {
        seq!["住宿"@, "酒店"@]
    } else {
        seq![]
    }
}

/// Some keyword of group `g` occurs in `m`.
pub open spec fn in_group(m: Seq<char>, g: int) -> bool {
    exists|k: int| 0 <= k < keywords(g).len() && occurs_in(m, #[trigger] keywords(g)[k])
}

/// The first group, in order of priority, that `m` falls in; `GROUPS` when
/// it falls in none.
pub open spec fn group_of(m: Seq<char>) -> int {
    if in_group(m, 0) {
        0
    } else if in_group(m, 1) {
        1
    } else if in_group(m, 2) {
        2
    } else if in_group(m, 3) {
        3
    } else if in_group(m, 4) {
        4
    } else {
        5
    }
}

/// The canned reply of each group, and the default one past the last group.
pub open spec fn canned(g: int) -> Seq<char> {
    if g == 0 {
        "你好！我是DeepSeek旅游助手，有什么可以帮助你的吗？"@
    } else if g == 1 {
        "根据当前季节，我推荐你可以考虑去黄金海岸、三亚或者云南。这些地方气候宜人，风景优美，是很受欢迎的旅游胜地。"@
    } else if g == 2 {
        "我们有各种旅游攻略可以提供！最受欢迎的包括'黄金海岸三日游'等。你可以在我们的网站上查看更多详细信息。"@
    } else if g == 3 {
        "旅游目的地的美食是体验当地文化的重要部分。例如，在海南可以品尝各种新鲜的海鲜；在云南可以尝试过桥米线、汽锅鸡等特色美食；在西安不能错过肉夹馍和各种面食。"@
    } else if g == 4 {
        "选择住宿时，可以考虑位置、价格和设施等因素。热门旅游城市通常有从经济型到豪华型的各种选择。建议提前预订，特别是在旅游旺季。"@
    } else {
        "作为DeepSeek旅游助手，我可以为您提供旅游建议、目的地推荐、行程规划等信息。请告诉我您有什么具体的旅行需求？"@
    }
}

/// The text used when the upstream answer carries no completion.
pub open spec fn no_completion_text() -> Seq<char> {
    "抱歉，我无法处理这个请求。"@
}

/// When a text falls in two keyword groups, the earlier group decides.
pub proof fn lemma_earlier_group_wins(m: Seq<char>, a: int, b: int)
    requires
        0 <= a < b < GROUPS,
        in_group(m, a),
        in_group(m, b),
    ensures
        group_of(m) <= a,
        group_of(m) != b,
{
}

/// Whether `text` holds a keyword of group `g`.
fn matches_group(text: &str, g: usize) -> (r: bool)
    requires
        g < GROUPS,
    ensures
        r == in_group(text@, g as int),
{
    let words: Vec<&str> = if g == 0 {
        vec!["你好", "hi", "hello"]
    } else if g == 1 {
        vec!["推荐", "建议"]
    } else if g == 2 {
        vec!["攻略", "指南"]
    } else if g == 3 {
        vec!["吃", "美食"]
    } else {
        vec!["住宿", "酒店"]
    };
    assert(words@.map_values(|w: &str| w@) =~= keywords(g as int));
    let mut k: usize = 0;
    while k < words.len()
        invariant
            k <= words@.len(),
            words@.map_values(|w: &str| w@) == keywords(g as int),
            forall|j: int| 0 <= j < k ==> !occurs_in(text@, #[trigger] keywords(g as int)[j]),
        decreases words@.len() - k,
    {
        assert(words@[k as int]@ == keywords(g as int)[k as int]);
        if contains_text(text, words[k]) {
            return true;
        }
        k = k + 1;
    }
    false
}

/// The keyword group that an already lowercased text falls in.
pub fn classify(lowered: &str) -> (r: usize)
    ensures
        r == group_of(lowered@),
{
    let mut g: usize = 0;
    while g < GROUPS
        invariant
            g <= GROUPS,
            forall|j: int| 0 <= j < g ==> !in_group(lowered@, j),
        decreases GROUPS - g,
    {
        if matches_group(lowered, g) {
            return g;
        }
        g = g + 1;
    }
    GROUPS
}

/// The canned reply for group `g` (the default one for `GROUPS`).
pub fn canned_reply(g: usize) -> (r: String)
    requires
        g <= GROUPS,
    ensures
        r@ == canned(g as int),
{
    if g == 0 {
        String::from_str("你好！我是DeepSeek旅游助手，有什么可以帮助你的吗？")
    } else if g == 1 {
        String::from_str(
            "根据当前季节，我推荐你可以考虑去黄金海岸、三亚或者云南。这些地方气候宜人，风景优美，是很受欢迎的旅游胜地。",
        )
    } else if g == 2 {
        String::from_str(
            "我们有各种旅游攻略可以提供！最受欢迎的包括'黄金海岸三日游'等。你可以在我们的网站上查看更多详细信息。",
        )
    } else if g == 3 {
        String::from_str(
            "旅游目的地的美食是体验当地文化的重要部分。例如，在海南可以品尝各种新鲜的海鲜；在云南可以尝试过桥米线、汽锅鸡等特色美食；在西安不能错过肉夹馍和各种面食。",
        )
    } else if g == 4 {
        String::from_str(
            "选择住宿时，可以考虑位置、价格和设施等因素。热门旅游城市通常有从经济型到豪华型的各种选择。建议提前预订，特别是在旅游旺季。",
        )
    } else {
        String::from_str(
            "作为DeepSeek旅游助手，我可以为您提供旅游建议、目的地推荐、行程规划等信息。请告诉我您有什么具体的旅行需求？",
        )
    }
}

/// The offline reply to an already lowercased message.
pub fn fallback_reply_lowered(lowered: &str) -> (r: String)
    ensures
        r@ == canned(group_of(lowered@)),
{
    canned_reply(classify(lowered))
}

/// The offline reply to a message: the first keyword group, in order of
/// priority, found in the lowercased message decides; the default reply when
/// none is found.
pub fn fallback_reply(message: &str) -> (r: String)
    ensures
        r@ == canned(group_of(lower_of(message@))),
{
    let lowered = to_lower(message);
    fallback_reply_lowered(lowered.as_str())
}

/// The messages of an optional history; none when it is absent.
pub open spec fn history_of(history: Option<Vec<ChatMessage>>) -> Seq<ChatMessage> {
    match history {
        Some(h) => h@,
        None => Seq::<ChatMessage>::empty(),
    }
}

/// The conversation sent upstream: the earlier history, then the new message
/// from the user.
pub fn build_messages(history: Option<Vec<ChatMessage>>, message: String) -> (r: Vec<
    ChatMessage,
>)
    ensures
        ({
            let h = history_of(history);
            &&& r@.len() == h.len() + 1
            &&& r@.subrange(0, h.len() as int) == h
            &&& r@[h.len() as int].role == Role::User
            &&& r@[h.len() as int].content@ == message@
        }),
{
    let ghost h = history_of(history);
    let mut messages: Vec<ChatMessage> = match history {
        Some(h) => h,
        None => Vec::new(),
    };
    assert(messages@ == h);
    messages.push(ChatMessage { role: Role::User, content: message });
    assert(messages@.subrange(0, h.len() as int) =~= h);
    messages
}

/// What the chat operation does next.
pub enum ChatStep {
    /// Answer at once with this response.
    Reply(ChatResponse),
    /// Send this conversation to the upstream model and finish with
    /// `finish_chat` on what came back.
    CallUpstream(Vec<ChatMessage>),
}

/// Decides how a chat request is answered: offline from the keyword groups when
/// no upstream credential is configured, else by a call upstream with the whole
/// conversation.
pub fn chat_with_deepseek(req: ChatRequest, credential_configured: bool) -> (r: ChatStep)
    ensures
        !credential_configured ==> (r matches ChatStep::Reply(resp) && resp.message@ == canned(
            group_of(lower_of(req.message@)),
        )),
        credential_configured ==> (r matches ChatStep::CallUpstream(msgs) && {
            let h = history_of(req.history);
            &&& msgs@.len() == h.len() + 1
            &&& msgs@.subrange(0, h.len() as int) == h
            &&& msgs@[h.len() as int].role == Role::User
            &&& msgs@[h.len() as int].content@ == req.message@
        }),
{
    if credential_configured {
        ChatStep::CallUpstream(build_messages(req.history, req.message))
    } else {
        let message = fallback_reply(req.message.as_str());
        ChatStep::Reply(ChatResponse { message, created_at: now_micros() })
    }
}

/// What was read from the upstream answer's body.
pub enum Completion {
    /// The body was not valid JSON.
    Unparseable,
    /// The body held no text at the first choice's message content.
    Missing,
    /// The text of the first choice's message.
    Text(String),
}

/// What came back from the upstream call.
pub enum UpstreamReply {
    /// The request could not be sent or no answer came.
    Unreachable,
    /// An answer with this HTTP status and body.
    Answered(u16, Completion),
}

/// A status in the 2xx range.
pub open spec fn is_success(status: u16) -> bool {
    200 <= status < 300
}

/// Turns what came back from upstream, at time `now`, into the chat result. An
/// unreachable upstream, a status other than 2xx or an unparseable body is
/// the generic internal error; a missing completion gives a fixed apology.
pub fn finish_chat(reply: UpstreamReply, now: i64) -> (r: Result<ChatResponse, Error>)
    ensures
        r matches Ok(resp) ==> resp.created_at == now,
        match reply {
            UpstreamReply::Answered(status, Completion::Text(t)) if is_success(status) => (r matches Ok(
                resp,
            ) && resp.message@ == t@),
            UpstreamReply::Answered(status, Completion::Missing) if is_success(status) => (r matches Ok(
                resp,
            ) && resp.message@ == no_completion_text()),
            _ => (r matches Err(Error::InternalServerError(s)) && s@ == "Internal server error"@),
        },
{
    match reply {
        UpstreamReply::Answered(status, completion) => {
            if status < 200 || status >= 300 {
                return Err(internal_error());
            }
            match completion {
                Completion::Text(t) => Ok(ChatResponse { message: t, created_at: now }),
                Completion::Missing => Ok(
                    ChatResponse {
                        message: String::from_str("抱歉，我无法处理这个请求。"),
                        created_at: now,
                    },
                ),
                Completion::Unparseable => Err(internal_error()),
            }
        },
        UpstreamReply::Unreachable => Err(internal_error()),
    }
}

} // verus!
