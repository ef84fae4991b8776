//! Bot messaging: chat listing types and their projection, and the
//! construction of message requests whose content body is JSON emitted by
//! the verified builders of [`crate::json`]. The HTTP round-trips are
//! performed by the surrounding application.
use vstd::prelude::*;

use crate::auth::FeishuTokenManager;
use crate::json::append_json_string;
use crate::json::append_string_array;
use crate::json::join_comma;
use crate::json::json_string;
use crate::json::string_array_json;
use crate::LarkApiResponse;

verus! {

/// Errors produced by the chat client.
#[derive(Debug, Clone)]
pub enum ChatApiError {
    /// Transport-level failure.
    NetworkError(String),
    /// A response body that could not be decoded.
    SerdeError(String),
    /// The endpoint replied with a nonzero application status code.
    ApiError { code: i32, message: String },
}

/// One page of the chat listing.
#[derive(Debug, Clone)]
pub struct ChatListResponse {
    pub items: Vec<ChatInfo>,
    pub page_token: Option<String>,
    pub has_more: bool,
}

/// One chat, as the listing reports it.
#[derive(Debug, Clone)]
pub struct ChatInfo {
    pub chat_id: String,
    pub name: String,
    pub avatar: Option<String>,
    pub description: Option<String>,
    pub owner_id: Option<String>,
    pub owner_id_type: Option<String>,
    pub chat_mode: Option<String>,
    pub chat_type: Option<String>,
    pub external: Option<bool>,
}

/// The simplified projection of one chat: its id and its name.
#[derive(Debug, Clone)]
pub struct ChatInfoItem {
    pub chat_id: String,
    pub name: String,
}

impl ChatListResponse {
    /// The simplified chat list: one entry per chat, carrying exactly its
    /// id and name.
    pub fn chat_info_items(&self) -> (r: Vec<ChatInfoItem>)
        ensures
            r@.len() == self.items@.len(),
            forall|i: int|
                0 <= i < r@.len() ==> {
                    &&& (#[trigger] r@[i]).chat_id == self.items@[i].chat_id
                    &&& r@[i].name == self.items@[i].name
                },
    {
        let mut r: Vec<ChatInfoItem> = Vec::new();
        let mut k: usize = 0;
        while k < self.items.len()
            invariant
                k <= self.items@.len(),
                r@.len() == k,
                forall|i: int|
                    0 <= i < k ==> {
                        &&& (#[trigger] r@[i]).chat_id == self.items@[i].chat_id
                        &&& r@[i].name == self.items@[i].name
                    },
            decreases self.items@.len() - k,
        {
            let chat = &self.items[k];
            r.push(ChatInfoItem { chat_id: chat.chat_id.clone(), name: chat.name.clone() });
            k += 1;
        }
        r
    }
}

/// The body of a message creation request: the serialized content, the
/// message type tag, and the chat to deliver to.
#[derive(Debug, Clone)]
pub struct SendMessageRequest {
    pub content: String,
    pub msg_type: String,
    pub receive_id: String,
}

/// The content of a plain text message.
#[derive(Debug, Clone)]
pub struct TextContent {
    pub text: String,
}

impl TextContent {
    pub fn new(text: &str) -> (r: Self)
        ensures
            r.text@ == text@,
    {
        TextContent { text: text.to_owned() }
    }
}

/// The content of a rich text (markdown) message, keyed by language.
#[derive(Debug, Clone)]
pub struct MarkdownContent {
    pub zh_cn: MarkdownLanguageContent,
}

/// The titled element grid of one language's rendering.
#[derive(Debug, Clone)]
pub struct MarkdownLanguageContent {
    pub title: String,
    pub content: Vec<Vec<MarkdownElement>>,
}

/// One element of a rich text message: a tag, its text, and optional
/// style names.
#[derive(Debug, Clone)]
pub struct MarkdownElement {
    pub tag: String,
    pub text: String,
    pub style: Option<Vec<String>>,
}

/// The serialized `{"text":...}` content of a plain text message.
pub open spec fn text_content_json(text: Seq<char>) -> Seq<char> {
    "{\"text\":"@ + json_string(text) + "}"@
}

/// The serialized form of one element: tag and text always, the style
/// array only when styles are present.
pub open spec fn markdown_element_json(e: MarkdownElement) -> Seq<char> {
    "{\"tag\":"@ + json_string(e.tag@) + ",\"text\":"@ + json_string(e.text@) + (match e.style {
        Option::Some(v) => ",\"style\":"@ + string_array_json(v.deep_view()),
        Option::None => Seq::<char>::empty(),
    }) + "}"@
}

/// The serialized form of one row of elements.
pub open spec fn element_row_json(row: Seq<MarkdownElement>) -> Seq<char> {
    "["@ + join_comma(row.map_values(|e: MarkdownElement| markdown_element_json(e))) + "]"@
}

/// The serialized form of the element grid.
pub open spec fn markdown_rows_json(rows: Seq<Seq<MarkdownElement>>) -> Seq<char> {
    "["@ + join_comma(rows.map_values(|r: Seq<MarkdownElement>| element_row_json(r))) + "]"@
}

/// The serialized `{"zh_cn":{...}}` content of a markdown message.
pub open spec fn markdown_content_json(title: Seq<char>, rows: Seq<Seq<MarkdownElement>>) -> Seq<
    char,
> {
    "{\"zh_cn\":{\"title\":"@ + json_string(title) + ",\"content\":"@ + markdown_rows_json(rows)
        + "}}"@
}

/// Append the serialized form of one element.
fn append_markdown_element(out: &mut String, e: &MarkdownElement)
    ensures
        final(out)@ == old(out)@ + markdown_element_json(*e),
{
    out.append("{\"tag\":");
    append_json_string(out, e.tag.as_str());
    out.append(",\"text\":");
    append_json_string(out, e.text.as_str());
    match &e.style {
        Option::Some(v) => {
            out.append(",\"style\":");
            append_string_array(out, v);
        },
        Option::None => {},
    }
    out.append("}");
    proof {
        assert(out@ =~= old(out)@ + markdown_element_json(*e));
    }
}

/// Append the serialized form of one row of elements.
fn append_element_row(out: &mut String, row: &Vec<MarkdownElement>)
    ensures
        final(out)@ == old(out)@ + element_row_json(row@),
{
    let ghost base = out@;
    out.append("[");
    let n = row.len();
    let mut k: usize = 0;
    proof {
        assert(row@.subrange(0, 0).map_values(|e: MarkdownElement| markdown_element_json(e))
            =~~= Seq::<Seq<char>>::empty());
    }
    while k < n
        invariant
            k <= n,
            n == row@.len(),
            out@ == base + "["@ + join_comma(
                row@.subrange(0, k as int).map_values(
                    |e: MarkdownElement| markdown_element_json(e),
                ),
            ),
        decreases n - k,
    {
        if k > 0 {
            out.append(",");
            proof {
                reveal_strlit(",");
            }
        }
        append_markdown_element(out, &row[k]);
        proof {
            let m = row@.subrange(0, k as int).map_values(
                |e: MarkdownElement| markdown_element_json(e),
            );
            crate::json::lemma_join_comma_push(m, markdown_element_json(row@[k as int]));
            assert(row@.subrange(0, k as int + 1).map_values(
                |e: MarkdownElement| markdown_element_json(e),
            ) =~~= m.push(markdown_element_json(row@[k as int])));
        }
        k += 1;
    }
    out.append("]");
    proof {
        assert(row@.subrange(0, n as int) =~= row@);
        assert(out@ =~= base + element_row_json(row@));
    }
}

/// Append the serialized form of the element grid.
fn append_element_rows(out: &mut String, rows: &Vec<Vec<MarkdownElement>>)
    ensures
        final(out)@ == old(out)@ + markdown_rows_json(
            rows@.map_values(|r: Vec<MarkdownElement>| r@),
        ),
    {
    let ghost grows = rows@.map_values(|r: Vec<MarkdownElement>| r@);
    let ghost base = out@;
    out.append("[");
    let n = rows.len();
    let mut k: usize = 0;
    proof {
        assert(grows.subrange(0, 0).map_values(|r: Seq<MarkdownElement>| element_row_json(r))
            =~~= Seq::<Seq<char>>::empty());
    }
    while k < n
        invariant
            k <= n,
            n == rows@.len(),
            grows == rows@.map_values(|r: Vec<MarkdownElement>| r@),
            out@ == base + "["@ + join_comma(
                grows.subrange(0, k as int).map_values(
                    |r: Seq<MarkdownElement>| element_row_json(r),
                ),
            ),
        decreases n - k,
    {
        if k > 0 {
            out.append(",");
            proof {
                reveal_strlit(",");
            }
        }
        append_element_row(out, &rows[k]);
        proof {
            let m = grows.subrange(0, k as int).map_values(
                |r: Seq<MarkdownElement>| element_row_json(r),
            );
            crate::json::lemma_join_comma_push(m, element_row_json(rows@[k as int]@));
            assert(grows[k as int] == rows@[k as int]@);
            assert(grows.subrange(0, k as int + 1).map_values(
                |r: Seq<MarkdownElement>| element_row_json(r),
            ) =~~= m.push(element_row_json(rows@[k as int]@)));
        }
        k += 1;
    }
    out.append("]");
    proof {
        assert(grows.subrange(0, n as int) =~= grows);
        assert(out@ =~= base + markdown_rows_json(grows));
    }
}

impl SendMessageRequest {
    /// A plain text message to `receive_id`: the content is the
    /// `{"text":...}` body with the text escaped, the type tag is `text`.
    pub fn text(receive_id: &str, content: &str) -> (r: Self)
        ensures
            r.content@ == text_content_json(content@),
            r.msg_type@ == "text"@,
            r.receive_id@ == receive_id@,
    {
        let text_content = TextContent::new(content);
        let mut body = String::from_str("{\"text\":");
        append_json_string(&mut body, text_content.text.as_str());
        body.append("}");
        proof {
            assert(body@ =~= text_content_json(content@));
        }
        SendMessageRequest {
            content: body,
            msg_type: String::from_str("text"),
            receive_id: receive_id.to_owned(),
        }
    }

    /// A markdown message to `receive_id` with the given title and
    /// element grid: the content is the `{"zh_cn":{...}}` body, the type
    /// tag is `post`.
    pub fn markdown(receive_id: &str, title: &str, elements: Vec<Vec<MarkdownElement>>) -> (r: Self)
        ensures
            r.content@ == markdown_content_json(
                title@,
                elements@.map_values(|r: Vec<MarkdownElement>| r@),
            ),
            r.msg_type@ == "post"@,
            r.receive_id@ == receive_id@,
    {
        let mut body = String::from_str("{\"zh_cn\":{\"title\":");
        append_json_string(&mut body, title);
        body.append(",\"content\":");
        append_element_rows(&mut body, &elements);
        body.append("}}");
        proof {
            assert(body@ =~= markdown_content_json(
                title@,
                elements@.map_values(|r: Vec<MarkdownElement>| r@),
            ));
        }
        SendMessageRequest {
            content: body,
            msg_type: String::from_str("post"),
            receive_id: receive_id.to_owned(),
        }
    }
}

/// The single-element grid a simple markdown message is built from: one
/// row holding one `md` element carrying the whole content, unstyled.
pub fn markdown_text_elements(content: &str) -> (r: Vec<Vec<MarkdownElement>>)
    ensures
        r@.len() == 1,
        r@[0]@.len() == 1,
        r@[0]@[0].tag@ == "md"@,
        r@[0]@[0].text@ == content@,
        r@[0]@[0].style is None,
{
    let element = MarkdownElement {
        tag: String::from_str("md"),
        text: content.to_owned(),
        style: Option::None,
    };
    let mut row: Vec<MarkdownElement> = Vec::new();
    row.push(element);
    let mut rows: Vec<Vec<MarkdownElement>> = Vec::new();
    rows.push(row);
    rows
}

/// Client for the messaging APIs; the HTTP transport is owned by the
/// caller.
#[derive(Debug)]
pub struct ChatClient {
    pub token_manager: FeishuTokenManager,
}

impl ChatClient {
    pub fn new() -> (r: Self)
        ensures
            r.token_manager.cache is None,
            r.token_manager.refresh_buffer == 60,
    {
        ChatClient { token_manager: FeishuTokenManager::new() }
    }
}

/// The chat listing endpoint.
pub fn chats_list_url() -> (r: String)
    ensures
        r@ == "https://open.feishu.cn/open-apis/im/v1/chats"@,
{
    String::from_str("https://open.feishu.cn/open-apis/im/v1/chats")
}

/// The message creation endpoint, addressing receivers by chat id.
pub fn send_message_url() -> (r: String)
    ensures
        r@ == "https://open.feishu.cn/open-apis/im/v1/messages?receive_id_type=chat_id"@,
{
    String::from_str("https://open.feishu.cn/open-apis/im/v1/messages?receive_id_type=chat_id")
}

/// The payload of a successful reply, or the code and message of a
/// rejected one.
pub fn chat_result<T>(resp: LarkApiResponse<T>) -> (r: Result<T, ChatApiError>)
    ensures
        resp.code == 0 ==> r == Result::<T, ChatApiError>::Ok(resp.data),
        resp.code != 0 ==> r == Result::<T, ChatApiError>::Err(ChatApiError::ApiError {
            code: resp.code,
            message: resp.msg,
        }),
{
    let LarkApiResponse { code, msg, data } = resp;
    if code == 0 {
        Result::Ok(data)
    } else {
        Result::Err(ChatApiError::ApiError { code, message: msg })
    }
}

} // verus!
