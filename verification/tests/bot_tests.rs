use larkrs_client::LarkApiResponse;
use larkrs_client::bot::ChatApiError;
use larkrs_client::bot::ChatClient;
use larkrs_client::bot::ChatInfo;
use larkrs_client::bot::ChatInfoItem;
use larkrs_client::bot::ChatListResponse;
use larkrs_client::bot::MarkdownElement;
use larkrs_client::bot::SendMessageRequest;
use larkrs_client::bot::TextContent;
use larkrs_client::bot::chat_result;
use larkrs_client::bot::chats_list_url;
use larkrs_client::bot::markdown_text_elements;
use larkrs_client::bot::send_message_url;

fn chat(id: &str, name: &str) -> ChatInfo {
    ChatInfo {
        chat_id: id.to_string(),
        name: name.to_string(),
        avatar: None,
        description: None,
        owner_id: None,
        owner_id_type: None,
        chat_mode: None,
        chat_type: None,
        external: None,
    }
}

#[test]
fn text_request_serializes_plain_content() {
    let request = SendMessageRequest::text("oc_1", "Test message from Rust API");
    assert_eq!(request.content, "{\"text\":\"Test message from Rust API\"}");
    assert_eq!(request.msg_type, "text");
    assert_eq!(request.receive_id, "oc_1");
}

#[test]
fn text_request_escapes_quotes_backslashes_and_newlines() {
    let request = SendMessageRequest::text("oc_1", "a\"b\\c\nd\te\rf");
    assert_eq!(request.content, "{\"text\":\"a\\\"b\\\\c\\nd\\te\\rf\"}");
}

#[test]
fn text_request_escapes_rare_control_characters() {
    let request = SendMessageRequest::text("oc_1", "x\u{1}y\u{1f}z\u{8}w\u{c}");
    assert_eq!(request.content, "{\"text\":\"x\\u0001y\\u001fz\\bw\\f\"}");
}

#[test]
fn markdown_request_serializes_element_grid() {
    let elements = markdown_text_elements("# Heading\n\n- item");
    let request = SendMessageRequest::markdown("oc_2", "A title", elements);
    assert_eq!(
        request.content,
        "{\"zh_cn\":{\"title\":\"A title\",\"content\":[[{\"tag\":\"md\",\"text\":\"# Heading\\n\\n- item\"}]]}}"
    );
    assert_eq!(request.msg_type, "post");
    assert_eq!(request.receive_id, "oc_2");
}

#[test]
fn markdown_request_keeps_unicode_title() {
    let elements = markdown_text_elements("hello");
    let request = SendMessageRequest::markdown("oc_2", "我是一个标题", elements);
    assert_eq!(
        request.content,
        "{\"zh_cn\":{\"title\":\"我是一个标题\",\"content\":[[{\"tag\":\"md\",\"text\":\"hello\"}]]}}"
    );
}

#[test]
fn markdown_request_emits_styles_and_commas() {
    let row = vec![
        MarkdownElement {
            tag: "text".to_string(),
            text: "bold part".to_string(),
            style: Some(vec!["bold".to_string(), "italic".to_string()]),
        },
        MarkdownElement { tag: "md".to_string(), text: "rest".to_string(), style: None },
    ];
    let second_row = vec![MarkdownElement {
        tag: "md".to_string(),
        text: "tail".to_string(),
        style: Some(vec![]),
    }];
    let request = SendMessageRequest::markdown("oc_9", "t", vec![row, second_row]);
    assert_eq!(
        request.content,
        "{\"zh_cn\":{\"title\":\"t\",\"content\":[\
         [{\"tag\":\"text\",\"text\":\"bold part\",\"style\":[\"bold\",\"italic\"]},\
         {\"tag\":\"md\",\"text\":\"rest\"}],\
         [{\"tag\":\"md\",\"text\":\"tail\",\"style\":[]}]]}}"
    );
}

#[test]
fn markdown_text_elements_shape() {
    let elements = markdown_text_elements("body");
    assert_eq!(elements.len(), 1);
    assert_eq!(elements[0].len(), 1);
    assert_eq!(elements[0][0].tag, "md");
    assert_eq!(elements[0][0].text, "body");
    assert!(elements[0][0].style.is_none());
}

#[test]
fn text_content_new_copies_text() {
    let content = TextContent::new("hi");
    assert_eq!(content.text, "hi");
}

#[test]
fn chat_info_items_projects_id_and_name() {
    let listing = ChatListResponse {
        items: vec![chat("oc_a", "first"), chat("oc_b", "second")],
        page_token: None,
        has_more: false,
    };
    let items: Vec<ChatInfoItem> = listing.chat_info_items();
    assert_eq!(items.len(), 2);
    assert_eq!(items[0].chat_id, "oc_a");
    assert_eq!(items[0].name, "first");
    assert_eq!(items[1].chat_id, "oc_b");
    assert_eq!(items[1].name, "second");
}

#[test]
fn chat_result_on_both_outcomes() {
    let ok: LarkApiResponse<u32> = LarkApiResponse { code: 0, msg: String::new(), data: 5 };
    assert_eq!(chat_result(ok).unwrap(), 5);
    let failed: LarkApiResponse<u32> =
        LarkApiResponse { code: 230002, msg: "bot not in chat".to_string(), data: 0 };
    match chat_result(failed) {
        Err(ChatApiError::ApiError { code, message }) => {
            assert_eq!(code, 230002);
            assert_eq!(message, "bot not in chat");
        }
        other => panic!("expected an API rejection, got {:?}", other),
    }
}

#[test]
fn chat_endpoint_urls() {
    assert_eq!(chats_list_url(), "https://open.feishu.cn/open-apis/im/v1/chats");
    assert_eq!(
        send_message_url(),
        "https://open.feishu.cn/open-apis/im/v1/messages?receive_id_type=chat_id"
    );
}

#[test]
fn chat_client_starts_without_cached_token() {
    let client = ChatClient::new();
    assert!(client.token_manager.cache.is_none());
    assert_eq!(client.token_manager.refresh_buffer, 60);
}

#[test]
fn envelope_success_flag() {
    let ok: LarkApiResponse<()> = LarkApiResponse { code: 0, msg: String::new(), data: () };
    assert!(ok.is_success());
    let failed: LarkApiResponse<()> =
        LarkApiResponse { code: 99991663, msg: "invalid app secret".to_string(), data: () };
    assert!(!failed.is_success());
}
