use larkrs_client::LarkApiResponse;
use larkrs_client::wiki::WikiApiError;
use larkrs_client::wiki::WikiClient;
use larkrs_client::wiki::WikiContentResponse;
use larkrs_client::wiki::WikiListResponse;
use larkrs_client::wiki::WikiNodeResponse;
use larkrs_client::wiki::content_or_default;
use larkrs_client::wiki::wiki_content_url;
use larkrs_client::wiki::wiki_node_url;
use larkrs_client::wiki::wiki_nodes_list_url;
use larkrs_client::wiki::list_or_default;
use larkrs_client::wiki::node_or_default;

#[test]
fn parse_wiki_url_with_query() {
    let client = WikiClient::new();
    let url = "https://tparts-global.feishu.cn/wiki/TCm0wUnFwilLH8kiQGlc9Suunfd?fromScene=spaceOverview";
    let (space_id, node_token) = client.parse_wiki_url(url).unwrap();
    assert_eq!(space_id, "default");
    assert_eq!(node_token, "TCm0wUnFwilLH8kiQGlc9Suunfd");
}

#[test]
fn parse_wiki_url_without_query() {
    let client = WikiClient::new();
    let (space_id, node_token) = client.parse_wiki_url("https://x.feishu.cn/wiki/AbC123").unwrap();
    assert_eq!(space_id, "default");
    assert_eq!(node_token, "AbC123");
}

#[test]
fn parse_wiki_url_takes_segment_after_first_wiki_segment() {
    let client = WikiClient::new();
    // the host name itself contains "wiki", so the next segment is taken
    let (_, node_token) = client.parse_wiki_url("https://wiki.example.com/x/y").unwrap();
    assert_eq!(node_token, "x");
}

#[test]
fn parse_wiki_url_without_wiki_segment_fails() {
    let client = WikiClient::new();
    let result = client.parse_wiki_url("https://example.com/foo/bar");
    assert!(matches!(result, Err(WikiApiError::InvalidWikiUrl)));
}

#[test]
fn parse_wiki_url_with_trailing_wiki_segment_fails() {
    let client = WikiClient::new();
    let result = client.parse_wiki_url("https://x.feishu.cn/wiki");
    assert!(matches!(result, Err(WikiApiError::InvalidWikiUrl)));
}

#[test]
fn node_or_default_passes_payload_through_on_success() {
    let node = WikiNodeResponse {
        node_token: "n1".to_string(),
        node_type: "origin".to_string(),
        parent_node_token: String::new(),
        space_id: "s1".to_string(),
        title: "Title".to_string(),
        obj_token: "o1".to_string(),
        obj_type: "docx".to_string(),
        has_child: true,
    };
    let resp = LarkApiResponse { code: 0, msg: String::new(), data: node };
    let out = node_or_default(resp);
    assert_eq!(out.node_token, "n1");
    assert!(out.has_child);
}

#[test]
fn node_or_default_yields_empty_node_on_failure() {
    let node = WikiNodeResponse {
        node_token: "n1".to_string(),
        node_type: "origin".to_string(),
        parent_node_token: String::new(),
        space_id: "s1".to_string(),
        title: "Title".to_string(),
        obj_token: "o1".to_string(),
        obj_type: "docx".to_string(),
        has_child: true,
    };
    let resp = LarkApiResponse { code: 131006, msg: "not found".to_string(), data: node };
    let out = node_or_default(resp);
    assert_eq!(out.node_token, "");
    assert_eq!(out.title, "");
    assert!(!out.has_child);
}

#[test]
fn content_or_default_on_both_outcomes() {
    let ok = LarkApiResponse {
        code: 0,
        msg: String::new(),
        data: WikiContentResponse { content: "body".to_string() },
    };
    assert_eq!(content_or_default(ok).content, "body");
    let failed = LarkApiResponse {
        code: 99991663,
        msg: "denied".to_string(),
        data: WikiContentResponse { content: "body".to_string() },
    };
    assert_eq!(content_or_default(failed).content, "");
}

#[test]
fn list_or_default_on_both_outcomes() {
    let node = WikiNodeResponse::default();
    let ok = LarkApiResponse {
        code: 0,
        msg: String::new(),
        data: WikiListResponse { items: vec![node], page_token: None, has_more: true },
    };
    assert_eq!(list_or_default(ok).items.len(), 1);
    let failed = LarkApiResponse {
        code: 7,
        msg: "bad".to_string(),
        data: WikiListResponse {
            items: vec![WikiNodeResponse::default()],
            page_token: None,
            has_more: true,
        },
    };
    assert!(list_or_default(failed).items.is_empty());
}

#[test]
fn wiki_endpoint_urls() {
    assert_eq!(
        wiki_node_url("sp1", "nd2"),
        "https://open.feishu.cn/open-apis/wiki/v2/spaces/sp1/nodes/nd2"
    );
    assert_eq!(
        wiki_content_url("nd2"),
        "https://open.feishu.cn/open-apis/docx/v1/documents/nd2/raw_content"
    );
    assert_eq!(
        wiki_nodes_list_url("sp1"),
        "https://open.feishu.cn/open-apis/wiki/v2/spaces/sp1/nodes"
    );
}

#[test]
fn wiki_client_default_matches_new() {
    let by_default = WikiClient::default();
    assert!(by_default.token_manager.cache.is_none());
    assert_eq!(by_default.token_manager.refresh_buffer, 60);
}
