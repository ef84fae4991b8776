//! Wiki API data types, the wiki URL parser, and the response projections
//! used by the wiki client. The HTTP round-trips themselves are performed
//! by the surrounding application.
use vstd::prelude::*;

use crate::auth::FeishuTokenManager;
use crate::strutil::before_query;
use crate::strutil::prefix_to;
use crate::strutil::seq_contains;
use crate::strutil::split_char;
use crate::strutil::split_slashes;
use crate::strutil::str_contains;
use crate::LarkApiResponse;

verus! {

/// Errors produced by the wiki client's own logic.
#[derive(Debug, Clone)]
pub enum WikiApiError {
    /// The given URL does not have the shape of a wiki page URL.
    InvalidWikiUrl,
}

/// A node of a wiki space.
#[derive(Debug, Clone)]
pub struct WikiNodeResponse {
    pub node_token: String,
    pub node_type: String,
    pub parent_node_token: String,
    pub space_id: String,
    pub title: String,
    pub obj_token: String,
    pub obj_type: String,
    pub has_child: bool,
}

/// The raw text content of a wiki document.
#[derive(Debug, Clone)]
pub struct WikiContentResponse {
    pub content: String,
}

/// A wiki space.
#[derive(Debug, Clone)]
pub struct WikiSpaceResponse {
    pub space_id: String,
    pub name: String,
    pub description: Option<String>,
    pub space_type: Option<String>,
}

/// One page of the nodes of a wiki space.
#[derive(Debug, Clone)]
pub struct WikiListResponse {
    pub items: Vec<WikiNodeResponse>,
    pub page_token: Option<String>,
    pub has_more: bool,
}

/// All fields empty or unset.
pub open spec fn is_default_node(n: WikiNodeResponse) -> bool {
    &&& n.node_token@ == Seq::<char>::empty()
    &&& n.node_type@ == Seq::<char>::empty()
    &&& n.parent_node_token@ == Seq::<char>::empty()
    &&& n.space_id@ == Seq::<char>::empty()
    &&& n.title@ == Seq::<char>::empty()
    &&& n.obj_token@ == Seq::<char>::empty()
    &&& n.obj_type@ == Seq::<char>::empty()
    &&& !n.has_child
}

impl Default for WikiNodeResponse {
    /// The empty node, returned in place of an error payload.
    fn default() -> (r: Self)
        ensures
            is_default_node(r),
    {
        WikiNodeResponse {
            node_token: String::new(),
            node_type: String::new(),
            parent_node_token: String::new(),
            space_id: String::new(),
            title: String::new(),
            obj_token: String::new(),
            obj_type: String::new(),
            has_child: false,
        }
    }
}

impl Default for WikiContentResponse {
    /// The empty content, returned in place of an error payload.
    fn default() -> (r: Self)
        ensures
            r.content@ == Seq::<char>::empty(),
    {
        WikiContentResponse { content: String::new() }
    }
}

impl Default for WikiListResponse {
    /// The empty listing, returned in place of an error payload.
    fn default() -> (r: Self)
        ensures
            r.items@ == Seq::<WikiNodeResponse>::empty(),
            r.page_token is None,
            !r.has_more,
    {
        WikiListResponse { items: Vec::new(), page_token: Option::None, has_more: false }
    }
}

/// The payload of a successful node lookup, or the empty node when the API
/// reported failure.
pub fn node_or_default(resp: LarkApiResponse<WikiNodeResponse>) -> (r: WikiNodeResponse)
    ensures
        resp.code == 0 ==> r == resp.data,
        resp.code != 0 ==> is_default_node(r),
{
    if resp.is_success() {
        resp.data
    } else {
        WikiNodeResponse::default()
    }
}

/// The payload of a successful content fetch, or the empty content when
/// the API reported failure.
pub fn content_or_default(resp: LarkApiResponse<WikiContentResponse>) -> (r: WikiContentResponse)
    ensures
        resp.code == 0 ==> r == resp.data,
        resp.code != 0 ==> r.content@ == Seq::<char>::empty(),
{
    if resp.is_success() {
        resp.data
    } else {
        WikiContentResponse::default()
    }
}

/// The payload of a successful node listing, or the empty listing when the
/// API reported failure.
pub fn list_or_default(resp: LarkApiResponse<WikiListResponse>) -> (r: WikiListResponse)
    ensures
        resp.code == 0 ==> r == resp.data,
        resp.code != 0 ==> r.items@ == Seq::<WikiNodeResponse>::empty(),
{
    if resp.is_success() {
        resp.data
    } else {
        WikiListResponse::default()
    }
}

/// The node lookup endpoint for one node of one space.
pub fn wiki_node_url(space_id: &str, node_token: &str) -> (r: String)
    ensures
        r@ == "https://open.feishu.cn/open-apis/wiki/v2/spaces/"@ + space_id@ + "/nodes/"@
            + node_token@,
{
    let mut url = String::from_str("https://open.feishu.cn/open-apis/wiki/v2/spaces/");
    url.append(space_id);
    url.append("/nodes/");
    url.append(node_token);
    url
}

/// The raw content endpoint for one document.
pub fn wiki_content_url(node_token: &str) -> (r: String)
    ensures
        r@ == "https://open.feishu.cn/open-apis/docx/v1/documents/"@ + node_token@
            + "/raw_content"@,
{
    let mut url = String::from_str("https://open.feishu.cn/open-apis/docx/v1/documents/");
    url.append(node_token);
    url.append("/raw_content");
    url
}

/// The node listing endpoint for one space.
pub fn wiki_nodes_list_url(space_id: &str) -> (r: String)
    ensures
        r@ == "https://open.feishu.cn/open-apis/wiki/v2/spaces/"@ + space_id@ + "/nodes"@,
{
    let mut url = String::from_str("https://open.feishu.cn/open-apis/wiki/v2/spaces/");
    url.append(space_id);
    url.append("/nodes");
    url
}

/// Client for the wiki APIs; the HTTP transport is owned by the caller.
#[derive(Debug)]
pub struct WikiClient {
    pub token_manager: FeishuTokenManager,
}

impl WikiClient {
    pub fn new() -> (r: Self)
        ensures
            r.token_manager.cache is None,
            r.token_manager.refresh_buffer == 60,
    {
        WikiClient { token_manager: FeishuTokenManager::new() }
    }

    /// Extract the node token from a wiki page URL of the shape
    /// `https://host/wiki/{node_token}?query`: the URL is split on `/`,
    /// the first segment containing `wiki` is located, and the following
    /// segment, shorn of any query string, is the node token. The space id
    /// is not present in such a URL, so the placeholder `default` stands
    /// in for it.
    pub fn parse_wiki_url(&self, url: &str) -> (r: Result<(String, String), WikiApiError>)
        ensures
            match r {
                Result::Ok(pair) => {
                    &&& pair.0@ == "default"@
                    &&& exists|i: int|
                        {
                            &&& 0 <= i < split_char(url@, '/').len() - 1
                            &&& seq_contains(#[trigger] split_char(url@, '/')[i], "wiki"@)
                            &&& (forall|t: int|
                                0 <= t < i ==> !seq_contains(
                                    #[trigger] split_char(url@, '/')[t],
                                    "wiki"@,
                                ))
                            &&& pair.1@ == prefix_to(split_char(url@, '/')[i + 1], '?')
                        }
                },
                Result::Err(e) => {
                    &&& e is InvalidWikiUrl
                    &&& forall|i: int|
                        0 <= i < split_char(url@, '/').len() - 1 ==> !seq_contains(
                            #[trigger] split_char(url@, '/')[i],
                            "wiki"@,
                        )
                },
            },
    {
        let parts = split_slashes(url);
        let n = parts.len();
        let mut i: usize = 0;
        while i < n
            invariant
                n == parts@.len(),
                parts@.map_values(|p: String| p@) == split_char(url@, '/'),
                forall|t: int|
                    0 <= t < i ==> !seq_contains(#[trigger] split_char(url@, '/')[t], "wiki"@),
            decreases n - i,
        {
            if str_contains(parts[i].as_str(), "wiki") {
                if i + 1 < n {
                    let node_token = before_query(parts[i + 1].as_str());
                    let space_id = "default".to_owned();
                    proof {
                        assert(seq_contains(split_char(url@, '/')[i as int], "wiki"@));
                        assert((i as int) < split_char(url@, '/').len() - 1);
                    }
                    return Result::Ok((space_id, node_token));
                } else {
                    return Result::Err(WikiApiError::InvalidWikiUrl);
                }
            }
            i += 1;
        }
        Result::Err(WikiApiError::InvalidWikiUrl)
    }
}

impl Default for WikiClient {
    /// Same as [`WikiClient::new`].
    fn default() -> (r: Self)
        ensures
            r.token_manager.cache is None,
            r.token_manager.refresh_buffer == 60,
    {
        WikiClient::new()
    }
}

} // verus!
