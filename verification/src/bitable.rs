//! Bitable (tabular data) API types, the search-condition DSL, argument
//! validation, endpoint URLs, and the projection of field listings to
//! their simplified form. The HTTP round-trips are performed by the
//! surrounding application.
use vstd::prelude::*;

use crate::auth::FeishuTokenManager;
use crate::strutil::str_eq;
use crate::LarkApiResponse;

verus! {

/// Errors produced by the bitable client.
#[derive(Debug, Clone)]
pub enum BitableApiError {
    /// Transport-level failure.
    NetworkError(String),
    /// A response body that could not be decoded.
    SerdeError(String),
    /// The endpoint replied with a nonzero application status code.
    ApiError { code: i32, message: String },
    /// A request that was rejected before any network access.
    InvalidArgument(String),
}

/// The identifiers a record's author may carry.
#[derive(Debug, Clone)]
pub struct UserId {
    pub user_id: Option<String>,
    pub open_id: Option<String>,
    pub union_id: Option<String>,
}

/// How several filter conditions are combined.
#[derive(Debug, Clone, Copy, PartialEq, Eq, Structural)]
pub enum FilterConjunction {
    And,
    Or,
}

impl Default for FilterConjunction {
    /// Conditions are conjoined unless asked otherwise.
    fn default() -> (r: Self)
        ensures
            r == FilterConjunction::And,
    {
        FilterConjunction::And
    }
}

/// The comparison a filter condition applies to a field.
#[derive(Debug, Clone, Copy, PartialEq, Eq, Structural)]
pub enum FilterOperator {
    Is,
    IsNot,
    Contains,
    DoesNotContain,
    IsEmpty,
    IsNotEmpty,
    IsGreater,
    IsGreaterEqual,
    IsLess,
    IsLessEqual,
}

/// One comparison on one field.
#[derive(Debug, Clone)]
pub struct FilterCondition {
    pub field_name: String,
    pub operator: FilterOperator,
    pub value: Vec<String>,
}

/// A conjunction or disjunction of conditions.
#[derive(Debug, Clone)]
pub struct Filter {
    pub conditions: Vec<FilterCondition>,
    pub conjunction: FilterConjunction,
}

/// A sort key given as a field name and a direction flag.
#[derive(Debug, Clone)]
pub struct Sort {
    pub field_name: String,
    pub desc: bool,
}

/// A sort direction.
#[derive(Debug, Clone, Copy, PartialEq, Eq, Structural)]
pub enum SortOrder {
    Asc,
    Desc,
}

/// A sort key given as a field name and a [`SortOrder`].
#[derive(Debug, Clone)]
pub struct SortKey {
    pub field_name: String,
    pub sort_order: SortOrder,
}

/// The search condition attached to a record search request.
#[derive(Debug, Clone)]
pub struct SearchRecordsCond {
    pub filter: Option<Filter>,
    pub sort: Option<Vec<Sort>>,
    pub field_names: Option<Vec<String>>,
    pub view_id: String,
    pub automatic_fields: Option<bool>,
}

impl Default for SearchRecordsCond {
    /// No filter, no sort, no field selection, no view.
    fn default() -> (r: Self)
        ensures
            r.filter is None,
            r.sort is None,
            r.field_names is None,
            r.view_id@ == Seq::<char>::empty(),
            r.automatic_fields is None,
    {
        SearchRecordsCond {
            filter: Option::None,
            sort: Option::None,
            field_names: Option::None,
            view_id: String::new(),
            automatic_fields: Option::None,
        }
    }
}

/// One field of a table, as the fields listing reports it.
#[derive(Debug, Clone)]
pub struct Field {
    pub field_name: String,
    pub field_id: String,
    pub field_type: i32,
    pub ui_type: Option<String>,
    pub description: Option<String>,
    pub is_primary: Option<bool>,
}

/// One page of a table's fields listing.
#[derive(Debug, Clone)]
pub struct FieldsListResponse {
    pub items: Vec<Field>,
    pub page_token: String,
    pub has_more: bool,
    pub total: i32,
}

/// The simplified projection of one field: what a writer of records needs
/// to know about it.
#[derive(Debug, Clone)]
pub struct FieldInfo {
    pub field_name: String,
    pub description: Option<String>,
    pub is_primary: Option<bool>,
    pub ui_type: Option<String>,
    pub write_type: Option<String>,
}

/// The view of an optional string.
pub open spec fn opt_view(o: Option<String>) -> Option<Seq<char>> {
    match o {
        Option::Some(s) => Option::Some(s@),
        Option::None => Option::None,
    }
}

/// The value type to hand over when writing a field: timestamps for date
/// fields, string arrays for multi-selects, plain strings for everything
/// else.
pub open spec fn spec_write_type(ui: Option<Seq<char>>) -> Seq<char> {
    if ui == Option::Some("DateTime"@) {
        "Timestamp"@
    } else if ui == Option::Some("MultiSelect"@) {
        "Array<String>"@
    } else {
        "String"@
    }
}

/// The write type for a reported UI type, as [`spec_write_type`] gives it.
pub fn write_type_for(ui_type: &Option<String>) -> (r: String)
    ensures
        r@ == spec_write_type(opt_view(*ui_type)),
{
    match ui_type {
        Option::Some(u) => {
            if str_eq(u.as_str(), "DateTime") {
                String::from_str("Timestamp")
            } else if str_eq(u.as_str(), "MultiSelect") {
                String::from_str("Array<String>")
            } else {
                String::from_str("String")
            }
        },
        Option::None => String::from_str("String"),
    }
}

/// An owned copy of an optional string.
fn clone_opt_string(o: &Option<String>) -> (r: Option<String>)
    ensures
        r == *o,
{
    match o {
        Option::Some(s) => Option::Some(s.clone()),
        Option::None => Option::None,
    }
}

impl FieldsListResponse {
    /// The simplified field information, one entry per listed field, each
    /// carrying the name, description, primary flag and UI type of its
    /// field together with the computed write type.
    pub fn field_infos(&self) -> (r: Vec<FieldInfo>)
        ensures
            r@.len() == self.items@.len(),
            forall|i: int|
                0 <= i < r@.len() ==> {
                    &&& (#[trigger] r@[i]).field_name == self.items@[i].field_name
                    &&& r@[i].description == self.items@[i].description
                    &&& r@[i].is_primary == self.items@[i].is_primary
                    &&& r@[i].ui_type == self.items@[i].ui_type
                    &&& r@[i].write_type matches Option::Some(w) && w@ == spec_write_type(
                        opt_view(self.items@[i].ui_type),
                    )
                },
    {
        let mut r: Vec<FieldInfo> = Vec::new();
        let mut k: usize = 0;
        while k < self.items.len()
            invariant
                k <= self.items@.len(),
                r@.len() == k,
                forall|i: int|
                    0 <= i < k ==> {
                        &&& (#[trigger] r@[i]).field_name == self.items@[i].field_name
                        &&& r@[i].description == self.items@[i].description
                        &&& r@[i].is_primary == self.items@[i].is_primary
                        &&& r@[i].ui_type == self.items@[i].ui_type
                        &&& r@[i].write_type matches Option::Some(w) && w@ == spec_write_type(
                            opt_view(self.items@[i].ui_type),
                        )
                    },
            decreases self.items@.len() - k,
        {
            let f = &self.items[k];
            let wt = write_type_for(&f.ui_type);
            r.push(FieldInfo {
                field_name: f.field_name.clone(),
                description: clone_opt_string(&f.description),
                is_primary: f.is_primary,
                ui_type: clone_opt_string(&f.ui_type),
                write_type: Option::Some(wt),
            });
            k += 1;
        }
        r
    }
}

/// Client for the bitable APIs; the HTTP transport is owned by the caller.
#[derive(Debug)]
pub struct BitableTableClient {
    pub token_manager: FeishuTokenManager,
}

impl BitableTableClient {
    pub fn new() -> (r: Self)
        ensures
            r.token_manager.cache is None,
            r.token_manager.refresh_buffer == 60,
    {
        BitableTableClient { token_manager: FeishuTokenManager::new() }
    }
}

/// `Ok` exactly when neither identifier is empty; the rejection carries
/// the message the caller reports.
pub fn validate_table_target(app_token: &str, table_id: &str) -> (r: Result<(), BitableApiError>)
    ensures
        (app_token@.len() == 0 || table_id@.len() == 0) ==> (r matches Result::Err(
            BitableApiError::InvalidArgument(m),
        ) && m@ == "app_token and table_id cannot be empty"@),
        (app_token@.len() > 0 && table_id@.len() > 0) ==> r is Ok,
{
    if app_token.is_empty() || table_id.is_empty() {
        Result::Err(BitableApiError::InvalidArgument(String::from_str(
            "app_token and table_id cannot be empty",
        )))
    } else {
        Result::Ok(())
    }
}

/// The checks a batch creation performs before any network access: both
/// identifiers must be present and at least one record must be given.
pub fn validate_batch_create(app_token: &str, table_id: &str, record_count: usize) -> (r: Result<
    (),
    BitableApiError,
>)
    ensures
        (app_token@.len() == 0 || table_id@.len() == 0) ==> (r matches Result::Err(
            BitableApiError::InvalidArgument(m),
        ) && m@ == "app_token and table_id cannot be empty"@),
        (app_token@.len() > 0 && table_id@.len() > 0 && record_count == 0) ==> (r matches Result::Err(
            BitableApiError::InvalidArgument(m),
        ) && m@ == "No records provided for batch creation"@),
        (app_token@.len() > 0 && table_id@.len() > 0 && record_count > 0) ==> r is Ok,
{
    let target = validate_table_target(app_token, table_id);
    if target.is_err() {
        return target;
    }
    if record_count == 0 {
        return Result::Err(BitableApiError::InvalidArgument(String::from_str(
            "No records provided for batch creation",
        )));
    }
    Result::Ok(())
}

/// The record search endpoint for one table.
pub fn records_search_url(app_token: &str, table_id: &str) -> (r: String)
    ensures
        r@ == "https://open.feishu.cn/open-apis/bitable/v1/apps/"@ + app_token@ + "/tables/"@
            + table_id@ + "/records/search"@,
{
    let mut url = String::from_str("https://open.feishu.cn/open-apis/bitable/v1/apps/");
    url.append(app_token);
    url.append("/tables/");
    url.append(table_id);
    url.append("/records/search");
    url
}

/// The batch creation endpoint for one table.
pub fn batch_create_records_url(app_token: &str, table_id: &str) -> (r: String)
    ensures
        r@ == "https://open.feishu.cn/open-apis/bitable/v1/apps/"@ + app_token@ + "/tables/"@
            + table_id@ + "/records/batch_create"@,
{
    let mut url = String::from_str("https://open.feishu.cn/open-apis/bitable/v1/apps/");
    url.append(app_token);
    url.append("/tables/");
    url.append(table_id);
    url.append("/records/batch_create");
    url
}

/// The fields listing endpoint for one table.
pub fn fields_list_url(app_token: &str, table_id: &str) -> (r: String)
    ensures
        r@ == "https://open.feishu.cn/open-apis/bitable/v1/apps/"@ + app_token@ + "/tables/"@
            + table_id@ + "/fields"@,
{
    let mut url = String::from_str("https://open.feishu.cn/open-apis/bitable/v1/apps/");
    url.append(app_token);
    url.append("/tables/");
    url.append(table_id);
    url.append("/fields");
    url
}

/// The payload of a successful reply, or the code and message of a
/// rejected one.
pub fn bitable_result<T>(resp: LarkApiResponse<T>) -> (r: Result<T, BitableApiError>)
    ensures
        resp.code == 0 ==> r == Result::<T, BitableApiError>::Ok(resp.data),
        resp.code != 0 ==> r == Result::<T, BitableApiError>::Err(BitableApiError::ApiError {
            code: resp.code,
            message: resp.msg,
        }),
{
    let LarkApiResponse { code, msg, data } = resp;
    if code == 0 {
        Result::Ok(data)
    } else {
        Result::Err(BitableApiError::ApiError { code, message: msg })
    }
}

} // verus!
