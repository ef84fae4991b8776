use larkrs_client::LarkApiResponse;
use larkrs_client::bitable::BitableApiError;
use larkrs_client::bitable::BitableTableClient;
use larkrs_client::bitable::Field;
use larkrs_client::bitable::FieldsListResponse;
use larkrs_client::bitable::FilterConjunction;
use larkrs_client::bitable::SearchRecordsCond;
use larkrs_client::bitable::batch_create_records_url;
use larkrs_client::bitable::bitable_result;
use larkrs_client::bitable::fields_list_url;
use larkrs_client::bitable::records_search_url;
use larkrs_client::bitable::validate_batch_create;
use larkrs_client::bitable::validate_table_target;
use larkrs_client::bitable::write_type_for;

fn field(name: &str, ui_type: Option<&str>) -> Field {
    Field {
        field_name: name.to_string(),
        field_id: format!("fld_{}", name),
        field_type: 1,
        ui_type: ui_type.map(|u| u.to_string()),
        description: Some(format!("about {}", name)),
        is_primary: Some(name == "title"),
    }
}

#[test]
fn write_type_covers_every_ui_type() {
    assert_eq!(write_type_for(&Some("Text".to_string())), "String");
    assert_eq!(write_type_for(&Some("SingleSelect".to_string())), "String");
    assert_eq!(write_type_for(&Some("DateTime".to_string())), "Timestamp");
    assert_eq!(write_type_for(&Some("MultiSelect".to_string())), "Array<String>");
    assert_eq!(write_type_for(&Some("Checkbox".to_string())), "String");
    assert_eq!(write_type_for(&None), "String");
}

#[test]
fn field_infos_projects_and_computes_write_types() {
    let listing = FieldsListResponse {
        items: vec![
            field("title", Some("Text")),
            field("when", Some("DateTime")),
            field("tags", Some("MultiSelect")),
        ],
        page_token: String::new(),
        has_more: false,
        total: 3,
    };
    let infos = listing.field_infos();
    assert_eq!(infos.len(), 3);
    assert_eq!(infos[0].field_name, "title");
    assert_eq!(infos[0].is_primary, Some(true));
    assert_eq!(infos[0].ui_type.as_deref(), Some("Text"));
    assert_eq!(infos[0].write_type.as_deref(), Some("String"));
    assert_eq!(infos[1].write_type.as_deref(), Some("Timestamp"));
    assert_eq!(infos[1].description.as_deref(), Some("about when"));
    assert_eq!(infos[2].write_type.as_deref(), Some("Array<String>"));
}

#[test]
fn table_target_validation() {
    assert!(validate_table_target("app", "tbl").is_ok());
    for (a, t) in [("", "tbl"), ("app", ""), ("", "")] {
        match validate_table_target(a, t) {
            Err(BitableApiError::InvalidArgument(m)) => {
                assert_eq!(m, "app_token and table_id cannot be empty");
            }
            other => panic!("expected a rejection, got {:?}", other),
        }
    }
}

#[test]
fn batch_create_validation() {
    assert!(validate_batch_create("app", "tbl", 2).is_ok());
    match validate_batch_create("", "tbl", 2) {
        Err(BitableApiError::InvalidArgument(m)) => {
            assert_eq!(m, "app_token and table_id cannot be empty");
        }
        other => panic!("expected a rejection, got {:?}", other),
    }
    match validate_batch_create("app", "tbl", 0) {
        Err(BitableApiError::InvalidArgument(m)) => {
            assert_eq!(m, "No records provided for batch creation");
        }
        other => panic!("expected a rejection, got {:?}", other),
    }
}

#[test]
fn bitable_endpoint_urls() {
    assert_eq!(
        records_search_url("appTok", "tblId"),
        "https://open.feishu.cn/open-apis/bitable/v1/apps/appTok/tables/tblId/records/search"
    );
    assert_eq!(
        batch_create_records_url("appTok", "tblId"),
        "https://open.feishu.cn/open-apis/bitable/v1/apps/appTok/tables/tblId/records/batch_create"
    );
    assert_eq!(
        fields_list_url("appTok", "tblId"),
        "https://open.feishu.cn/open-apis/bitable/v1/apps/appTok/tables/tblId/fields"
    );
}

#[test]
fn bitable_result_on_both_outcomes() {
    let ok: LarkApiResponse<i64> = LarkApiResponse { code: 0, msg: String::new(), data: 9 };
    assert_eq!(bitable_result(ok).unwrap(), 9);
    let failed: LarkApiResponse<i64> =
        LarkApiResponse { code: 1254004, msg: "table not found".to_string(), data: 0 };
    match bitable_result(failed) {
        Err(BitableApiError::ApiError { code, message }) => {
            assert_eq!(code, 1254004);
            assert_eq!(message, "table not found");
        }
        other => panic!("expected an API rejection, got {:?}", other),
    }
}

#[test]
fn search_cond_default_is_empty() {
    let cond = SearchRecordsCond::default();
    assert!(cond.filter.is_none());
    assert!(cond.sort.is_none());
    assert!(cond.field_names.is_none());
    assert_eq!(cond.view_id, "");
    assert!(cond.automatic_fields.is_none());
}

#[test]
fn filter_conjunction_defaults_to_and() {
    assert_eq!(FilterConjunction::default(), FilterConjunction::And);
}

#[test]
fn bitable_client_starts_without_cached_token() {
    let client = BitableTableClient::new();
    assert!(client.token_manager.cache.is_none());
    assert_eq!(client.token_manager.refresh_buffer, 60);
}
