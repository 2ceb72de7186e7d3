use service_manager::application::{BKDevOpsService, PipelineService};
use service_manager::cli::{
    default_settings_path, select_command, shutdown_decision, AppCli, StartServerArgs, StopMode,
    SubCommands, TermSignal, EXIT_GRACE_PERIOD_SECS,
};
use service_manager::conf::{DevOpsOptions, Settings};
use service_manager::devops::{DevOpsApiBody, DevOpsApiClient, PageRecords, PipelineInfo};
use service_manager::error::AppError;
use service_manager::repository::PipeLineEntity;
use service_manager::api::ApiServiceArgs;

fn options() -> DevOpsOptions {
    DevOpsOptions {
        base_url: "http://devops.example".to_string(),
        access_token: "token-123".to_string(),
        user_id: "user-1".to_string(),
    }
}

#[test]
fn pipelines_url_is_base_plus_endpoint() {
    let client = DevOpsApiClient::new(options());
    assert_eq!(
        client.pipelines_url(),
        "http://devops.example/projects/CCI/api/service/open/pipeline_get"
    );
}

#[test]
fn auth_headers_carry_token_and_user() {
    let client = DevOpsApiClient::new(options());
    let headers = client.auth_headers();
    assert_eq!(headers.len(), 2);
    assert_eq!(headers[0], ("X-DEVOPS-ACCESS-TOKEN".to_string(), "token-123".to_string()));
    assert_eq!(headers[1], ("X-DEVOPS-UID".to_string(), "user-1".to_string()));
}

#[test]
fn pipelines_query_asks_for_the_first_hundred() {
    let query = DevOpsApiClient::pipelines_query("proj-9");
    assert_eq!(query.len(), 3);
    assert_eq!(query[0], ("projectCode".to_string(), "proj-9".to_string()));
    assert_eq!(query[1], ("page".to_string(), "1".to_string()));
    assert_eq!(query[2], ("pageSize".to_string(), "100".to_string()));
}

#[test]
fn successful_reply_yields_its_records() {
    let mut page: PageRecords<PipelineInfo> = PageRecords::default();
    let mut info = PipelineInfo::default();
    info.pipeline_id = "p-1".to_string();
    page.records.push(info);
    let result = DevOpsApiClient::interpret_pipelines_response("proj", true, Some(page), None);
    let records = result.unwrap();
    assert_eq!(records.len(), 1);
    assert_eq!(records[0].pipeline_id, "p-1");
}

#[test]
fn empty_reply_is_an_empty_list_not_an_error() {
    let result = DevOpsApiClient::interpret_pipelines_response("proj", true, None, None);
    assert_eq!(result.unwrap().len(), 0);
}

#[test]
fn failed_reply_is_a_descriptive_error() {
    let result = DevOpsApiClient::interpret_pipelines_response(
        "proj",
        false,
        None,
        Some("access denied".to_string()),
    );
    match result {
        Err(AppError::ExternalApi(text)) => {
            assert_eq!(text, "get project proj pipelines failed.  access denied");
        },
        other => panic!("expected an external-api error, got {:?}", other),
    }
}

#[test]
fn failed_reply_without_message_gets_the_placeholder() {
    let result = DevOpsApiClient::interpret_pipelines_response("proj", false, None, None);
    match result {
        Err(AppError::ExternalApi(text)) => {
            assert_eq!(text, "get project proj pipelines failed.  message is empty");
        },
        other => panic!("expected an external-api error, got {:?}", other),
    }
}

#[test]
fn page_records_default_is_empty() {
    let page: PageRecords<u32> = PageRecords::default();
    assert_eq!(page.count, 0);
    assert_eq!(page.page, 0);
    assert_eq!(page.page_size, 0);
    assert_eq!(page.total_pages, 0);
    assert!(page.records.is_empty());
}

#[test]
fn devops_body_default_is_empty() {
    let body: DevOpsApiBody<String> = DevOpsApiBody::default();
    assert_eq!(body.status, "");
    assert!(body.data.is_none());
    assert!(body.message.is_none());
    assert!(body.code.is_none());
    assert!(body.trace_id.is_none());
}

#[test]
fn pipeline_info_default_is_all_zero() {
    let info = PipelineInfo::default();
    assert_eq!(info.project_id, "");
    assert_eq!(info.task_count, 0);
    assert_eq!(info.build_count, 0);
    assert!(!info.lock);
    assert!(!info.can_manual_startup);
    assert_eq!(info.latest_build_start_time, 0);
    assert_eq!(info.version, 0);
    assert!(!info.delete);
}

#[test]
fn pipeline_service_is_not_implemented() {
    let service = BKDevOpsService::new();
    match service.get_project_pipelines("proj") {
        Err(AppError::NotImplemented) => {},
        other => panic!("expected not-implemented, got {:?}", other),
    }
}

#[test]
fn sigint_honours_the_graceful_flag() {
    assert_eq!(shutdown_decision(TermSignal::Interrupt, true), StopMode::Graceful);
    assert_eq!(shutdown_decision(TermSignal::Interrupt, false), StopMode::Forced);
}

#[test]
fn sigterm_always_forces() {
    assert_eq!(shutdown_decision(TermSignal::Terminate, true), StopMode::Forced);
    assert_eq!(shutdown_decision(TermSignal::Terminate, false), StopMode::Forced);
}

#[test]
fn select_command_picks_start_arguments() {
    let cli = AppCli {
        command: Some(SubCommands::Start(StartServerArgs {
            path: "conf/other.toml".to_string(),
            graceful_shutdown: true,
        })),
    };
    let args = select_command(cli).unwrap();
    assert_eq!(args.path, "conf/other.toml");
    assert!(args.graceful_shutdown);
}

#[test]
fn select_command_without_subcommand_is_an_error() {
    match select_command(AppCli { command: None }) {
        Err(AppError::Configuration(m)) => assert_eq!(m, "not starting server"),
        other => panic!("expected a configuration error, got {:?}", other),
    }
}

#[test]
fn cli_defaults() {
    assert_eq!(default_settings_path(), "conf/settings.toml");
    assert_eq!(EXIT_GRACE_PERIOD_SECS, 1);
}

#[test]
fn error_messages_per_variant() {
    assert_eq!(AppError::Configuration("bad".to_string()).message(), "bad");
    assert_eq!(AppError::LockContention.message(), "lifecycle operation already in flight");
    assert_eq!(AppError::RequestTimeout.message(), "request timed out");
    assert_eq!(AppError::Handler("oops".to_string()).message(), "oops");
    assert_eq!(AppError::ExternalApi("api down".to_string()).message(), "api down");
    assert_eq!(AppError::NotImplemented.message(), "Not implemented");
}

#[test]
fn settings_expose_their_slices() {
    let settings = Settings {
        api: ApiServiceArgs { address: "0.0.0.0".to_string(), port: 9000, timeout: 3 },
        devops: options(),
    };
    assert_eq!(settings.api().port, 9000);
    assert_eq!(settings.api().timeout, 3);
    assert_eq!(settings.devops().user_id, "user-1");
    let copy = settings.clone();
    assert_eq!(copy.api.address, "0.0.0.0");
}

#[test]
fn entity_keeps_its_fields_and_is_timestamped() {
    let entity = PipeLineEntity::new(Some(4), "name".to_string(), "mail@example".to_string(), Some(30));
    assert_eq!(entity.id, Some(4));
    assert_eq!(entity.name, "name");
    assert_eq!(entity.email, "mail@example");
    assert_eq!(entity.age, Some(30));
    assert!(entity.created_at > 0);
}
