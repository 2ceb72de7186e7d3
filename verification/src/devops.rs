//! The paginated third-party DevOps API client: request construction
//! and response interpretation.
//!
//! The HTTP exchange itself happens outside this crate; what stands here
//! is everything the client decides: the URL, headers and query of the
//! one page fetch, and how a reply — successful, empty, or failed — is
//! turned into a result for the caller.

use crate::conf::DevOpsOptions;
use crate::error::AppError;
use vstd::prelude::*;
use vstd::string::StringExecFns;

verus! {

/// One page of records as the third-party API returns them.
#[derive(Debug, Clone)]
pub struct PageRecords<T> {
    pub count: i64,
    pub page: u32,
    pub page_size: u32,
    pub total_pages: u32,
    pub records: Vec<T>,
}

impl<T> Default for PageRecords<T> {
    fn default() -> (r: PageRecords<T>)
        ensures
            r.count == 0,
            r.page == 0,
            r.page_size == 0,
            r.total_pages == 0,
            r.records@ == Seq::<T>::empty(),
    {
        PageRecords { count: 0, page: 0, page_size: 0, total_pages: 0, records: Vec::new() }
    }
}

/// The third-party API's response envelope.
#[derive(Debug, Clone)]
pub struct DevOpsApiBody<T> {
    pub status: String,
    pub data: Option<T>,
    pub message: Option<String>,
    pub code: Option<i32>,
    pub trace_id: Option<String>,
}

impl<T> Default for DevOpsApiBody<T> {
    fn default() -> (r: DevOpsApiBody<T>)
        ensures
            r.status@ == Seq::<char>::empty(),
            r.data is None,
            r.message is None,
            r.code is None,
            r.trace_id is None,
    {
        DevOpsApiBody { status: String::new(), data: None, message: None, code: None, trace_id: None }
    }
}

/// One pipeline as the third-party API describes it.
#[derive(Debug, Clone)]
pub struct PipelineInfo {
    pub project_id: String,
    pub pipeline_id: String,
    pub pipeline_name: String,
    pub pipeline_desc: String,
    pub task_count: i32,
    pub build_count: i32,
    pub lock: bool,
    pub can_manual_startup: bool,
    pub latest_build_start_time: i64,
    pub latest_build_end_time: i64,
    pub latest_build_num: i32,
    pub latest_build_estimated_execution_seconds: i32,
    pub deployment_time: i64,
    pub create_time: i64,
    pub update_time: i64,
    pub pipeline_version: i32,
    pub current_timestamp: i64,
    pub running_build_count: i32,
    pub has_permission: bool,
    pub has_collect: bool,
    pub latest_build_user_id: String,
    pub instance_from_template: bool,
    pub template_id: String,
    pub version_name: String,
    pub version: i32,
    pub updater: String,
    pub creator: String,
    pub last_build_total_count: i32,
    pub last_build_finish_count: i32,
    pub delete: bool,
}

impl Default for PipelineInfo {
    fn default() -> (r: PipelineInfo)
        ensures
            r.project_id@ == Seq::<char>::empty(),
            r.pipeline_id@ == Seq::<char>::empty(),
            r.pipeline_name@ == Seq::<char>::empty(),
            r.pipeline_desc@ == Seq::<char>::empty(),
            r.task_count == 0,
            r.build_count == 0,
            !r.lock,
            !r.can_manual_startup,
            r.latest_build_start_time == 0,
            r.latest_build_end_time == 0,
            r.latest_build_num == 0,
            r.latest_build_estimated_execution_seconds == 0,
            r.deployment_time == 0,
            r.create_time == 0,
            r.update_time == 0,
            r.pipeline_version == 0,
            r.current_timestamp == 0,
            r.running_build_count == 0,
            !r.has_permission,
            !r.has_collect,
            r.latest_build_user_id@ == Seq::<char>::empty(),
            !r.instance_from_template,
            r.template_id@ == Seq::<char>::empty(),
            r.version_name@ == Seq::<char>::empty(),
            r.version == 0,
            r.updater@ == Seq::<char>::empty(),
            r.creator@ == Seq::<char>::empty(),
            r.last_build_total_count == 0,
            r.last_build_finish_count == 0,
            !r.delete,
    {
        PipelineInfo {
            project_id: String::new(),
            pipeline_id: String::new(),
            pipeline_name: String::new(),
            pipeline_desc: String::new(),
            task_count: 0,
            build_count: 0,
            lock: false,
            can_manual_startup: false,
            latest_build_start_time: 0,
            latest_build_end_time: 0,
            latest_build_num: 0,
            latest_build_estimated_execution_seconds: 0,
            deployment_time: 0,
            create_time: 0,
            update_time: 0,
            pipeline_version: 0,
            current_timestamp: 0,
            running_build_count: 0,
            has_permission: false,
            has_collect: false,
            latest_build_user_id: String::new(),
            instance_from_template: false,
            template_id: String::new(),
            version_name: String::new(),
            version: 0,
            updater: String::new(),
            creator: String::new(),
            last_build_total_count: 0,
            last_build_finish_count: 0,
            delete: false,
        }
    }
}

/// The error text of a failed page fetch:
/// `"get project <ID> pipelines failed.  <MESSAGE>"`.
pub open spec fn pipelines_failure_text(project_id: Seq<char>, message: Seq<char>) -> Seq<char> {
    "get project "@ + project_id + " pipelines failed.  "@ + message
}

/// The client of the third-party DevOps API.
#[derive(Debug)]
pub struct DevOpsApiClient {
    pub options: DevOpsOptions,
}

impl DevOpsApiClient {
    pub fn new(options: DevOpsOptions) -> (r: DevOpsApiClient)
        ensures
            r.options == options,
    {
        DevOpsApiClient { options }
    }

    /// The URL of the pipeline listing endpoint.
    pub fn pipelines_url(&self) -> (r: String)
        ensures
            r@ == self.options.base_url@ + "/projects/CCI/api/service/open/pipeline_get"@,
    {
        let mut url = self.options.base_url.clone();
        url.append("/projects/CCI/api/service/open/pipeline_get");
        url
    }

    /// The authentication headers of every request: the access token and
    /// the calling user.
    pub fn auth_headers(&self) -> (r: Vec<(String, String)>)
        ensures
            r@.len() == 2,
            r@[0].0@ == "X-DEVOPS-ACCESS-TOKEN"@,
            r@[0].1@ == self.options.access_token@,
            r@[1].0@ == "X-DEVOPS-UID"@,
            r@[1].1@ == self.options.user_id@,
    {
        let mut headers: Vec<(String, String)> = Vec::new();
        headers.push(
            (String::from_str("X-DEVOPS-ACCESS-TOKEN"), self.options.access_token.clone()),
        );
        headers.push((String::from_str("X-DEVOPS-UID"), self.options.user_id.clone()));
        headers
    }

    /// The query of the one page fetch: the project code and the fixed
    /// first page of one hundred entries.
    pub fn pipelines_query(project_id: &str) -> (r: Vec<(String, String)>)
        ensures
            r@.len() == 3,
            r@[0].0@ == "projectCode"@ && r@[0].1@ == project_id@,
            r@[1].0@ == "page"@ && r@[1].1@ == "1"@,
            r@[2].0@ == "pageSize"@ && r@[2].1@ == "100"@,
    {
        let mut query: Vec<(String, String)> = Vec::new();
        query.push((String::from_str("projectCode"), String::from_str(project_id)));
        query.push((String::from_str("page"), String::from_str("1")));
        query.push((String::from_str("pageSize"), String::from_str("100")));
        query
    }

    /// Interprets the one page fetch. A successful reply yields its
    /// records — an absent page is an empty list, not an error — while a
    /// non-success reply becomes a descriptive external-API error
    /// carrying the server's message, or a placeholder when the server
    /// sent none.
    pub fn interpret_pipelines_response(
        project_id: &str,
        success: bool,
        data: Option<PageRecords<PipelineInfo>>,
        message: Option<String>,
    ) -> (r: Result<Vec<PipelineInfo>, AppError>)
        ensures
            success ==> r is Ok,
            success && data is None ==> (r matches Ok(v) && v@ == Seq::<PipelineInfo>::empty()),
            success ==> (data matches Some(p) ==> (r matches Ok(v) && v@ == p.records@)),
            !success ==> r is Err,
            !success ==> (message matches Some(m) ==> (r matches Err(e) && e matches
                AppError::ExternalApi(t) && t@ == pipelines_failure_text(project_id@, m@))),
            !success && message is None ==> (r matches Err(e) && e matches AppError::ExternalApi(t)
                && t@ == pipelines_failure_text(project_id@, "message is empty"@)),
    {
        if success {
            match data {
                None => Ok(Vec::new()),
                Some(records) => Ok(records.records),
            }
        } else {
            let mut text = String::from_str("get project ");
            text.append(project_id);
            text.append(" pipelines failed.  ");
            let full = match message {
                Some(m) => text.concat(m.as_str()),
                None => text.concat("message is empty"),
            };
            Err(AppError::ExternalApi(full))
        }
    }
}

} // verus!
