//! The application-level pipeline capability.

use crate::error::AppError;
use vstd::prelude::*;

verus! {

/// The capability of listing every pipeline of a project.
pub trait PipelineService {
    fn get_project_pipelines(&self, project_id: &str) -> Result<Vec<String>, AppError>;
}

/// The BlueKing DevOps implementation slot of [`PipelineService`].
pub struct BKDevOpsService {}

impl BKDevOpsService {
    pub fn new() -> (r: BKDevOpsService) {
        BKDevOpsService {  }
    }
}

impl PipelineService for BKDevOpsService {
    fn get_project_pipelines(&self, project_id: &str) -> Result<Vec<String>, AppError> {
        Err(AppError::NotImplemented)
    }
}

} // verus!
