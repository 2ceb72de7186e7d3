//! Resolved configuration values.
//!
//! Settings are plain, fully-resolved value objects: they are built once
//! (outside this crate, from the configuration file and environment
//! overrides) and then passed by value into the service manager and
//! cloned into each managed service.

use crate::api::ApiServiceArgs;
use vstd::prelude::*;

verus! {

/// Connection options of the third-party DevOps API.
#[derive(Debug)]
pub struct DevOpsOptions {
    pub base_url: String,
    pub access_token: String,
    pub user_id: String,
}

impl Clone for DevOpsOptions {
    fn clone(&self) -> (r: DevOpsOptions)
        ensures
            r == *self,
    {
        DevOpsOptions {
            base_url: self.base_url.clone(),
            access_token: self.access_token.clone(),
            user_id: self.user_id.clone(),
        }
    }
}

/// The whole resolved configuration of the process.
#[derive(Debug)]
pub struct Settings {
    pub api: ApiServiceArgs,
    pub devops: DevOpsOptions,
}

impl Clone for Settings {
    fn clone(&self) -> (r: Settings)
        ensures
            r == *self,
    {
        Settings { api: self.api.clone(), devops: self.devops.clone() }
    }
}

impl Settings {
    /// The slice of the configuration owned by the API service.
    pub fn api(&self) -> (r: &ApiServiceArgs)
        ensures
            *r == self.api,
    {
        &self.api
    }

    /// The slice of the configuration owned by the DevOps client.
    pub fn devops(&self) -> (r: &DevOpsOptions)
        ensures
            *r == self.devops,
    {
        &self.devops
    }
}

} // verus!
