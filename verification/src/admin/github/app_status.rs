//! `GET /v1/admin/github/app-status`: the current GitHub App configuration.

use crate::clock::Timestamp;
use crate::ids::Uuid;
use vstd::prelude::*;

verus! {

/// Where the active App credentials came from.
#[derive(Debug, Clone, Copy, PartialEq, Eq, Structural)]
pub enum AppSource {
    Db,
    Env,
    Nowhere,
}

impl AppSource {
    /// The source as the answer names it.
    pub fn name(&self) -> (s: &'static str)
        ensures
            s@ == match self {
                AppSource::Db => "db"@,
                AppSource::Env => "env"@,
                AppSource::Nowhere => "none"@,
            },
    {
        match self {
            AppSource::Db => "db",
            AppSource::Env => "env",
            AppSource::Nowhere => "none",
        }
    }
}

#[derive(Debug)]
pub struct AppStatusResponse {
    /// Whether an App is currently loaded.
    pub configured: bool,
    /// Where the active App came from.
    pub source: AppSource,
    /// Numeric GitHub App ID; only while an App is loaded.
    pub app_id: Option<i64>,
    /// GitHub App slug; only for an App from the database.
    pub slug: Option<String>,
    /// When the App was installed; only for an App from the database.
    pub installed_at: Option<Timestamp>,
    /// Who installed the App; only for an App from the database.
    pub installed_by: Option<Uuid>,
}

/// The active row of the App configuration.
#[derive(Debug)]
pub struct AppConfigRow {
    pub app_id: i64,
    pub slug: String,
    pub created_at: Timestamp,
    pub installed_by: Uuid,
}

/// The status, given the ID of the loaded App and the active configuration row.
/// The row comes first; without one, a loaded App came from the environment.
pub fn get_app_status(loaded: Option<i64>, row: Option<AppConfigRow>) -> (resp: AppStatusResponse)
    ensures
        resp.configured == loaded is Some,
        match (row, loaded) {
            (Some(r), _) => resp.source == AppSource::Db && resp.app_id == (if loaded is Some {
                Some(r.app_id)
            } else {
                None
            }) && resp.slug == Some(r.slug) && resp.installed_at == Some(r.created_at) && resp.installed_by == Some(r.installed_by),
            (None, Some(id)) => resp.source == AppSource::Env && resp.app_id == Some(id) && resp.slug is None
                && resp.installed_at is None && resp.installed_by is None,
            (None, None) => resp.source == AppSource::Nowhere && resp.app_id is None && resp.slug is None
                && resp.installed_at is None && resp.installed_by is None,
        },
{
    let configured = loaded.is_some();
    match row {
        Some(r) => AppStatusResponse {
            configured,
            source: AppSource::Db,
            app_id: if configured { Some(r.app_id) } else { None },
            slug: Some(r.slug),
            installed_at: Some(r.created_at),
            installed_by: Some(r.installed_by),
        },
        None => AppStatusResponse {
            configured,
            source: if configured { AppSource::Env } else { AppSource::Nowhere },
            app_id: loaded,
            slug: None,
            installed_at: None,
            installed_by: None,
        },
    }
}

} // verus!
