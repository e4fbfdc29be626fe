use vstd::prelude::*;

use crate::status::{status_named, DeployStatus};
use crate::text::{parse_yes_no, yes_no_value, UnknownVariant};

verus! {

/// A deployable unit on the platform, as fetched once per run.
#[derive(Clone, Debug, PartialEq, Eq)]
pub struct Service {
    pub id: String,
    pub name: String,
    pub branch: String,
    pub dashboard_url: String,
    pub auto_deploy: bool,
    pub repo: String,
    pub updated_at: String,
    pub created_at: String,
}

/// The code snapshot that a deploy ships.
#[derive(Clone, Debug, PartialEq, Eq)]
pub struct CommitInfo {
    pub id: String,
    pub message: String,
    pub created_at: String,
}

/// One deployment attempt of a service.
#[derive(Clone, Debug, PartialEq, Eq)]
pub struct Deploy {
    pub id: String,
    pub commit: CommitInfo,
    pub status: DeployStatus,
    pub created_at: String,
    pub updated_at: String,
    /// Present only once the deploy has settled.
    pub finished_at: Option<String>,
}

/// One entry of the service lookup listing.
#[derive(Clone, Debug, PartialEq, Eq)]
pub struct ListServiceResponse {
    pub cursor: String,
    pub service: Service,
}

/// One entry of the deploy listing.
#[derive(Clone, Debug, PartialEq, Eq)]
pub struct ListDeploysResponse {
    pub cursor: String,
    pub deploy: Deploy,
}

impl Service {
    /// Builds a service from the fields of its API record; the auto-deploy
    /// flag comes as a "yes" / "no" token and any other token is refused.
    pub fn from_fields(
        id: String,
        name: String,
        branch: String,
        dashboard_url: String,
        auto_deploy: &str,
        repo: String,
        updated_at: String,
        created_at: String,
    ) -> (r: Result<Service, UnknownVariant>)
        ensures
            match r {
                Ok(s) => {
                    &&& yes_no_value(auto_deploy@) == Some(s.auto_deploy)
                    &&& s.id == id
                    &&& s.name == name
                    &&& s.branch == branch
                    &&& s.dashboard_url == dashboard_url
                    &&& s.repo == repo
                    &&& s.updated_at == updated_at
                    &&& s.created_at == created_at
                },
                Err(e) => yes_no_value(auto_deploy@).is_none() && e.found@ == auto_deploy@,
            },
    {
        match parse_yes_no(auto_deploy) {
            Ok(flag) => Ok(
                Service {
                    id,
                    name,
                    branch,
                    dashboard_url,
                    auto_deploy: flag,
                    repo,
                    updated_at,
                    created_at,
                },
            ),
            Err(e) => Err(e),
        }
    }
}

impl Deploy {
    /// Builds a deploy from the fields of its API record; the status comes as
    /// its API token and an unrecognized token is refused.
    pub fn from_fields(
        id: String,
        commit: CommitInfo,
        status: &str,
        created_at: String,
        updated_at: String,
        finished_at: Option<String>,
    ) -> (r: Result<Deploy, UnknownVariant>)
        ensures
            match r {
                Ok(d) => {
                    &&& status_named(status@) == Some(d.status)
                    &&& d.id == id
                    &&& d.commit == commit
                    &&& d.created_at == created_at
                    &&& d.updated_at == updated_at
                    &&& d.finished_at == finished_at
                },
                Err(e) => status_named(status@).is_none() && e.found@ == status@,
            },
    {
        match DeployStatus::from_api(status) {
            Ok(st) => Ok(Deploy { id, commit, status: st, created_at, updated_at, finished_at }),
            Err(e) => Err(e),
        }
    }
}

/// The service of the first entry of a lookup listing; none when it is empty.
pub fn first_service(list: Vec<ListServiceResponse>) -> (r: Option<Service>)
    ensures
        r == (if list@.len() == 0 {
            None
        } else {
            Some(list@[0].service)
        }),
{
    let mut list = list;
    if list.len() == 0 {
        None
    } else {
        let entry = list.swap_remove(0);
        Some(entry.service)
    }
}

/// The deploy of the first entry of a deploy listing; none when it is empty.
pub fn first_deploy(list: Vec<ListDeploysResponse>) -> (r: Option<Deploy>)
    ensures
        r == (if list@.len() == 0 {
            None
        } else {
            Some(list@[0].deploy)
        }),
{
    let mut list = list;
    if list.len() == 0 {
        None
    } else {
        let entry = list.swap_remove(0);
        Some(entry.deploy)
    }
}

} // verus!
