//! The rules behind the REST interface: what a request makes of a bridge, which
//! upstream service a device action calls, and which status an error is answered with.

use vstd::prelude::*;

use crate::models::{BridgeConfig, BridgeDevice, BridgeFilter, FeatureFlags};
use crate::storage::StorageError;
use crate::text::str_eq;
use crate::upstream::{domain_of, entity_domain};

verus! {

/// Why a request failed.
#[derive(Debug)]
pub enum ApiError {
    Storage(StorageError),
    NotFound,
    BadRequest(String),
    Runtime(String),
}

/// The status of an answer without an error to a read or to a creation.
pub const STATUS_OK: u16 = 200;

/// The status of the answer to an action that was queued.
pub const STATUS_ACCEPTED: u16 = 202;

/// The status of the answer to a deletion that was queued.
pub const STATUS_NO_CONTENT: u16 = 204;

impl ApiError {
    /// An error of the store, as an error of a request.
    pub fn from(value: StorageError) -> (r: Self)
        ensures
            r == ApiError::Storage(value),
    {
        ApiError::Storage(value)
    }

    /// The status that the error is answered with.
    pub open spec fn status_spec(&self) -> u16 {
        match self {
            ApiError::NotFound => 404,
            ApiError::BadRequest(_) => 400,
            ApiError::Storage(_) => 500,
            ApiError::Runtime(_) => 500,
        }
    }

    /// Whether `body` is a text that the error is answered with: `Not Found`, the
    /// text of a bad request, or a message after `storage error: ` or
    /// `runtime error: `.
    pub open spec fn has_body(&self, body: Seq<char>) -> bool {
        match self {
            ApiError::NotFound => body == "Not Found"@,
            ApiError::BadRequest(text) => body == text@,
            ApiError::Storage(err) => exists|message: Seq<char>|
                err.has_message(message) && body == "storage error: "@ + message,
            ApiError::Runtime(text) => body == "runtime error: "@ + text@,
        }
    }

    /// The status that the error is answered with.
    pub fn status(&self) -> (r: u16)
        ensures
            r == self.status_spec(),
    {
        match self {
            ApiError::NotFound => 404,
            ApiError::BadRequest(_) => 400,
            ApiError::Storage(_) => 500,
            ApiError::Runtime(_) => 500,
        }
    }

    /// The text that the error is answered with.
    pub fn body(&self) -> (r: String)
        ensures
            self.has_body(r@),
    {
        match self {
            ApiError::NotFound => "Not Found".to_owned(),
            ApiError::BadRequest(text) => text.clone(),
            ApiError::Storage(err) => {
                let mut out = "storage error: ".to_owned();
                let text = err.message();
                out.append(text.as_str());
                assert(err.has_message(text@) && out@ == "storage error: "@ + text@);
                out
            },
            ApiError::Runtime(text) => {
                let mut out = "runtime error: ".to_owned();
                out.append(text.as_str());
                out
            },
        }
    }
}

/// What a request to create or update a bridge carries.
#[derive(Debug, Clone)]
pub struct BridgePayload {
    pub name: String,
    pub port: u16,
    pub filter: Option<BridgeFilter>,
    pub feature_flags: Option<FeatureFlags>,
}

/// The filter that a request means: the one it carries, or the empty one.
fn filter_or_default(filter: Option<BridgeFilter>) -> (r: BridgeFilter)
    ensures
        filter is Some ==> r == filter->0,
        filter is None ==> r.is_empty(),
{
    match filter {
        Some(f) => f,
        None => BridgeFilter::default(),
    }
}

/// The flags that a request means: those it carries, or none set.
fn flags_or_default(flags: Option<FeatureFlags>) -> (r: FeatureFlags)
    ensures
        flags is Some ==> r == flags->0,
        flags is None ==> !r.cover_do_not_invert_percentage,
{
    match flags {
        Some(f) => f,
        None => FeatureFlags::default(),
    }
}

/// The bridge that a request creates at the instant `now`, under the fresh identifier
/// `id`. A filter or flags that the request does not carry are empty.
pub fn create_bridge(id: u128, payload: BridgePayload, now: i128) -> (bridge: BridgeConfig)
    ensures
        bridge.id == id,
        bridge.name == payload.name,
        bridge.port == payload.port,
        payload.filter is Some ==> bridge.filter == payload.filter->0,
        payload.filter is None ==> bridge.filter.is_empty(),
        payload.feature_flags is Some ==> bridge.feature_flags == payload.feature_flags->0,
        payload.feature_flags is None ==> !bridge.feature_flags.cover_do_not_invert_percentage,
        bridge.created_at == now,
        bridge.updated_at == now,
{
    BridgeConfig {
        id,
        name: payload.name,
        port: payload.port,
        filter: filter_or_default(payload.filter),
        feature_flags: flags_or_default(payload.feature_flags),
        created_at: now,
        updated_at: now,
    }
}

/// The bridge that a request makes of an existing one at the instant `now`: the
/// identifier and the instant of creation stay, everything else is replaced.
pub fn update_bridge(bridge: BridgeConfig, payload: BridgePayload, now: i128) -> (updated:
    BridgeConfig)
    ensures
        updated.id == bridge.id,
        updated.created_at == bridge.created_at,
        updated.name == payload.name,
        updated.port == payload.port,
        payload.filter is Some ==> updated.filter == payload.filter->0,
        payload.filter is None ==> updated.filter.is_empty(),
        payload.feature_flags is Some ==> updated.feature_flags == payload.feature_flags->0,
        payload.feature_flags is None ==> !updated.feature_flags.cover_do_not_invert_percentage,
        updated.updated_at == now,
{
    BridgeConfig {
        id: bridge.id,
        name: payload.name,
        port: payload.port,
        filter: filter_or_default(payload.filter),
        feature_flags: flags_or_default(payload.feature_flags),
        created_at: bridge.created_at,
        updated_at: now,
    }
}

/// A call of a service of the upstream controller for one entity.
#[derive(Debug, Clone)]
pub struct ServiceCall {
    pub domain: String,
    pub service: String,
    pub entity_id: String,
    pub rgb_color: Option<(u8, u8, u8)>,
}

/// Whether a device list has a device of the entity.
pub open spec fn has_entity(devices: Seq<BridgeDevice>, entity_id: Seq<char>) -> bool {
    exists|i: int| 0 <= i < devices.len() && (#[trigger] devices[i]).entity_id@ == entity_id
}

/// Whether a device list has a device of the entity.
pub fn contains_entity(devices: &Vec<BridgeDevice>, entity_id: &str) -> (r: bool)
    ensures
        r == has_entity(devices@, entity_id@),
{
    let mut i: usize = 0;
    while i < devices.len()
        invariant
            i <= devices.len(),
            forall|m: int| 0 <= m < i ==> (#[trigger] devices[m]).entity_id@ != entity_id@,
        decreases devices.len() - i,
    {
        if str_eq(devices[i].entity_id.as_str(), entity_id) {
            return true;
        }
        i += 1;
    }
    false
}

/// The call that an action on a device of a bridge leads to.
///
/// The entity must be a device of the bridge, else the answer is `NotFound`. Without an
/// upstream controller the answer is a runtime error. The service is called in the
/// domain of the entity, for that entity, with the colour where one is given.
pub fn call_device_service(
    devices: &Vec<BridgeDevice>,
    upstream_configured: bool,
    entity_id: &str,
    service: &str,
    rgb_color: Option<(u8, u8, u8)>,
) -> (r: Result<ServiceCall, ApiError>)
    ensures
        !has_entity(devices@, entity_id@) ==> r is Err && r->Err_0 is NotFound,
        has_entity(devices@, entity_id@) && !upstream_configured ==> (r matches Err(
            ApiError::Runtime(text),
        ) && text@ == "home assistant not configured"@),
        has_entity(devices@, entity_id@) && upstream_configured ==> (r matches Ok(call)
            && call.domain@ == domain_of(entity_id@) && call.service@ == service@
            && call.entity_id@ == entity_id@ && call.rgb_color == rgb_color),
{
    if !contains_entity(devices, entity_id) {
        return Err(ApiError::NotFound);
    }
    if !upstream_configured {
        return Err(ApiError::Runtime("home assistant not configured".to_owned()));
    }
    Ok(
        ServiceCall {
            domain: entity_domain(entity_id),
            service: service.to_owned(),
            entity_id: entity_id.to_owned(),
            rgb_color,
        },
    )
}

/// The path under which the upstream controller takes the call of a service.
pub fn service_path(domain: &str, service: &str) -> (r: String)
    ensures
        r@ == "/api/services/"@ + domain@ + "/"@ + service@,
{
    let mut out = "/api/services/".to_owned();
    out.append(domain);
    out.append("/");
    out.append(service);
    out
}

} // verus!
