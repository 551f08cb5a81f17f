//! The control channel's decisions.
//!
//! The wire exchange itself — the register call at startup and the
//! recurring poll — is plain HTTP driven by the surrounding process. What
//! stands here is what those exchanges decide: the register response and
//! an action-tagged poll response carry a route list, and when the action
//! asks for it the list replaces the routing table wholesale.

use vstd::prelude::*;

use crate::api::DeserializedApi;
use crate::store::RouteTableStore;
use crate::store::active_of;
use crate::store::build_table;
use crate::store::inactive_of;
use crate::text::str_eq;

verus! {

/// Engine-wide settings the control plane pushes at registration.
#[derive(Debug)]
pub struct SystemConfig {
    pub _id: String,
    pub access_log_format: String,
    pub listen_http_port: String,
    pub listen_https: HttpsConfig,
    pub system_log_level: String,
    pub threads: String,
}

/// The TLS listener settings inside the pushed configuration.
#[derive(Debug)]
pub struct HttpsConfig {
    pub _id: String,
    pub certificate_file_data: String,
    pub certificate_file_name: String,
    pub password: String,
    pub port: String,
    pub private_key_file_data: String,
    pub private_key_file_name: String,
}

/// What a successful register call returns: the engine's identifier, the
/// pushed configuration, and the initial route list.
#[derive(Debug)]
pub struct RegisterResponse {
    pub api: Vec<DeserializedApi>,
    pub config: SystemConfig,
    pub id: String,
}

/// What a poll call returns: an action tag and, for a route update, the
/// new route list.
#[derive(Debug)]
pub struct PollResponse {
    pub action: String,
    pub api: Vec<DeserializedApi>,
}

/// Handles a register response: the initial route list replaces the
/// table.
pub fn process_register_response_message(store: &mut RouteTableStore, info: RegisterResponse)
    requires
        old(store).wf(),
    ensures
        final(store).wf(),
        active_of(final(store)@) == build_table(info.api.deep_view()),
        inactive_of(final(store)@) == active_of(old(store)@),
{
    store.apply(info.api);
}

/// Handles a poll response by its action tag: a route update replaces
/// the table; every other action — configuration, shutdown, restart —
/// leaves the table exactly as it is, so in-flight request serving is
/// never interrupted.
pub fn process_admin_message(store: &mut RouteTableStore, info: PollResponse)
    requires
        old(store).wf(),
    ensures
        final(store).wf(),
        info.action@ == "api"@ ==> active_of(final(store)@) == build_table(info.api.deep_view())
            && inactive_of(final(store)@) == active_of(old(store)@),
        info.action@ != "api"@ ==> final(store)@ == old(store)@,
{
    if str_eq(info.action.as_str(), "api") {
        store.apply(info.api);
    }
}

/// The identity a register message carries: the engine name falls back
/// to the host name, the group name to the empty string.
pub fn register_identity(engine_name: Option<String>, group_name: Option<String>, host_name: String)
    -> (r: (String, String))
    ensures
        r.0@ == match engine_name {
            Some(n) => n@,
            None => host_name@,
        },
        r.1@ == match group_name {
            Some(n) => n@,
            None => Seq::<char>::empty(),
        },
{
    let engine = match engine_name {
        Some(n) => n,
        None => host_name,
    };
    let group = match group_name {
        Some(n) => n,
        None => String::new(),
    };
    (engine, group)
}

} // verus!
