//! Settings for joining a room and for the connection.
use vstd::prelude::*;

use crate::kit::astr::AStr;
use crate::kit::text::str_eq;
use crate::proto::v1::UpdateTreeRequest;

verus! {

/// Who joins which room, and how.
#[derive(Debug, Clone)]
pub struct JoinConfig {
    pub user_id: AStr,
    pub room_id: AStr,
    pub advance: JoinAdvanceArgs,
}

/// The optional part of a join.
#[derive(Debug, Clone)]
pub struct JoinAdvanceArgs {
    pub user_ext: Option<AStr>,
    pub user_tree: Option<Vec<UpdateTreeRequest>>,
    pub connection: ConnectionConfig,
    pub batch: Option<bool>,
    pub token: Option<AStr>,
    pub client_info: Option<ClientInfo>,
}

impl Default for JoinAdvanceArgs {
    fn default() -> (r: Self)
        ensures
            r.user_ext is None,
            r.user_tree is None,
            r.connection.is_default_but_cert(false),
            r.batch is None,
            r.token is None,
            r.client_info is None,
    {
        JoinAdvanceArgs {
            user_ext: None,
            user_tree: None,
            connection: ConnectionConfig::default(),
            batch: None,
            token: None,
            client_info: None,
        }
    }
}

/// What the client tells about itself; `device` holds key/value pairs in
/// the order given.
#[derive(Debug, Clone)]
pub struct ClientInfo {
    pub platform: Option<AStr>,
    pub sdk_name: Option<AStr>,
    pub sdk_version: Option<AStr>,
    pub device: Option<Vec<(AStr, AStr)>>,
}

impl Default for ClientInfo {
    fn default() -> (r: Self)
        ensures
            r.platform is None,
            r.sdk_name is None,
            r.sdk_version is None,
            r.device is None,
    {
        ClientInfo { platform: None, sdk_name: None, sdk_version: None, device: None }
    }
}

/// No key occurs twice among device pairs, as in a map.
pub open spec fn device_keys_unique(d: Seq<(AStr, AStr)>) -> bool {
    forall|i: int, j: int| 0 <= i < j < d.len() ==> #[trigger] d[i].0@ != #[trigger] d[j].0@
}

fn keys_unique(d: &Vec<(AStr, AStr)>) -> (r: bool)
    ensures
        r == device_keys_unique(d@),
{
    let mut j: usize = 1;
    while j < d.len()
        invariant
            1 <= j || d@.len() == 0,
            j <= d@.len() || d@.len() == 0,
            forall|a: int, b: int| 0 <= a < b < j && b < d@.len() ==> #[trigger] d@[a].0@ != #[trigger] d@[b].0@,
        decreases d.len() - j,
    {
        let mut i: usize = 0;
        while i < j
            invariant
                i <= j < d@.len(),
                forall|a: int, b: int| 0 <= a < b < j ==> #[trigger] d@[a].0@ != #[trigger] d@[b].0@,
                forall|a: int| 0 <= a < i ==> #[trigger] d@[a].0@ != d@[j as int].0@,
            decreases j - i,
        {
            if str_eq(d[i].0.as_str(), d[j].0.as_str()) {
                return false;
            }
            i = i + 1;
        }
        j = j + 1;
    }
    true
}

impl ClientInfo {
    /// The device pairs, if any, are a map: no key occurs twice.
    pub open spec fn wf(&self) -> bool {
        match self.device {
            Some(d) => device_keys_unique(d@),
            None => true,
        }
    }

    pub fn is_wf(&self) -> (r: bool)
        ensures
            r == self.wf(),
    {
        match &self.device {
            Some(d) => keys_unique(d),
            None => true,
        }
    }
}

impl JoinConfig {
    /// The client information, if any, is well formed.
    pub open spec fn wf(&self) -> bool {
        match self.advance.client_info {
            Some(ci) => ci.wf(),
            None => true,
        }
    }

    pub fn is_wf(&self) -> (r: bool)
        ensures
            r == self.wf(),
    {
        match &self.advance.client_info {
            Some(ci) => ci.is_wf(),
            None => true,
        }
    }
}

/// The duration of `secs` whole seconds.
pub uninterp spec fn duration_secs(secs: u64) -> std::time::Duration;

/// Calls `Duration::from_secs`; the contract names its result
/// `duration_secs(secs)`, which depends on `secs` alone.
#[verifier::external_body]
fn secs(n: u64) -> (r: std::time::Duration)
    ensures
        r == duration_secs(n),
{
    std::time::Duration::from_secs(n)
}

/// Connection settings; an absent value means the default.
#[derive(Debug, Clone)]
pub struct ConnectionConfig {
    /// timeout of one connection attempt (default 5 s)
    pub connect_timeout: Option<std::time::Duration>,
    /// time allowed for all attempts, counted from the first (default 10 s)
    pub max_timeout: Option<std::time::Duration>,
    /// wait before each new attempt (default 1 s)
    pub retry_interval: Option<std::time::Duration>,
    /// accept any server certificate
    pub ignore_server_cert: bool,
    /// whether heartbeats are sent (default yes)
    pub heartbeat_enable: Option<bool>,
    /// interval between heartbeats (default 10 s)
    pub heartbeat_interval: Option<std::time::Duration>,
    /// silence after which the connection counts as lost (default 30 s)
    pub heartbeat_timeout: Option<std::time::Duration>,
}

/// The value of an optional setting, or its default.
pub open spec fn or_default<T>(v: Option<T>, d: T) -> T {
    match v {
        Some(x) => x,
        None => d,
    }
}

impl Default for ConnectionConfig {
    fn default() -> (r: Self)
        ensures
            r.is_default_but_cert(false),
    {
        ConnectionConfig {
            connect_timeout: None,
            max_timeout: None,
            retry_interval: None,
            ignore_server_cert: false,
            heartbeat_enable: None,
            heartbeat_interval: None,
            heartbeat_timeout: None,
        }
    }
}

impl ConnectionConfig {
    /// Every setting at its default, the certificate choice `ignore_cert`.
    pub open spec fn is_default_but_cert(&self, ignore_cert: bool) -> bool {
        &&& self.connect_timeout is None
        &&& self.max_timeout is None
        &&& self.retry_interval is None
        &&& self.ignore_server_cert == ignore_cert
        &&& self.heartbeat_enable is None
        &&& self.heartbeat_interval is None
        &&& self.heartbeat_timeout is None
    }

    pub fn connect_timeout(&self) -> (r: std::time::Duration)
        ensures
            r == or_default(self.connect_timeout, duration_secs(5)),
    {
        match self.connect_timeout {
            Some(d) => d,
            None => secs(5),
        }
    }

    pub fn max_timeout(&self) -> (r: std::time::Duration)
        ensures
            r == or_default(self.max_timeout, duration_secs(10)),
    {
        match self.max_timeout {
            Some(d) => d,
            None => secs(10),
        }
    }

    pub fn retry_interval(&self) -> (r: std::time::Duration)
        ensures
            r == or_default(self.retry_interval, duration_secs(1)),
    {
        match self.retry_interval {
            Some(d) => d,
            None => secs(1),
        }
    }

    pub fn heartbeat_enable(&self) -> (r: bool)
        ensures
            r == or_default(self.heartbeat_enable, true),
    {
        match self.heartbeat_enable {
            Some(b) => b,
            None => true,
        }
    }

    pub fn heartbeat_interval(&self) -> (r: std::time::Duration)
        ensures
            r == or_default(self.heartbeat_interval, duration_secs(10)),
    {
        match self.heartbeat_interval {
            Some(d) => d,
            None => secs(10),
        }
    }

    pub fn heartbeat_timeout(&self) -> (r: std::time::Duration)
        ensures
            r == or_default(self.heartbeat_timeout, duration_secs(30)),
    {
        match self.heartbeat_timeout {
            Some(d) => d,
            None => secs(30),
        }
    }
}

} // verus!
