//! Agent configuration and the URLs derived from it. Flag and environment
//! parsing happens outside the library; the parsed plain values arrive here.

use vstd::prelude::*;
use vstd::string::StringExecFns;

use crate::text::{has_prefix, starts_with_str, u64_dec, u64_to_dec};

verus! {

/// The agent's configuration, as parsed from flags or environment.
pub struct Config {
    /// Base URL of the control plane (ws:// or wss://).
    pub backend: String,
    /// Identifier of the monitored service.
    pub service_id: String,
    /// Short-lived user credential.
    pub token: Option<String>,
    /// Long-lived agent credential, preferred over `token`.
    pub agent_token: Option<String>,
    /// Host probed by the health check.
    pub host: String,
    /// Port probed by the health check.
    pub port: u16,
    /// Path of the health endpoint.
    pub health_endpoint: String,
    /// Seconds between observation ticks.
    pub poll_interval: u64,
    /// Shell template run for the restart action.
    pub restart_cmd: Option<String>,
    /// Shell template run for the stop action.
    pub stop_cmd: Option<String>,
    /// Shell template run for the start action.
    pub start_cmd: Option<String>,
    /// Shell template run for the scale action.
    pub scale_cmd: Option<String>,
    /// Size of the rolling window behind the error rate.
    pub error_rate_window: usize,
    /// Optional URL of the target's own metrics endpoint.
    pub metrics_endpoint: Option<String>,
    /// Optional PID or name of a target process to watch.
    pub process: Option<String>,
    /// Port of the agent's own status endpoint (0 disables it).
    pub agent_port: u16,
    /// Capacity of the disconnection buffer.
    pub buffer_size: usize,
}

impl Config {
    /// The URL probed by the health check.
    pub open spec fn spec_health_url(&self) -> Seq<char> {
        "http://"@ + self.host@ + ":"@ + u64_dec(self.port as nat) + self.health_endpoint@
    }

    /// The credential sent to the control plane: the agent token when
    /// configured, otherwise the user token.
    pub open spec fn spec_effective_token(&self) -> Option<Seq<char>> {
        match self.agent_token {
            Some(t) => Some(t@),
            None => match self.token {
                Some(t) => Some(t@),
                None => None,
            },
        }
    }

    /// The connection URL: base endpoint plus the agent path, the service
    /// id, and the preferred credential (a placeholder when none is set).
    pub open spec fn spec_ws_url(&self) -> Seq<char> {
        "/ws/agent?service_id="@ + self.service_id@ + "&token="@ + match self.spec_effective_token() {
            Some(t) => t,
            None => "no-token"@,
        }
    }

    /// The control plane's HTTP base URL: the backend with a ws:// scheme
    /// read as http://, and wss:// as https://.
    pub open spec fn spec_http_base(&self) -> Seq<char> {
        if has_prefix(self.backend@, "wss://"@) {
            "https://"@ + self.backend@.skip("wss://"@.len() as int)
        } else if has_prefix(self.backend@, "ws://"@) {
            "http://"@ + self.backend@.skip("ws://"@.len() as int)
        } else {
            self.backend@
        }
    }

    pub fn health_url(&self) -> (r: String)
        ensures
            r@ == self.spec_health_url(),
    {
        let mut r = String::new();
        r.append("http://");
        r.append(self.host.as_str());
        r.append(":");
        let port = u64_to_dec(self.port as u64);
        r.append(port.as_str());
        r.append(self.health_endpoint.as_str());
        proof {
            assert(r@ =~= self.spec_health_url());
        }
        r
    }

    pub fn effective_token(&self) -> (r: Option<&str>)
        ensures
            match r {
                Some(t) => self.spec_effective_token() == Some(t@),
                None => self.spec_effective_token() is None,
            },
    {
        match &self.agent_token {
            Some(t) => Some(t.as_str()),
            None => match &self.token {
                Some(t) => Some(t.as_str()),
                None => None,
            },
        }
    }

    pub fn ws_url(&self) -> (r: String)
        ensures
            r@ == self.backend@ + self.spec_ws_url(),
    {
        let mut r = String::new();
        r.append(self.backend.as_str());
        r.append("/ws/agent?service_id=");
        r.append(self.service_id.as_str());
        r.append("&token=");
        match self.effective_token() {
            Some(t) => r.append(t),
            None => r.append("no-token"),
        }
        proof {
            assert(r@ =~= self.backend@ + self.spec_ws_url());
        }
        r
    }

    pub fn http_base(&self) -> (r: String)
        ensures
            r@ == self.spec_http_base(),
    {
        proof {
            reveal_strlit("wss://");
            reveal_strlit("ws://");
        }
        if starts_with_str(self.backend.as_str(), "wss://") {
            let mut r = String::new();
            r.append("https://");
            let n = self.backend.as_str().unicode_len();
            let rest = self.backend.as_str().substring_char(6, n);
            r.append(rest);
            proof {
                assert(r@ =~= self.spec_http_base());
            }
            r
        } else if starts_with_str(self.backend.as_str(), "ws://") {
            let mut r = String::new();
            r.append("http://");
            let n = self.backend.as_str().unicode_len();
            let rest = self.backend.as_str().substring_char(5, n);
            r.append(rest);
            proof {
                assert(r@ =~= self.spec_http_base());
            }
            r
        } else {
            self.backend.clone()
        }
    }
}

} // verus!
