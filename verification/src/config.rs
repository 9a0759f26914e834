//! The tunnel client's configuration.
use vstd::prelude::*;
use crate::protocol::{validate_local_port, validate_subdomain, is_valid_subdomain};
use crate::text::{decimal, decimal_string, concat2, copy_text, is_err_with};

verus! {

/// Settings of the tunnel client.
#[derive(Debug, Clone)]
pub struct ClientConfig {
    /// Port of the local service.
    pub local_port: u16,
    /// WebSocket address of the relay server.
    pub server_address: String,
    /// Authentication token.
    pub auth_token: String,
    /// Wanted subdomain; empty to let the server choose.
    pub subdomain: String,
    /// Protocols to tunnel.
    pub protocols: Vec<String>,
}

/// The first problem of a configuration, if any: the port, then the token, then
/// the server address, then a subdomain that breaks the shared rule.
pub open spec fn config_error(c: ClientConfig) -> Option<Seq<char>> {
    if c.local_port == 0 {
        Some("Invalid local port: "@ + decimal(c.local_port as nat))
    } else if c.auth_token@.len() == 0 {
        Some("Auth token cannot be empty"@)
    } else if c.server_address@.len() == 0 {
        Some("Server address cannot be empty"@)
    } else if c.subdomain@.len() > 0 && !is_valid_subdomain(c.subdomain@) {
        Some("Invalid subdomain format: "@ + c.subdomain@)
    } else {
        None
    }
}

/// A sample configuration file.
pub const SAMPLE_CONFIG: &'static str = "# 隧道穿透工具 - 客户端配置文件

# 本地服务监听的端口号
local_port = 3000

# 中转服务器的WebSocket地址
server_address = \"ws://localhost:8080\"

# 客户端认证令牌
auth_token = \"your_auth_token_here\"

# 期望的子域名（可选，留空则由服务器自动生成）
subdomain = \"\"

# 支持的协议列表
protocols = [\"http\", \"https\"]
";

impl ClientConfig {
    /// Checks the configuration; the error names the first problem found.
    pub fn validate(&self) -> (r: Result<(), String>)
        ensures
            match config_error(*self) {
                None => r is Ok,
                Some(m) => is_err_with(r, m),
            },
    {
        if !validate_local_port(self.local_port) {
            let d = decimal_string(self.local_port as u64);
            return Err(concat2("Invalid local port: ", d.as_str()));
        }
        if self.auth_token.as_str().is_empty() {
            return Err(copy_text("Auth token cannot be empty"));
        }
        if self.server_address.as_str().is_empty() {
            return Err(copy_text("Server address cannot be empty"));
        }
        if !self.subdomain.as_str().is_empty() && !validate_subdomain(self.subdomain.as_str()) {
            return Err(concat2("Invalid subdomain format: ", self.subdomain.as_str()));
        }
        Ok(())
    }

    /// The text of a sample configuration file.
    pub fn sample() -> (r: String)
        ensures
            r@ == SAMPLE_CONFIG@,
    {
        copy_text(SAMPLE_CONFIG)
    }
}

/// The relay server address used when none is given on the command line.
pub const DEFAULT_SERVER_ADDRESS: &'static str = "ws://localhost:8080";

/// The protocol a configuration built from the command line tunnels.
pub const DEFAULT_PROTOCOL: &'static str = "http";

/// A configuration from command-line options, when no file is given: the local
/// port and the token must be there (the port is asked for first); the server
/// address defaults to `DEFAULT_SERVER_ADDRESS`, the subdomain to empty, and the
/// protocols are `DEFAULT_PROTOCOL` alone.
pub fn config_from_args(
    local_port: Option<u16>,
    server: Option<String>,
    token: Option<String>,
    subdomain: Option<String>,
) -> (r: Result<ClientConfig, String>)
    ensures
        local_port is None ==> is_err_with(r, "必须指定本地端口 (--local-port 或配置文件)"@),
        local_port is Some && token is None ==> is_err_with(r, "必须指定认证令牌 (--token 或配置文件)"@),
        local_port is Some && token is Some ==> (r matches Ok(c) && {
            &&& c.local_port == local_port->0
            &&& c.server_address@ == (match server { Some(a) => a@, None => DEFAULT_SERVER_ADDRESS@ })
            &&& c.auth_token@ == token->0@
            &&& c.subdomain@ == (match subdomain { Some(d) => d@, None => Seq::<char>::empty() })
            &&& c.protocols@.len() == 1
            &&& c.protocols@[0]@ == DEFAULT_PROTOCOL@
        }),
{
    let port = match local_port {
        Some(p) => p,
        None => return Err(copy_text("必须指定本地端口 (--local-port 或配置文件)")),
    };
    let server_address = match server {
        Some(a) => a,
        None => copy_text(DEFAULT_SERVER_ADDRESS),
    };
    let auth_token = match token {
        Some(t) => t,
        None => return Err(copy_text("必须指定认证令牌 (--token 或配置文件)")),
    };
    let subdomain = match subdomain {
        Some(d) => d,
        None => String::new(),
    };
    let mut protocols: Vec<String> = Vec::new();
    protocols.push(copy_text(DEFAULT_PROTOCOL));
    Ok(ClientConfig { local_port: port, server_address, auth_token, subdomain, protocols })
}

} // verus!
