//! How the client reaches a peer: the settings of its channels, and the pool
//! that keeps one channel for each address.

use vstd::prelude::*;
use crate::error::Error;

verus! {

/// Where the certificates of a secured channel are kept.
#[derive(Debug, Default, PartialEq, Eq)]
pub struct ClientTlsOption {
    /// Root certificate that the server's certificate is checked against.
    pub server_ca_cert_path: String,
    /// Certificate that the client shows.
    pub client_cert_path: String,
    /// Private key of that certificate.
    pub client_key_path: String,
}

impl Clone for ClientTlsOption {
    fn clone(&self) -> (copy: ClientTlsOption)
        ensures
            copy == *self,
    {
        ClientTlsOption {
            server_ca_cert_path: self.server_ca_cert_path.clone(),
            client_cert_path: self.client_cert_path.clone(),
            client_key_path: self.client_key_path.clone(),
        }
    }
}

/// Settings of every channel of a client.
#[derive(Debug, PartialEq, Eq)]
pub struct ChannelConfig {
    /// Seconds that a call may take.
    pub timeout_secs: Option<u64>,
    /// Seconds that setting up a channel may take.
    pub connect_timeout_secs: Option<u64>,
    /// Whether small packets are sent at once.
    pub tcp_nodelay: bool,
    /// The certificates, where the channels are to be secured.
    pub client_tls: Option<ClientTlsOption>,
}

impl Clone for ChannelConfig {
    fn clone(&self) -> (copy: ChannelConfig)
        ensures
            copy == *self,
    {
        ChannelConfig {
            timeout_secs: self.timeout_secs,
            connect_timeout_secs: self.connect_timeout_secs,
            tcp_nodelay: self.tcp_nodelay,
            client_tls: match &self.client_tls {
                Some(certificates) => Some(certificates.clone()),
                None => None,
            },
        }
    }
}

/// Seconds that a call may take, unless told otherwise.
pub const DEFAULT_REQUEST_TIMEOUT_SECS: u64 = 10;

/// Seconds that setting up a channel may take, unless told otherwise.
pub const DEFAULT_CONNECT_TIMEOUT_SECS: u64 = 10;

impl Default for ChannelConfig {
    fn default() -> (config: ChannelConfig)
        ensures
            config == ChannelConfig::spec_new(),
    {
        ChannelConfig {
            timeout_secs: Some(DEFAULT_REQUEST_TIMEOUT_SECS),
            connect_timeout_secs: Some(DEFAULT_CONNECT_TIMEOUT_SECS),
            tcp_nodelay: true,
            client_tls: None,
        }
    }
}

impl ChannelConfig {
    /// The settings that a client has unless told otherwise: ten seconds for
    /// a call and for setting up a channel, small packets sent at once, and
    /// no certificates.
    pub open spec fn spec_new() -> ChannelConfig {
        ChannelConfig {
            timeout_secs: Some(DEFAULT_REQUEST_TIMEOUT_SECS),
            connect_timeout_secs: Some(DEFAULT_CONNECT_TIMEOUT_SECS),
            tcp_nodelay: true,
            client_tls: None,
        }
    }

    pub fn new() -> (config: ChannelConfig)
        ensures
            config == ChannelConfig::spec_new(),
    {
        ChannelConfig {
            timeout_secs: Some(DEFAULT_REQUEST_TIMEOUT_SECS),
            connect_timeout_secs: Some(DEFAULT_CONNECT_TIMEOUT_SECS),
            tcp_nodelay: true,
            client_tls: None,
        }
    }

    pub fn timeout(self, secs: u64) -> (config: ChannelConfig)
        ensures
            config == (ChannelConfig { timeout_secs: Some(secs), ..self }),
    {
        ChannelConfig { timeout_secs: Some(secs), ..self }
    }

    pub fn connect_timeout(self, secs: u64) -> (config: ChannelConfig)
        ensures
            config == (ChannelConfig { connect_timeout_secs: Some(secs), ..self }),
    {
        ChannelConfig { connect_timeout_secs: Some(secs), ..self }
    }

    pub fn tcp_nodelay(self, enabled: bool) -> (config: ChannelConfig)
        ensures
            config == (ChannelConfig { tcp_nodelay: enabled, ..self }),
    {
        ChannelConfig { tcp_nodelay: enabled, ..self }
    }

    pub fn client_tls_config(self, client_tls: ClientTlsOption) -> (config: ChannelConfig)
        ensures
            config == (ChannelConfig { client_tls: Some(client_tls), ..self }),
    {
        ChannelConfig { client_tls: Some(client_tls), ..self }
    }
}

/// The settings of a client's channels, and whether they are secured.
#[derive(Debug, PartialEq, Eq)]
pub struct ChannelManager {
    config: ChannelConfig,
    secure: bool,
}

impl Clone for ChannelManager {
    fn clone(&self) -> (copy: ChannelManager)
        ensures
            copy == *self,
    {
        proof {
            use_type_invariant(self);
        }
        ChannelManager { config: self.config.clone(), secure: self.secure }
    }
}

impl Default for ChannelManager {
    fn default() -> (manager: ChannelManager)
        ensures
            manager.is_plain_default(),
    {
        ChannelManager { config: ChannelConfig::new(), secure: false }
    }
}

impl ChannelManager {
    /// A manager of secured channels has the certificates.
    #[verifier::type_invariant]
    spec fn has_certificates_if_secure(&self) -> bool {
        self.secure ==> self.config.client_tls is Some
    }

    pub closed spec fn spec_config(&self) -> ChannelConfig {
        self.config
    }

    pub closed spec fn spec_is_secure(&self) -> bool {
        self.secure
    }

    /// Whether this is the manager that a client has unless told otherwise:
    /// one of plaintext channels with the default settings.
    pub open spec fn is_plain_default(&self) -> bool {
        !self.spec_is_secure() && self.spec_config() == ChannelConfig::spec_new()
    }

    /// A manager of plaintext channels with the default settings.
    pub fn new() -> (manager: ChannelManager)
        ensures
            manager.is_plain_default(),
    {
        ChannelManager { config: ChannelConfig::new(), secure: false }
    }

    /// A manager of plaintext channels. Certificates in `config` are kept but
    /// not used.
    pub fn with_config(config: ChannelConfig) -> (manager: ChannelManager)
        ensures
            !manager.spec_is_secure(),
            manager.spec_config() == config,
    {
        ChannelManager { config, secure: false }
    }

    /// A manager of secured channels. It needs the certificates: without them
    /// the configuration is invalid.
    pub fn with_tls_config(config: ChannelConfig) -> (made: Result<ChannelManager, Error>)
        ensures
            made is Ok <==> config.client_tls is Some,
            made matches Ok(manager) ==> manager.spec_is_secure() && manager.spec_config()
                == config,
            made matches Err(error) ==> error.is_invalid_tls_config("no config input"@),
    {
        if config.client_tls.is_some() {
            Ok(ChannelManager { config, secure: true })
        } else {
            Err(Error::InvalidTlsConfig { msg: "no config input".to_owned() })
        }
    }

    pub fn config(&self) -> (config: &ChannelConfig)
        ensures
            *config == self.spec_config(),
    {
        &self.config
    }

    #[verifier::when_used_as_spec(spec_is_secure)]
    pub fn is_secure(&self) -> (secure: bool)
        ensures
            secure == self.spec_is_secure(),
    {
        self.secure
    }

    /// The certificates that the channels are secured with: those of the
    /// settings if the channels are secured, and nothing if they are not.
    pub fn tls_option(&self) -> (option: Option<&ClientTlsOption>)
        ensures
            option is Some <==> self.spec_is_secure(),
            option matches Some(certificates) ==> self.spec_config().client_tls == Some(
                *certificates,
            ),
    {
        proof {
            use_type_invariant(self);
        }
        if self.secure {
            self.config.client_tls.as_ref()
        } else {
            None
        }
    }

    /// The scheme of the address of a channel.
    pub open spec fn spec_scheme(&self) -> Seq<char> {
        if self.spec_is_secure() {
            "https://"@
        } else {
            "http://"@
        }
    }

    /// The address to set up a channel to the peer `addr` with.
    pub fn endpoint_uri(&self, addr: &str) -> (uri: String)
        ensures
            uri@ == self.spec_scheme() + addr@,
    {
        let mut uri = if self.secure {
            "https://".to_owned()
        } else {
            "http://".to_owned()
        };
        vstd::string::StringExecFns::append(&mut uri, addr);
        uri
    }
}

} // verus!
