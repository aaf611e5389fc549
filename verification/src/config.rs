//! The filter's configuration: as it is written down, and as the flow holds it
//! once its URLs have been read.

use crate::web::{parse_url, parsed_url};
use vstd::prelude::*;

verus! {

/// The configuration as the filter's owner writes it.
#[derive(Debug, Clone)]
pub struct FilterConfig {
    pub redirect_uri: String,
    pub target_header_name: String,
    pub cookie_name: String,
    pub auth_cluster: String,
    pub issuer: String,
    pub auth_uri: String,
    pub token_uri: String,
    pub client_id: String,
    pub client_secret: String,
}

/// Why a configuration is refused: the first setting that cannot be used.
#[derive(Debug, Clone, Copy, PartialEq, Eq)]
pub enum ConfigError {
    RedirectUri,
    AuthUri,
    TokenUri,
    ClientId,
    ClientSecret,
}

/// What the flow holds of a configuration: each URL as it was written and in
/// its normal form.
pub struct ConfigView {
    pub cookie_name: Seq<char>,
    pub auth_cluster: Seq<char>,
    pub redirect_uri: Seq<char>,
    pub auth_uri: Seq<char>,
    pub token_uri: Seq<char>,
    pub redirect_url: Seq<char>,
    pub authorization_url: Seq<char>,
    pub token_url: Seq<char>,
    pub client_id: Seq<char>,
    pub client_secret: Seq<char>,
}

impl ConfigView {
    /// The three URLs parse, to the normal forms held, and the client has
    /// credentials.
    pub open spec fn valid(self) -> bool {
        &&& parsed_url(self.redirect_uri) == Some(self.redirect_url)
        &&& parsed_url(self.auth_uri) == Some(self.authorization_url)
        &&& parsed_url(self.token_uri) == Some(self.token_url)
        &&& self.client_id.len() > 0
        &&& self.client_secret.len() > 0
    }
}

/// The first setting of `config` that cannot be used, if there is one.
pub open spec fn config_error(config: FilterConfig) -> Option<ConfigError> {
    if parsed_url(config.redirect_uri@) is None {
        Some(ConfigError::RedirectUri)
    } else if parsed_url(config.auth_uri@) is None {
        Some(ConfigError::AuthUri)
    } else if parsed_url(config.token_uri@) is None {
        Some(ConfigError::TokenUri)
    } else if config.client_id@.len() == 0 {
        Some(ConfigError::ClientId)
    } else if config.client_secret@.len() == 0 {
        Some(ConfigError::ClientSecret)
    } else {
        None
    }
}

/// What the flow holds of `config`, where it can be used.
pub open spec fn config_view(config: FilterConfig) -> ConfigView {
    ConfigView {
        cookie_name: config.cookie_name@,
        auth_cluster: config.auth_cluster@,
        redirect_uri: config.redirect_uri@,
        auth_uri: config.auth_uri@,
        token_uri: config.token_uri@,
        redirect_url: parsed_url(config.redirect_uri@)->0,
        authorization_url: parsed_url(config.auth_uri@)->0,
        token_url: parsed_url(config.token_uri@)->0,
        client_id: config.client_id@,
        client_secret: config.client_secret@,
    }
}

/// A configuration that has been read and found usable.
pub struct OAutherConfig {
    cookie_name: String,
    auth_cluster: String,
    redirect_uri: String,
    auth_uri: String,
    token_uri: String,
    redirect_url: String,
    authorization_url: String,
    token_url: String,
    client_id: String,
    client_secret: String,
}

impl View for OAutherConfig {
    type V = ConfigView;

    closed spec fn view(&self) -> ConfigView {
        ConfigView {
            cookie_name: self.cookie_name@,
            auth_cluster: self.auth_cluster@,
            redirect_uri: self.redirect_uri@,
            auth_uri: self.auth_uri@,
            token_uri: self.token_uri@,
            redirect_url: self.redirect_url@,
            authorization_url: self.authorization_url@,
            token_url: self.token_url@,
            client_id: self.client_id@,
            client_secret: self.client_secret@,
        }
    }
}

impl OAutherConfig {
    #[verifier::type_invariant]
    spec fn usable(self) -> bool {
        self@.valid()
    }

    /// Reads a configuration: its three URLs must parse and the client must
    /// have an id and a secret. The first setting that fails is the error.
    pub fn from(config: FilterConfig) -> (r: Result<OAutherConfig, ConfigError>)
        ensures
            match r {
                Ok(read) => config_error(config) is None && read@ == config_view(config),
                Err(e) => config_error(config) == Some(e),
            },
    {
        let redirect_url = match parse_url(config.redirect_uri.as_str()) {
            Ok(url) => url,
            Err(_) => {
                return Err(ConfigError::RedirectUri);
            },
        };
        let authorization_url = match parse_url(config.auth_uri.as_str()) {
            Ok(url) => url,
            Err(_) => {
                return Err(ConfigError::AuthUri);
            },
        };
        let token_url = match parse_url(config.token_uri.as_str()) {
            Ok(url) => url,
            Err(_) => {
                return Err(ConfigError::TokenUri);
            },
        };
        if config.client_id.as_str().unicode_len() == 0 {
            return Err(ConfigError::ClientId);
        }
        if config.client_secret.as_str().unicode_len() == 0 {
            return Err(ConfigError::ClientSecret);
        }
        Ok(
            OAutherConfig {
                cookie_name: config.cookie_name,
                auth_cluster: config.auth_cluster,
                redirect_uri: config.redirect_uri,
                auth_uri: config.auth_uri,
                token_uri: config.token_uri,
                redirect_url,
                authorization_url,
                token_url,
                client_id: config.client_id,
                client_secret: config.client_secret,
            },
        )
    }

    pub fn cookie_name(&self) -> (r: &String)
        ensures
            r@ == self@.cookie_name,
            self@.valid(),
    {
        proof {
            use_type_invariant(self);
        }
        &self.cookie_name
    }

    pub fn auth_cluster(&self) -> (r: &String)
        ensures
            r@ == self@.auth_cluster,
            self@.valid(),
    {
        proof {
            use_type_invariant(self);
        }
        &self.auth_cluster
    }

    pub fn redirect_uri(&self) -> (r: &String)
        ensures
            r@ == self@.redirect_uri,
            self@.valid(),
    {
        proof {
            use_type_invariant(self);
        }
        &self.redirect_uri
    }

    pub fn auth_uri(&self) -> (r: &String)
        ensures
            r@ == self@.auth_uri,
            self@.valid(),
    {
        proof {
            use_type_invariant(self);
        }
        &self.auth_uri
    }

    pub fn token_uri(&self) -> (r: &String)
        ensures
            r@ == self@.token_uri,
            self@.valid(),
    {
        proof {
            use_type_invariant(self);
        }
        &self.token_uri
    }

    pub fn redirect_url(&self) -> (r: &String)
        ensures
            r@ == self@.redirect_url,
            self@.valid(),
    {
        proof {
            use_type_invariant(self);
        }
        &self.redirect_url
    }

    pub fn authorization_url(&self) -> (r: &String)
        ensures
            r@ == self@.authorization_url,
            self@.valid(),
    {
        proof {
            use_type_invariant(self);
        }
        &self.authorization_url
    }

    pub fn token_url(&self) -> (r: &String)
        ensures
            r@ == self@.token_url,
            self@.valid(),
    {
        proof {
            use_type_invariant(self);
        }
        &self.token_url
    }

    pub fn client_id(&self) -> (r: &String)
        ensures
            r@ == self@.client_id,
            self@.valid(),
    {
        proof {
            use_type_invariant(self);
        }
        &self.client_id
    }

    pub fn client_secret(&self) -> (r: &String)
        ensures
            r@ == self@.client_secret,
            self@.valid(),
    {
        proof {
            use_type_invariant(self);
        }
        &self.client_secret
    }
}

} // verus!
