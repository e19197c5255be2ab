//! What the user configures: the account, the portal, and how the outcome is
//! to be shown.

use vstd::prelude::*;
use vstd::string::*;
use crate::srun::client::{
    ClientView, SRUNClient, SRUNClientCredentials, SRUNClientOptions, DEFAULT_REDIRECT_HOST,
};
use crate::srun::document::{
    document_in, flag_field, opt_text, parse_text, read_flag, read_text, text_field,
};
use crate::srun::error::{malformed_json_error, result_view, ErrorView, SRUNClientError};
use crate::srun::text::same_text;

verus! {

/// How the outcome is shown.
#[derive(Debug, Clone, Copy, PartialEq, Eq, Structural)]
pub enum OutputFormat {
    Plain,
    Json,
}

#[derive(Debug)]
pub struct AppConfig {
    pub username: Option<String>,
    pub password: Option<String>,
    pub server: Option<String>,
    pub redirect: bool,
    pub redirect_host: Option<String>,
    pub interface: Option<String>,
    pub output: OutputFormat,
    pub command: Option<String>,
}

/// The mathematical value of a configuration.
pub struct ConfigView {
    pub username: Option<Seq<char>>,
    pub password: Option<Seq<char>>,
    pub server: Option<Seq<char>>,
    pub redirect: bool,
    pub redirect_host: Option<Seq<char>>,
    pub interface: Option<Seq<char>>,
    pub output: OutputFormat,
    pub command: Option<Seq<char>>,
}

impl View for AppConfig {
    type V = ConfigView;

    open spec fn view(&self) -> ConfigView {
        ConfigView {
            username: opt_text(self.username),
            password: opt_text(self.password),
            server: opt_text(self.server),
            redirect: self.redirect,
            redirect_host: opt_text(self.redirect_host),
            interface: opt_text(self.interface),
            output: self.output,
            command: opt_text(self.command),
        }
    }
}

/// The configuration in which nothing is set.
pub open spec fn empty_config() -> ConfigView {
    ConfigView {
        username: None,
        password: None,
        server: None,
        redirect: false,
        redirect_host: None,
        interface: None,
        output: OutputFormat::Plain,
        command: None,
    }
}

/// The output format that a name chooses: `json` is JSON, everything else,
/// and no name, is plain text.
pub open spec fn output_named(name: Option<Seq<char>>) -> OutputFormat {
    if name == Some("json"@) {
        OutputFormat::Json
    } else {
        OutputFormat::Plain
    }
}

/// The configuration that a JSON document holds. Every member is optional; a
/// member of the wrong type counts as missing. The command is never read from
/// a document.
pub open spec fn config_of(doc: ::json::JsonValue) -> ConfigView {
    ConfigView {
        username: text_field(doc, "username"@),
        password: text_field(doc, "password"@),
        server: text_field(doc, "server"@),
        redirect: match flag_field(doc, "redirect"@) {
            Some(flag) => flag,
            None => false,
        },
        redirect_host: text_field(doc, "redirect_host"@),
        interface: text_field(doc, "interface"@),
        output: output_named(text_field(doc, "output"@)),
        command: None,
    }
}

/// The configuration that the text of a configuration file holds, or the
/// error of a text that is no JSON or is kept from the parser.
pub open spec fn config_in(text: Seq<char>) -> Result<ConfigView, ErrorView> {
    match document_in(text) {
        Ok(doc) => Ok(config_of(doc)),
        Err(message) => Err(malformed_json_error(message)),
    }
}

/// The client that a configuration with a server describes: credentials
/// where both a username and a password are set, and the default site for the
/// redirect probe where none is set.
pub open spec fn client_of(config: ConfigView) -> ClientView {
    ClientView {
        server: config.server->0,
        credentials: match (config.username, config.password) {
            (Some(username), Some(password)) => Some((username, password)),
            _ => None,
        },
        redirect_host: match config.redirect_host {
            Some(host) => host,
            None => DEFAULT_REDIRECT_HOST@,
        },
        interface: config.interface,
    }
}

/// Chooses the output format by its name.
pub fn output_format(name: Option<&str>) -> (format: OutputFormat)
    ensures
        format == output_named(
            match name {
                Some(n) => Some(n@),
                None => None,
            },
        ),
{
    match name {
        Some(n) => {
            if same_text(n, "json") {
                OutputFormat::Json
            } else {
                OutputFormat::Plain
            }
        },
        None => OutputFormat::Plain,
    }
}

fn copy_text(s: &Option<String>) -> (copy: Option<String>)
    ensures
        opt_text(copy) == opt_text(*s),
{
    match s {
        Some(s) => Some(s.clone()),
        None => None,
    }
}

impl AppConfig {
    pub fn new() -> (config: AppConfig)
        ensures
            config@ == empty_config(),
    {
        AppConfig {
            username: None,
            password: None,
            server: None,
            redirect: false,
            redirect_host: None,
            interface: None,
            output: OutputFormat::Plain,
            command: None,
        }
    }

    /// Reads a configuration from the text of a configuration file.
    pub fn from_text(text: &str) -> (res: Result<AppConfig, SRUNClientError>)
        ensures
            result_view(res) == config_in(text@),
    {
        match parse_text(text) {
            Ok(doc) => {
                let output = read_text(&doc, "output");
                let format = match &output {
                    Some(name) => output_format(Some(name.as_str())),
                    None => output_format(None),
                };
                let redirect = match read_flag(&doc, "redirect") {
                    Some(flag) => flag,
                    None => false,
                };
                Ok(
                    AppConfig {
                        username: read_text(&doc, "username"),
                        password: read_text(&doc, "password"),
                        server: read_text(&doc, "server"),
                        redirect,
                        redirect_host: read_text(&doc, "redirect_host"),
                        interface: read_text(&doc, "interface"),
                        output: format,
                        command: None,
                    },
                )
            },
            Err(message) => Err(SRUNClientError::malformed_json(message)),
        }
    }
}

impl SRUNClient {
    /// The client that a configuration describes. The configuration must
    /// name a server.
    pub fn from_app_config(config: &AppConfig) -> (client: SRUNClient)
        requires
            config.server is Some,
        ensures
            client@ == client_of(config@),
    {
        let server = match &config.server {
            Some(server) => server.clone(),
            None => String::new(),
        };
        let redirect_host = match &config.redirect_host {
            Some(host) => host.clone(),
            None => String::from_str(DEFAULT_REDIRECT_HOST),
        };
        let credentials = match (&config.username, &config.password) {
            (Some(username), Some(password)) => Some(
                SRUNClientCredentials { username: username.clone(), password: password.clone() },
            ),
            _ => None,
        };
        SRUNClient {
            server,
            credentials,
            options: SRUNClientOptions { redirect_host, interface: copy_text(&config.interface) },
        }
    }
}

} // verus!
