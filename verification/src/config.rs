use influx_db_client::reqwest::{Client as ReqwestClient, ClientBuilder};
use influx_db_client::{Client, Url};
use std::path::PathBuf;
use vstd::prelude::*;

verus! {

/// A filesystem path, as std holds it.
#[verifier::external_type_specification]
#[verifier::external_body]
pub struct ExPathBuf(PathBuf);

/// A parsed URL, as the `url` crate (re-exported by influx_db_client) holds it.
#[verifier::external_type_specification]
#[verifier::external_body]
pub struct ExUrl(Url);

/// The HTTP client that an InfluxDB client sends its requests with.
#[verifier::external_type_specification]
#[verifier::external_body]
pub struct ExReqwestClient(ReqwestClient);

/// A builder of the HTTP client that an InfluxDB client sends its requests with.
#[verifier::external_type_specification]
#[verifier::external_body]
pub struct ExReqwestClientBuilder(ClientBuilder);

/// A client of an InfluxDB server, as influx_db_client holds it.
#[verifier::external_type_specification]
#[verifier::external_body]
#[verifier::reject_recursive_types(T)]
pub struct ExInfluxClient<T>(Client<T>);

/// The path that `PathBuf::from` makes of the text `text`.
pub uninterp spec fn path_from_text(text: Seq<char>) -> PathBuf;

/// `PathBuf::from` of std, on a string slice: the path whose text is `text`. The result is
/// named by `path_from_text`; nothing more of it is stated.
#[verifier::external_body]
fn path_buf(text: &str) -> (path: PathBuf)
    ensures
        path == path_from_text(text@),
{
    PathBuf::from(text)
}

/// What `Url::parse` makes of `text`: the URL, or `None` where it is not a valid URL.
pub uninterp spec fn parsed_url(text: Seq<char>) -> Option<Url>;

/// `Url::parse` of the `url` crate: the URL that `text` is, or `None` where `Url::parse`
/// returns an error. Which texts parse, and to what, is named by `parsed_url` and not stated.
#[verifier::external_body]
fn parse_url(text: &str) -> (url: Option<Url>)
    ensures
        url == parsed_url(text@),
{
    Url::parse(text).ok()
}

/// `ClientBuilder::new` of reqwest: a builder with reqwest's default settings, those that
/// `reqwest::Client::default` builds with. Nothing is stated of it, which is opaque here.
#[verifier::external_body]
fn http_client_builder() -> (builder: ClientBuilder) {
    ClientBuilder::new()
}

/// `ClientBuilder::build` of reqwest: the HTTP client, or `None` where reqwest returns an
/// error, which its documentation says it does where a TLS backend cannot be initialized or the
/// resolver cannot load the system configuration. Whether it succeeds depends on the machine,
/// so nothing is stated of the outcome.
#[verifier::external_body]
fn build_http_client(builder: ClientBuilder) -> (client: Option<ReqwestClient>) {
    builder.build().ok()
}

/// What an InfluxDB client sends its requests to and with: the server's URL, the database,
/// and the user name and password where they are set.
pub struct ClientSettings {
    pub host: Url,
    pub database: Seq<char>,
    pub credentials: Option<(Seq<char>, Seq<char>)>,
}

/// A client of an InfluxDB server, with the settings it was made with.
pub struct InfluxClient {
    client: Client,
    host: Ghost<Url>,
    database: Ghost<Seq<char>>,
    credentials: Ghost<Option<(Seq<char>, Seq<char>)>>,
}

impl View for InfluxClient {
    type V = ClientSettings;

    closed spec fn view(&self) -> ClientSettings {
        ClientSettings {
            host: self.host@,
            database: self.database@,
            credentials: self.credentials@,
        }
    }
}

impl InfluxClient {
    /// The client of influx_db_client, to send requests with.
    pub fn into_client(self) -> Client {
        self.client
    }
}

/// `Client::new_with_client` of influx_db_client: a client that sends its requests with
/// `http` to the server at `url`, for the database `database`, with no credentials. Its source
/// sets the client's `host` to `url`, its `db` to `database` and its `authentication` to
/// `None`, which the settings state.
#[verifier::external_body]
fn new_client(url: Url, database: &str, http: ReqwestClient) -> (client: InfluxClient)
    ensures
        client@ == (ClientSettings { host: url, database: database@, credentials: None }),
{
    let host = Ghost(url);
    InfluxClient {
        client: Client::new_with_client(url, database, http),
        host,
        database: Ghost(database@),
        credentials: Ghost(None),
    }
}

/// `Client::set_authentication` of influx_db_client: the client with the user name `user` and
/// the password `password` for its requests. Its source sets the client's `authentication` to
/// them and leaves the rest, which the settings state.
#[verifier::external_body]
fn set_authentication(client: InfluxClient, user: &str, password: &str) -> (authenticated:
    InfluxClient)
    ensures
        authenticated@ == (ClientSettings { credentials: Some((user@, password@)), ..client@ }),
{
    InfluxClient {
        client: client.client.set_authentication(user, password),
        host: client.host,
        database: client.database,
        credentials: Ghost(Some((user@, password@))),
    }
}

/// The Fabric ID used for the Matter controller when the config names none.
pub fn default_matter_fabric_id() -> (id: u64)
    ensures
        id == 2000,
{
    2000
}

/// The directory in which the Matter controller's state is stored when the config names none.
pub fn default_matter_data_path() -> (path: PathBuf)
    ensures
        path == path_from_text("matter-influx/controller-state.bin"@),
{
    path_buf("matter-influx/controller-state.bin")
}

/// The directory of PAA root certificates when the config names none.
pub fn default_paa_dir() -> (path: PathBuf)
    ensures
        path == path_from_text("/usr/share/matter-influx/paa-root-certs"@),
{
    path_buf("/usr/share/matter-influx/paa-root-certs")
}

/// The directory of CD certificates when the config names none.
pub fn default_cd_dir() -> (path: PathBuf)
    ensures
        path == path_from_text("/usr/share/matter-influx/cd-certs"@),
{
    path_buf("/usr/share/matter-influx/cd-certs")
}

/// The paths at which to look for the config file, in the order in which they are searched.
pub open spec fn config_filename_texts() -> Seq<Seq<char>> {
    seq!["matter-influx.toml"@, "/etc/matter-influx.toml"@]
}

/// The paths at which to look for the config file. They are searched in order, and the first
/// one that exists is used.
pub fn config_filenames() -> (names: Vec<&'static str>)
    ensures
        names@.len() == 2,
        names@[0]@ == "matter-influx.toml"@,
        names@[1]@ == "/etc/matter-influx.toml"@,
        names@.map_values(|name: &'static str| name@) == config_filename_texts(),
{
    let mut names = Vec::new();
    names.push("matter-influx.toml");
    names.push("/etc/matter-influx.toml");
    proof {
        assert(names@.map_values(|name: &'static str| name@) =~= config_filename_texts());
    }
    names
}

/// Picks the config file to read, given for each candidate in search order whether it is a
/// file: the first that is; `None` where none is.
pub fn choose_config_file(is_file: &Vec<bool>) -> (index: Option<usize>)
    ensures
        match index {
            Some(i) => i < is_file@.len() && is_file@[i as int] && forall|j: int|
                0 <= j < i ==> !#[trigger] is_file@[j],
            None => forall|j: int| 0 <= j < is_file@.len() ==> !#[trigger] is_file@[j],
        },
{
    let mut i: usize = 0;
    while i < is_file.len()
        invariant
            i <= is_file@.len(),
            forall|j: int| 0 <= j < i ==> !#[trigger] is_file@[j],
        decreases is_file@.len() - i,
    {
        if is_file[i] {
            return Some(i);
        }
        i = i + 1;
    }
    None
}

/// The error given when no config file is found.
pub open spec fn missing_config_text() -> Seq<char> {
    "Unable to find config file in any of [\"matter-influx.toml\", \"/etc/matter-influx.toml\"]"@
}

/// Why a config could not be used.
#[derive(Clone, Copy, Debug, PartialEq, Eq, Structural)]
pub enum ConfigError {
    /// None of the config file paths holds a file.
    NotFound,
    /// The InfluxDB URL of the config is not a valid URL.
    InvalidUrl,
    /// No HTTP client could be set up to talk to InfluxDB with.
    HttpClientUnavailable,
}

impl ConfigError {
    /// The message that reports the error.
    pub fn message(self) -> (text: String)
        ensures
            self == ConfigError::NotFound ==> text@ == missing_config_text(),
            self == ConfigError::InvalidUrl ==> text@ == "Invalid InfluxDB URL"@,
            self == ConfigError::HttpClientUnavailable ==> text@
                == "Unable to set up an HTTP client for InfluxDB"@,
    {
        match self {
            ConfigError::NotFound => String::from_str(
                "Unable to find config file in any of [\"matter-influx.toml\", \"/etc/matter-influx.toml\"]",
            ),
            ConfigError::InvalidUrl => String::from_str("Invalid InfluxDB URL"),
            ConfigError::HttpClientUnavailable => String::from_str(
                "Unable to set up an HTTP client for InfluxDB",
            ),
        }
    }
}

/// The URL of the InfluxDB server when the config names none.
pub open spec fn default_influxdb_url() -> Seq<char> {
    "http://localhost:8086"@
}

/// The InfluxDB database when the config names none.
pub open spec fn default_database() -> Seq<char> {
    "matter"@
}

/// Where to send values: an InfluxDB server, the credentials to use with it, and the database.
pub struct InfluxDbConfig {
    pub url: String,
    pub username: Option<String>,
    pub password: Option<String>,
    pub database: String,
}

impl Default for InfluxDbConfig {
    fn default() -> (config: InfluxDbConfig)
        ensures
            config.url@ == default_influxdb_url(),
            config.username is None,
            config.password is None,
            config.database@ == default_database(),
    {
        InfluxDbConfig {
            url: String::from_str("http://localhost:8086"),
            username: None,
            password: None,
            database: String::from_str("matter"),
        }
    }
}

/// The credentials that a client is given for `username` and `password`: both, where both
/// are given; none otherwise.
pub open spec fn credentials_for(username: Option<String>, password: Option<String>) -> Option<
    (Seq<char>, Seq<char>),
> {
    match (username, password) {
        (Some(user), Some(pass)) => Some((user@, pass@)),
        _ => None,
    }
}

impl InfluxDbConfig {
    /// The user name and password to authenticate with: only where both are configured.
    pub fn credentials(&self) -> (credentials: Option<(&String, &String)>)
        ensures
            credentials_for(self.username, self.password) == match credentials {
                Some((user, pass)) => Some((user@, pass@)),
                None => None::<(Seq<char>, Seq<char>)>,
            },
    {
        match (&self.username, &self.password) {
            (Some(user), Some(pass)) => Some((user, pass)),
            _ => None,
        }
    }

    /// Construct a new InfluxDB client based on the configuration options: for the server at
    /// the configured URL and the configured database, authenticated with the configured user
    /// name and password where both are given. It fails where the URL is not valid, and where
    /// no HTTP client can be set up on this machine; [`Self::client_with`] states what comes of
    /// each outcome of setting one up.
    pub fn make_client(&self) -> (client: Result<InfluxClient, ConfigError>)
        ensures
            parsed_url(self.url@) is None <==> client matches Err(ConfigError::InvalidUrl),
            client matches Err(e) ==> e == ConfigError::InvalidUrl || e
                == ConfigError::HttpClientUnavailable,
            client matches Ok(c) ==> c@ == self.client_settings(),
            client matches Ok(c) ==> c@.host == parsed_url(self.url@)->0 && c@.database
                == self.database@,
            client matches Ok(c) ==> (self.username matches Some(user) ==> (
            self.password matches Some(pass) ==> c@.credentials == Some((user@, pass@)))),
            client matches Ok(c) ==> (self.username is None || self.password is None
                ==> c@.credentials is None),
    {
        proof {
            lemma_client_settings(*self);
        }
        self.client_with(build_http_client(http_client_builder()))
    }

    /// The settings of the client that the configuration asks for: the parsed URL, the
    /// database, and the credentials where both user name and password are given.
    pub open spec fn client_settings(&self) -> ClientSettings {
        ClientSettings {
            host: parsed_url(self.url@)->0,
            database: self.database@,
            credentials: credentials_for(self.username, self.password),
        }
    }

    /// The InfluxDB client that the configuration asks for, sending its requests with the HTTP
    /// client `http`, where one could be set up: an error where the URL is not valid, an error
    /// where no HTTP client could be set up, and otherwise a client with the configured
    /// settings.
    pub fn client_with(&self, http: Option<ReqwestClient>) -> (client: Result<
        InfluxClient,
        ConfigError,
    >)
        ensures
            parsed_url(self.url@) is None <==> client matches Err(ConfigError::InvalidUrl),
            parsed_url(self.url@) is Some && http is None ==> client matches Err(
                ConfigError::HttpClientUnavailable,
            ),
            parsed_url(self.url@) is Some && http is Some ==> (client matches Ok(c) && c@
                == self.client_settings()),
            client matches Ok(c) ==> c@.host == parsed_url(self.url@)->0 && c@.database
                == self.database@,
            client matches Ok(c) ==> (self.username matches Some(user) ==> (
            self.password matches Some(pass) ==> c@.credentials == Some((user@, pass@)))),
            client matches Ok(c) ==> (self.username is None || self.password is None
                ==> c@.credentials is None),
    {
        proof {
            lemma_client_settings(*self);
        }
        let url = match parse_url(self.url.as_str()) {
            Some(url) => url,
            None => return Err(ConfigError::InvalidUrl),
        };
        let http = match http {
            Some(http) => http,
            None => return Err(ConfigError::HttpClientUnavailable),
        };
        let mut influxdb_client = new_client(url, self.database.as_str(), http);
        match self.credentials() {
            Some((user, pass)) => {
                influxdb_client = set_authentication(influxdb_client, user.as_str(), pass.as_str());
            },
            None => {},
        }
        Ok(influxdb_client)
    }
}


/// The client that a configuration asks for is for its URL and database, and is authenticated
/// with its user name and password exactly when both are given; with only one of them, or
/// neither, it has no credentials.
pub proof fn lemma_client_settings(config: InfluxDbConfig)
    ensures
        config.client_settings().host == parsed_url(config.url@)->0,
        config.client_settings().database == config.database@,
        config.username matches Some(user) ==> (config.password matches Some(pass)
            ==> config.client_settings().credentials == Some((user@, pass@))),
        config.username is None || config.password is None ==> config.client_settings().credentials
            is None,
{
}

} // verus!
