//! The dashboard's configuration: where it is looked for, how the secrets in
//! it are resolved, and how a reload replaces it.

use vstd::prelude::*;
use crate::registry::{Host, HostRegistry, HostView};
use crate::text::{text_of, trim, trimmed};

verus! {

/// The environment variable that may name the configuration file.
pub const CONFIG_ENV: &'static str = "MOXAPI_CONFIG";

/// The configuration file below the user's configuration directory.
pub const USER_CONFIG: &'static str = "mox/moxapi/config.yaml";

/// The configuration file of the system.
pub const SYSTEM_CONFIG: &'static str = "/etc/moxapi/config.yaml";

/// A default place of the configuration file, and whether a file is there.
#[derive(Debug, PartialEq, Eq)]
pub struct Candidate {
    pub path: String,
    pub exists: bool,
}

/// The places in which the configuration file is looked for.
#[derive(Debug, PartialEq, Eq)]
pub struct PathSources {
    /// The path given on the command line.
    pub argument: Option<String>,
    /// The path named by the environment variable [`CONFIG_ENV`].
    pub environment: Option<String>,
    /// [`USER_CONFIG`] below the user's configuration directory, where the
    /// platform has such a directory.
    pub user_default: Option<Candidate>,
    /// [`SYSTEM_CONFIG`].
    pub system_default: Candidate,
}

impl PathSources {
    /// The path of the configuration file: the one given on the command
    /// line; else the one that the environment names; else the user's
    /// default, if a file is there; else the system's, if a file is there;
    /// else none.
    pub open spec fn chosen(self) -> Option<Seq<char>> {
        if self.argument is Some {
            text_of(self.argument)
        } else if self.environment is Some {
            text_of(self.environment)
        } else if self.user_default is Some && self.user_default->0.exists {
            Some(self.user_default->0.path@)
        } else if self.system_default.exists {
            Some(self.system_default.path@)
        } else {
            None
        }
    }
}

/// What the file system holds at the path that a configured value names.
#[derive(Debug, PartialEq, Eq)]
pub enum SecretFile {
    /// Nothing is at that path: the value is meant as it is written.
    Absent,
    /// A file is there with this content.
    Content(String),
    /// Something is there and could not be read. The text says why.
    Unreadable(String),
}

/// A configured value that is either a secret or the path of the file that
/// holds it.
#[derive(Debug, PartialEq, Eq)]
pub struct Secret {
    pub value: String,
    pub file: SecretFile,
}

/// Why no configuration was loaded.
#[derive(Debug, PartialEq, Eq)]
pub enum ConfigError {
    /// No place holds a configuration file.
    NoSource,
    /// The file could not be read. The text says why.
    Unreadable(String),
    /// The document is no configuration, or a file that it names for a
    /// secret could not be read. The text says why.
    Malformed(String),
}

/// What a [`ConfigError`] holds, as plain text.
pub enum ConfigErrorView {
    NoSource,
    Unreadable(Seq<char>),
    Malformed(Seq<char>),
}

impl View for ConfigError {
    type V = ConfigErrorView;

    open spec fn view(&self) -> ConfigErrorView {
        match self {
            ConfigError::NoSource => ConfigErrorView::NoSource,
            ConfigError::Unreadable(why) => ConfigErrorView::Unreadable(why@),
            ConfigError::Malformed(why) => ConfigErrorView::Malformed(why@),
        }
    }
}

impl ConfigErrorView {
    /// The error in words: the reason that came with it, or that no
    /// configuration file was found.
    pub open spec fn message(self) -> Seq<char> {
        match self {
            ConfigErrorView::NoSource => "no configuration file was found"@,
            ConfigErrorView::Unreadable(why) => why,
            ConfigErrorView::Malformed(why) => why,
        }
    }
}

impl ConfigError {
    /// The error in words.
    pub fn message(&self) -> (words: String)
        ensures
            words@ == self@.message(),
    {
        match self {
            ConfigError::NoSource => "no configuration file was found".to_owned(),
            ConfigError::Unreadable(why) => why.clone(),
            ConfigError::Malformed(why) => why.clone(),
        }
    }
}

impl Secret {
    /// The secret that the value stands for: the value itself where no file
    /// is at the path it names, else the file's content without the white
    /// space around it. Where the file cannot be read there is none, and the
    /// reason is handed on.
    pub open spec fn resolved(self) -> Result<Seq<char>, Seq<char>> {
        match self.file {
            SecretFile::Absent => Ok(self.value@),
            SecretFile::Content(content) => Ok(trimmed(content@)),
            SecretFile::Unreadable(why) => Err(why@),
        }
    }

    /// The secret that the value stands for.
    pub fn resolve(self) -> (secret: Result<String, ConfigError>)
        ensures
            match self.resolved() {
                Ok(text) => secret is Ok && secret->Ok_0@ == text,
                Err(why) => secret is Err && secret->Err_0@ == ConfigErrorView::Malformed(why),
            },
    {
        match self.file {
            SecretFile::Absent => Ok(self.value),
            SecretFile::Content(content) => Ok(trim(content.as_str())),
            SecretFile::Unreadable(why) => Err(ConfigError::Malformed(why)),
        }
    }
}

/// One host as the configuration document lists it.
#[derive(Debug, PartialEq, Eq)]
pub struct HostDocument {
    pub hostname: String,
    pub ip: String,
    pub api_key: Secret,
}

/// The configuration as the document holds it, before its secrets are
/// resolved.
#[derive(Debug, PartialEq, Eq)]
pub struct Document {
    pub password: Secret,
    pub hosts: Vec<HostDocument>,
}

/// The index of the first of `hosts` whose credential cannot be resolved, or
/// the number of hosts if there is none.
pub open spec fn first_unresolved(hosts: Seq<HostDocument>) -> int
    decreases hosts.len(),
{
    if hosts.len() == 0 {
        0
    } else if hosts[0].api_key.resolved() is Err {
        0
    } else {
        1 + first_unresolved(hosts.drop_first())
    }
}

/// The host that `listed` stands for, where its credential can be resolved.
pub open spec fn host_of(listed: HostDocument) -> HostView {
    HostView { ip: listed.ip@, api_key: listed.api_key.resolved()->Ok_0 }
}

/// The mapping that the first `n` of `hosts` make, where each credential can
/// be resolved: of two hosts with one name the later stays.
pub open spec fn registered(hosts: Seq<HostDocument>, n: int) -> Map<Seq<char>, HostView>
    decreases n,
{
    if n <= 0 {
        Map::empty()
    } else {
        registered(hosts, n - 1).insert(hosts[n - 1].hostname@, host_of(hosts[n - 1]))
    }
}

/// The mapping that the first `n` of `hosts` make holds the names that are
/// listed and no others, and under each name the host that is listed last
/// under it.
pub proof fn law_registered_is_the_last_listed(hosts: Seq<HostDocument>, n: int)
    requires
        0 <= n <= hosts.len(),
    ensures
        forall|name: Seq<char>|
            registered(hosts, n).contains_key(name) <==> exists|i: int|
                0 <= i < n && (#[trigger] hosts[i]).hostname@ == name,
        forall|i: int|
            0 <= i < n && (forall|j: int| i < j < n ==> (#[trigger] hosts[j]).hostname@
                != hosts[i].hostname@) ==> registered(hosts, n)[(#[trigger] hosts[i]).hostname@]
                == host_of(hosts[i]),
    decreases n,
{
    if n > 0 {
        law_registered_is_the_last_listed(hosts, n - 1);
        let last = hosts[n - 1];
        assert forall|name: Seq<char>|
            registered(hosts, n).contains_key(name) <==> exists|i: int|
                0 <= i < n && (#[trigger] hosts[i]).hostname@ == name by {
            if registered(hosts, n).contains_key(name) {
                if name == last.hostname@ {
                    assert(hosts[n - 1].hostname@ == name);
                } else {
                    assert(registered(hosts, n - 1).contains_key(name));
                    let i = choose|i: int| 0 <= i < n - 1 && (#[trigger] hosts[i]).hostname@ == name;
                    assert(0 <= i < n && hosts[i].hostname@ == name);
                }
            }
            if exists|i: int| 0 <= i < n && (#[trigger] hosts[i]).hostname@ == name {
                let i = choose|i: int| 0 <= i < n && (#[trigger] hosts[i]).hostname@ == name;
                if i < n - 1 {
                    assert(0 <= i < n - 1 && hosts[i].hostname@ == name);
                    assert(registered(hosts, n - 1).contains_key(name));
                }
            }
        }
        assert forall|i: int|
            0 <= i < n && (forall|j: int| i < j < n ==> (#[trigger] hosts[j]).hostname@
                != hosts[i].hostname@) implies registered(hosts, n)[(
        #[trigger] hosts[i]).hostname@] == host_of(hosts[i]) by {
            if i < n - 1 {
                assert(hosts[n - 1].hostname@ != hosts[i].hostname@);
                assert forall|j: int| i < j < n - 1 implies (#[trigger] hosts[j]).hostname@
                    != hosts[i].hostname@ by {}
            }
        }
    }
}

/// What a [`Config`] holds: the password and the hosts by hostname.
pub struct ConfigView {
    pub password: Seq<char>,
    pub hosts: Map<Seq<char>, HostView>,
}

impl Document {
    /// The configuration that the document stands for, or the reason why it
    /// stands for none: the password is resolved first, then the credential
    /// of each host in turn, and the first that cannot be resolved gives the
    /// reason.
    pub open spec fn configured(self) -> Result<ConfigView, ConfigErrorView> {
        match self.password.resolved() {
            Err(why) => Err(ConfigErrorView::Malformed(why)),
            Ok(password) => {
                let at = first_unresolved(self.hosts@);
                if at < self.hosts@.len() {
                    Err(ConfigErrorView::Malformed(self.hosts@[at].api_key.resolved()->Err_0))
                } else {
                    Ok(ConfigView { password, hosts: registered(self.hosts@, self.hosts@.len() as int) })
                }
            },
        }
    }
}

/// What loading handed over, as plain values: the configuration that was
/// read, or the reason why none was.
pub open spec fn loaded_view(loaded: Result<Document, ConfigError>) -> Result<
    ConfigView,
    ConfigErrorView,
> {
    match loaded {
        Ok(document) => document.configured(),
        Err(error) => Err(error@),
    }
}

/// The dashboard's configuration: the password that opens a session, and the
/// registry of hosts.
#[derive(Debug, PartialEq, Eq)]
pub struct Config {
    pub password: String,
    pub hosts: HostRegistry,
}

impl View for Config {
    type V = ConfigView;

    open spec fn view(&self) -> ConfigView {
        ConfigView { password: self.password@, hosts: self.hosts@ }
    }
}

impl Default for Config {
    /// The configuration that is used where none can be loaded: no password
    /// is set and no host is registered.
    fn default() -> (config: Config)
        ensures
            config@ == (ConfigView { password: Seq::empty(), hosts: Map::empty() }),
    {
        Config { password: String::new(), hosts: HostRegistry::new() }
    }
}

/// `first_unresolved(hosts)` is the one index before which every credential
/// can be resolved and at which one cannot, or the number of hosts.
proof fn lemma_first_unresolved(hosts: Seq<HostDocument>, n: int)
    requires
        0 <= n <= hosts.len(),
        forall|i: int| 0 <= i < n ==> (#[trigger] hosts[i]).api_key.resolved() is Ok,
        n < hosts.len() ==> hosts[n].api_key.resolved() is Err,
    ensures
        first_unresolved(hosts) == n,
    decreases hosts.len(),
{
    if n > 0 {
        let rest = hosts.drop_first();
        assert forall|i: int| 0 <= i < n - 1 implies (#[trigger] rest[i]).api_key.resolved() is Ok by {
            assert(rest[i] == hosts[i + 1]);
        }
        lemma_first_unresolved(rest, n - 1);
    }
}

impl Config {
    /// The path of the configuration file among `sources`.
    pub fn config_path(sources: PathSources) -> (path: Option<String>)
        ensures
            text_of(path) == sources.chosen(),
    {
        if sources.argument.is_some() {
            return sources.argument;
        }
        if sources.environment.is_some() {
            return sources.environment;
        }
        if let Some(user) = sources.user_default {
            if user.exists {
                return Some(user.path);
            }
        }
        if sources.system_default.exists {
            return Some(sources.system_default.path);
        }
        None
    }

    /// The configuration that `document` stands for.
    pub fn from_document(document: Document) -> (config: Result<Config, ConfigError>)
        ensures
            match document.configured() {
                Ok(view) => config is Ok && config->Ok_0@ == view,
                Err(error) => config is Err && config->Err_0@ == error,
            },
    {
        let ghost listed = document.hosts@;
        let ghost written = document.password;
        let password = match document.password.resolve() {
            Ok(password) => password,
            Err(error) => {
                return Err(error);
            },
        };
        let mut hosts = HostRegistry::new();
        let mut entries = document.hosts;
        let total = entries.len();
        let mut i: usize = 0;
        while i < total
            invariant
                i <= total,
                total == listed.len(),
                entries@.len() == total,
                forall|j: int| i <= j < total ==> entries@[j] == listed[j],
                forall|j: int| 0 <= j < i ==> (#[trigger] listed[j]).api_key.resolved() is Ok,
                hosts@ == registered(listed, i as int),
                written.resolved() == Ok::<Seq<char>, Seq<char>>(password@),
                document.password == written,
                document.hosts@ == listed,
            decreases total - i,
        {
            let mut entry = HostDocument {
                hostname: String::new(),
                ip: String::new(),
                api_key: Secret { value: String::new(), file: SecretFile::Absent },
            };
            std::mem::swap(&mut entry, &mut entries[i]);
            assert(entry == listed[i as int]);
            match entry.api_key.resolve() {
                Ok(api_key) => {
                    hosts.insert(entry.hostname, Host { ip: entry.ip, api_key });
                },
                Err(error) => {
                    proof {
                        lemma_first_unresolved(listed, i as int);
                    }
                    return Err(error);
                },
            }
            i = i + 1;
        }
        proof {
            lemma_first_unresolved(listed, total as int);
        }
        Ok(Config { password, hosts })
    }

    /// The configuration that was loaded, if one was.
    pub fn load(loaded: Result<Document, ConfigError>) -> (config: Option<Config>)
        ensures
            match loaded_view(loaded) {
                Ok(view) => config is Some && config->0@ == view,
                Err(_) => config is None,
            },
    {
        match loaded {
            Ok(document) => match Config::from_document(document) {
                Ok(config) => Some(config),
                Err(_) => None,
            },
            Err(_) => None,
        }
    }

    /// The configuration to start with: the one that was loaded, and where
    /// none was, the default one, which has no password and no hosts.
    pub fn load_or_default(loaded: Result<Document, ConfigError>) -> (config: Config)
        ensures
            config@ == match loaded_view(loaded) {
                Ok(view) => view,
                Err(_) => ConfigView { password: Seq::empty(), hosts: Map::empty() },
            },
    {
        match Config::load(loaded) {
            Some(config) => config,
            None => Config::default(),
        }
    }

    /// Puts the configuration that was loaded in the place of this one, the
    /// password and every host at once. Where none was loaded, this one stays
    /// as it is, and the reason is handed on.
    pub fn reload(&mut self, loaded: Result<Document, ConfigError>) -> (done: Result<
        (),
        ConfigError,
    >)
        ensures
            match loaded_view(loaded) {
                Ok(view) => done is Ok && final(self)@ == view,
                Err(error) => done is Err && done->Err_0@ == error && *final(self) == *old(self),
            },
    {
        let fresh = match loaded {
            Ok(document) => Config::from_document(document),
            Err(error) => Err(error),
        };
        match fresh {
            Ok(config) => {
                *self = config;
                Ok(())
            },
            Err(error) => Err(error),
        }
    }

    /// Whether `submitted` is the password, character for character.
    pub fn password_matches(&self, submitted: &str) -> (same: bool)
        ensures
            same == (submitted@ == self.password@),
    {
        self.password.as_str().eq(submitted)
    }
}

} // verus!
