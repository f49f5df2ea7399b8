//! Configuration for Things 3 database access.
//!
//! The functions here decide; the host is asked elsewhere. Where the
//! configuration depends on the machine (the home directory, the discovered
//! data folder, whether a file exists, the environment variables), the caller
//! passes what it found as plain values.

use vstd::prelude::*;

use crate::error::{ThingsDatabaseError, ThingsError};

verus! {

/// What the host tells about where Things keeps its data: the user's home
/// directory and the name of the `ThingsData-*` folder that holds the
/// database, each if known.
#[derive(Clone, Debug, Default)]
pub struct HostPaths {
    pub home: Option<String>,
    pub things_data_dir: Option<String>,
}

impl HostPaths {
    /// The home directory, or `~` when it is unknown.
    pub open spec fn spec_home(&self) -> Seq<char> {
        match self.home {
            Some(h) => h@,
            None => "~"@,
        }
    }

    /// The data folder, or the folder that Things has used by default when
    /// none was discovered.
    pub open spec fn spec_data_dir(&self) -> Seq<char> {
        match self.things_data_dir {
            Some(d) => d@,
            None => "ThingsData-0Z0Z2"@,
        }
    }

    /// The default location of the Things 3 database on this host.
    pub open spec fn spec_default_path(&self) -> Seq<char> {
        self.spec_home() + "/Library/Group Containers/JLMPQHK86H.com.culturedcode.ThingsMac/"@
            + self.spec_data_dir() + "/Things Database.thingsdatabase/main.sqlite"@
    }
}

/// Whether a folder name is that of a Things data folder (`ThingsData-*`).
pub open spec fn spec_is_data_dir_name(name: Seq<char>) -> bool {
    name.len() >= "ThingsData-"@.len() && name.subrange(0, "ThingsData-"@.len() as int)
        == "ThingsData-"@
}

/// Whether a folder name is that of a Things data folder (`ThingsData-*`).
pub fn is_data_dir_name(name: &str) -> (b: bool)
    ensures
        b == spec_is_data_dir_name(name@),
{
    let prefix = "ThingsData-";
    let prefix_len: usize = prefix.unicode_len();
    if name.unicode_len() < prefix_len {
        return false;
    }
    same_text(name.substring_char(0, prefix_len), prefix)
}

/// The candidate at `i` is a data folder that holds a database.
pub open spec fn spec_usable_data_dir(candidates: Seq<(String, bool)>, i: int) -> bool {
    spec_is_data_dir_name(candidates[i].0@) && candidates[i].1
}

impl HostPaths {
    /// Picks the data folder among the entries of the Things group container:
    /// each candidate is a folder name with whether a database file exists in
    /// it. The first `ThingsData-*` folder that holds a database wins.
    pub fn pick_data_dir(candidates: &Vec<(String, bool)>) -> (r: Option<String>)
        ensures
            r matches Some(d) ==> exists|i: int|
                0 <= i < candidates@.len() && spec_usable_data_dir(candidates@, i)
                    && d@ == candidates@[i].0@ && forall|j: int|
                    0 <= j < i ==> !spec_usable_data_dir(candidates@, j),
            r is None ==> forall|i: int|
                0 <= i < candidates@.len() ==> !spec_usable_data_dir(candidates@, i),
    {
        let mut i: usize = 0;
        while i < candidates.len()
            invariant
                i <= candidates@.len(),
                forall|j: int| 0 <= j < i ==> !spec_usable_data_dir(candidates@, j),
            decreases candidates@.len() - i,
        {
            let (name, has_database) = &candidates[i];
            if *has_database && is_data_dir_name(name.as_str()) {
                let d = name.clone();
                assert(spec_usable_data_dir(candidates@, i as int) && d@ == candidates@[i as int].0@);
                return Some(d);
            }
            i = i + 1;
        }
        None
    }
}

/// Configuration for Things 3 database access.
#[non_exhaustive]
#[derive(Debug)]
pub struct ThingsConfig {
    database_path: String,
    fallback_to_default: bool,
}

/// Builder for [`ThingsConfig`].
#[derive(Debug, Default)]
pub struct ThingsConfigBuilder {
    database_path: Option<String>,
    fallback_to_default: bool,
}

impl Clone for ThingsConfig {
    fn clone(&self) -> (r: Self)
        ensures
            r == *self,
    {
        ThingsConfig {
            database_path: self.database_path.clone(),
            fallback_to_default: self.fallback_to_default,
        }
    }
}

impl ThingsConfigBuilder {
    /// The path set so far, if any.
    pub closed spec fn spec_path(&self) -> Option<Seq<char>> {
        match self.database_path {
            Some(p) => Some(p@),
            None => None,
        }
    }

    /// The fallback flag set so far.
    pub closed spec fn spec_fallback(&self) -> bool {
        self.fallback_to_default
    }

    /// Sets the database path.
    pub fn database_path(self, path: &str) -> (b: Self)
        ensures
            b.spec_path() == Some(path@),
            b.spec_fallback() == self.spec_fallback(),
    {
        ThingsConfigBuilder {
            database_path: Some(String::from_str(path)),
            fallback_to_default: self.fallback_to_default,
        }
    }

    /// Sets whether to fall back to the default path.
    pub fn fallback_to_default(self, fallback: bool) -> (b: Self)
        ensures
            b.spec_path() == self.spec_path(),
            b.spec_fallback() == fallback,
    {
        ThingsConfigBuilder { database_path: self.database_path, fallback_to_default: fallback }
    }

    /// Builds the configuration; without a path it uses the host's default
    /// path. It never fails.
    pub fn build(self, host: &HostPaths) -> (r: Result<ThingsConfig, ThingsError>)
        ensures
            r matches Ok(c) && c.spec_path() == ThingsConfig::spec_built_path(self, *host)
                && c.spec_fallback() == self.spec_fallback(),
    {
        let database_path = match self.database_path {
            Some(p) => p,
            None => ThingsConfig::get_default_database_path(host),
        };
        Ok(ThingsConfig { database_path, fallback_to_default: self.fallback_to_default })
    }
}

impl ThingsConfig {
    /// The configured database path.
    pub closed spec fn spec_path(&self) -> Seq<char> {
        self.database_path@
    }

    /// Whether the default path is used when the configured one is missing.
    pub closed spec fn spec_fallback(&self) -> bool {
        self.fallback_to_default
    }

    /// The path a builder builds on a host.
    pub open spec fn spec_built_path(b: ThingsConfigBuilder, host: HostPaths) -> Seq<char> {
        match b.spec_path() {
            Some(p) => p,
            None => host.spec_default_path(),
        }
    }

    /// The effective path when it is found: the configured one when it
    /// exists, else the default one when fallback is on and it exists.
    pub open spec fn spec_effective(
        c: ThingsConfig,
        configured_exists: bool,
        default_path: Seq<char>,
        default_exists: bool,
    ) -> Option<Seq<char>> {
        if configured_exists {
            Some(c.spec_path())
        } else if c.spec_fallback() && default_exists {
            Some(default_path)
        } else {
            None
        }
    }

    /// Returns a new builder for [`ThingsConfig`].
    pub fn builder() -> (b: ThingsConfigBuilder)
        ensures
            b.spec_path() is None,
            !b.spec_fallback(),
    {
        ThingsConfigBuilder { database_path: None, fallback_to_default: false }
    }

    /// Path to the Things 3 database.
    pub fn database_path(&self) -> (p: &str)
        ensures
            p@ == self.spec_path(),
    {
        self.database_path.as_str()
    }

    /// Whether to use the default database path if the specified path doesn't exist.
    pub fn fallback_to_default(&self) -> (b: bool)
        ensures
            b == self.spec_fallback(),
    {
        self.fallback_to_default
    }

    /// Create a configuration with the host's default database path and
    /// without fallback.
    pub fn with_default_path(host: &HostPaths) -> (c: Self)
        ensures
            c.spec_path() == host.spec_default_path(),
            !c.spec_fallback(),
    {
        ThingsConfig {
            database_path: Self::get_default_database_path(host),
            fallback_to_default: false,
        }
    }

    /// The message of the error returned when no usable database is found.
    pub open spec fn spec_not_found_message(&self) -> Seq<char> {
        "Database not found at "@ + self.spec_path() + " and fallback is "@ + if self.spec_fallback() {
            "enabled but default path also not found"@
        } else {
            "disabled"@
        }
    }

    /// Get the effective database path, falling back to default if needed.
    ///
    /// `configured_exists` says whether the configured path exists,
    /// `default_path` is the host's default path and `default_exists` whether
    /// that one exists. The configured path wins when it exists; otherwise,
    /// with fallback enabled, the default path when it exists; otherwise a
    /// configuration error that names the configured path.
    pub fn get_effective_database_path(
        &self,
        configured_exists: bool,
        default_path: &str,
        default_exists: bool,
    ) -> (r: Result<String, ThingsError>)
        ensures
            Self::spec_effective(*self, configured_exists, default_path@, default_exists) matches Some(
                p,
            ) ==> (r matches Ok(q) && q@ == p),
            Self::spec_effective(*self, configured_exists, default_path@, default_exists) is None ==> (
            r matches Err(ThingsError::Database(ThingsDatabaseError::Configuration { message }))
                && message@ == self.spec_not_found_message()),
    {
        if configured_exists {
            return Ok(self.database_path.clone());
        }
        if self.fallback_to_default {
            if default_exists {
                return Ok(String::from_str(default_path));
            }
        }
        let mut message = String::from_str("Database not found at ");
        message.append(self.database_path.as_str());
        message.append(" and fallback is ");
        if self.fallback_to_default {
            message.append("enabled but default path also not found");
        } else {
            message.append("disabled");
        }
        Err(ThingsError::configuration(message.as_str()))
    }

    /// Get the default Things 3 database path on the given host.
    pub fn get_default_database_path(host: &HostPaths) -> (p: String)
        ensures
            p@ == host.spec_default_path(),
    {
        let mut p = match &host.home {
            Some(h) => h.clone(),
            None => String::from_str("~"),
        };
        p.append("/Library/Group Containers/JLMPQHK86H.com.culturedcode.ThingsMac/");
        match &host.things_data_dir {
            Some(d) => p.append(d.as_str()),
            None => p.append("ThingsData-0Z0Z2"),
        }
        p.append("/Things Database.thingsdatabase/main.sqlite");
        p
    }
}

/// Building without a path gives what `with_default_path` gives: the host's
/// default path, and no fallback unless it was asked for.
pub proof fn default_builder_builds_the_default_config(b: ThingsConfigBuilder, host: HostPaths)
    requires
        b.spec_path() is None,
    ensures
        ThingsConfig::spec_built_path(b, host) == host.spec_default_path(),
{
}

/// The configured path is used whenever it exists, whatever the fallback
/// setting and whatever the default path.
pub proof fn existing_configured_path_always_wins(
    c: ThingsConfig,
    default_path: Seq<char>,
    default_exists: bool,
)
    ensures
        ThingsConfig::spec_effective(c, true, default_path, default_exists) == Some(c.spec_path()),
{
}

/// `THINGS_DB_PATH` wins over the legacy variable, and the legacy variable
/// over the default path.
pub proof fn db_path_variable_takes_precedence(
    db_path: Seq<char>,
    legacy_path: Option<Seq<char>>,
    legacy_only: Seq<char>,
    host: HostPaths,
)
    ensures
        ThingsConfig::spec_env_path(Some(db_path), legacy_path, host) == db_path,
        ThingsConfig::spec_env_path(None, Some(legacy_only), host) == legacy_only,
        ThingsConfig::spec_env_path(None, None, host) == host.spec_default_path(),
{
}

/// What `str::to_lowercase` returns for the given text.
pub uninterp spec fn lowercase(s: Seq<char>) -> Seq<char>;

/// Calls `str::to_lowercase`. Unicode case mapping takes tables to state, so
/// the result is named rather than described; it depends on the text alone.
#[verifier::external_body]
fn to_lowercase(s: &str) -> (r: String)
    ensures
        r@ == lowercase(s@),
{
    s.to_lowercase()
}

/// The lowercase spellings of a true fallback flag.
pub open spec fn spec_is_true_word(lower: Seq<char>) -> bool {
    ||| lower == "true"@
    ||| lower == "1"@
    ||| lower == "yes"@
    ||| lower == "on"@
}

/// Whether two texts are equal.
fn same_text(a: &str, b: &str) -> (r: bool)
    ensures
        r == (a@ == b@),
{
    String::from_str(a) == String::from_str(b)
}

/// Whether an already lowercased flag value is one of `true`, `1`, `yes`, `on`.
pub fn is_true_word(lower: &str) -> (b: bool)
    ensures
        b == spec_is_true_word(lower@),
{
    same_text(lower, "true") || same_text(lower, "1") || same_text(lower, "yes") || same_text(
        lower,
        "on",
    )
}

/// Reads a fallback flag the way the environment variable is read: the value
/// is lowercased and then must be `true`, `1`, `yes` or `on`.
pub fn parse_fallback_flag(value: &str) -> (b: bool)
    ensures
        b == spec_is_true_word(lowercase(value@)),
{
    let lower = to_lowercase(value);
    is_true_word(lower.as_str())
}

impl ThingsConfig {
    /// The path chosen from the environment's values: `THINGS_DB_PATH`, else
    /// the legacy `THINGS_DATABASE_PATH`, else the host's default path.
    pub open spec fn spec_env_path(
        db_path: Option<Seq<char>>,
        legacy_path: Option<Seq<char>>,
        host: HostPaths,
    ) -> Seq<char> {
        match db_path {
            Some(p) => p,
            None => match legacy_path {
                Some(p) => p,
                None => host.spec_default_path(),
            },
        }
    }

    /// Create configuration from the values of the environment variables
    /// `THINGS_DB_PATH`, `THINGS_DATABASE_PATH` and `THINGS_FALLBACK_TO_DEFAULT`
    /// (each `None` when unset). Fallback is on when its variable is unset.
    pub fn from_env_vars(
        db_path: Option<&str>,
        legacy_path: Option<&str>,
        fallback: Option<&str>,
        host: &HostPaths,
    ) -> (c: Self)
        ensures
            c.spec_path() == Self::spec_env_path(
                match db_path {
                    Some(p) => Some(p@),
                    None => None,
                },
                match legacy_path {
                    Some(p) => Some(p@),
                    None => None,
                },
                *host,
            ),
            c.spec_fallback() == match fallback {
                Some(v) => spec_is_true_word(lowercase(v@)),
                None => true,
            },
    {
        let database_path = match db_path {
            Some(p) => String::from_str(p),
            None => match legacy_path {
                Some(p) => String::from_str(p),
                None => Self::get_default_database_path(host),
            },
        };
        let fallback_to_default = match fallback {
            Some(v) => parse_fallback_flag(v),
            None => true,
        };
        ThingsConfig { database_path, fallback_to_default }
    }
}

/// The default database path is the home directory (`~` when unknown), then
/// the Things group container, then the discovered data folder
/// (`ThingsData-0Z0Z2` when none was discovered), then the database file.
pub proof fn default_path_layout(host: HostPaths)
    ensures
        host.spec_default_path() == (match host.home {
            Some(h) => h@,
            None => "~"@,
        }) + "/Library/Group Containers/JLMPQHK86H.com.culturedcode.ThingsMac/"@ + (
        match host.things_data_dir {
            Some(d) => d@,
            None => "ThingsData-0Z0Z2"@,
        }) + "/Things Database.thingsdatabase/main.sqlite"@,
{
}

/// Whether the home directory is known changes only the start of the default
/// path: two hosts with the same data folder (discovered or not) agree on
/// everything after their home part.
pub proof fn home_changes_only_the_start_of_the_default_path(a: HostPaths, b: HostPaths)
    requires
        a.things_data_dir == b.things_data_dir,
    ensures
        ({
            let ha: int = match a.home {
                Some(h) => h@.len() as int,
                None => 1,
            };
            let hb: int = match b.home {
                Some(h) => h@.len() as int,
                None => 1,
            };
            a.spec_default_path().skip(ha) == b.spec_default_path().skip(hb)
        }),
{
    default_path_layout(a);
    default_path_layout(b);
    let ha: int = match a.home {
        Some(h) => h@.len() as int,
        None => 1,
    };
    let hb: int = match b.home {
        Some(h) => h@.len() as int,
        None => 1,
    };
    reveal_strlit("~");
    let tail = "/Library/Group Containers/JLMPQHK86H.com.culturedcode.ThingsMac/"@ + a.spec_data_dir()
        + "/Things Database.thingsdatabase/main.sqlite"@;
    assert(a.spec_default_path() =~= a.spec_home() + tail);
    assert(b.spec_default_path() =~= b.spec_home() + tail);
    assert(a.spec_home().len() == ha);
    assert(b.spec_home().len() == hb);
    assert((a.spec_home() + tail).skip(ha) =~= tail);
    assert((b.spec_home() + tail).skip(hb) =~= tail);
}

} // verus!
