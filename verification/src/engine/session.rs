//! What a session knows of its databases, its paths and its catalog.

use vstd::prelude::*;

use crate::attach;
use crate::engine::{NO_PERSISTENT_DB, PERSISTENT_ALIAS};
use crate::engine;
use crate::error::{ErrorCode, McpError};
use crate::text;

verus! {

/// Which databases are known to have a catalog, and which to have none.
#[derive(Debug)]
pub struct CatalogCache {
    entries: Vec<(String, bool)>,
}

/// What the entries say of `key`.
pub open spec fn cached_in(entries: Seq<(String, bool)>, key: Seq<char>) -> Option<bool>
    decreases entries.len(),
{
    if entries.len() == 0 {
        None
    } else if entries.last().0@ == key {
        Some(entries.last().1)
    } else {
        cached_in(entries.drop_last(), key)
    }
}

impl CatalogCache {
    /// What is known of the database whose alias in lower case is `key`.
    pub closed spec fn cached(self, key: Seq<char>) -> Option<bool> {
        cached_in(self.entries@, key)
    }

    /// A cache that knows nothing.
    pub fn new() -> (r: CatalogCache)
        ensures
            forall|key: Seq<char>| #[trigger] r.cached(key) is None,
    {
        CatalogCache { entries: Vec::new() }
    }

    fn lookup(&self, key: &str) -> (r: Option<bool>)
        ensures
            r == self.cached(key@),
    {
        let mut i: usize = self.entries.len();
        assert(self.entries@.take(i as int) =~= self.entries@);
        while i > 0
            invariant
                i <= self.entries@.len(),
                cached_in(self.entries@, key@) == cached_in(self.entries@.take(i as int), key@),
            decreases i,
        {
            proof {
                assert(self.entries@.take(i as int).drop_last() =~= self.entries@.take(i - 1));
            }
            if text::same_text(self.entries[i - 1].0.as_str(), key) {
                return Some(self.entries[i - 1].1);
            }
            i = i - 1;
        }
        None
    }

    fn without(&self, key: &str) -> (r: Vec<(String, bool)>)
        ensures
            forall|k: Seq<char>|
                #[trigger] cached_in(r@, k) == (if k == key@ {
                    None
                } else {
                    self.cached(k)
                }),
    {
        let mut out: Vec<(String, bool)> = Vec::new();
        let mut i: usize = 0;
        assert(self.entries@.take(0) =~= Seq::<(String, bool)>::empty());
        while i < self.entries.len()
            invariant
                i <= self.entries@.len(),
                forall|k: Seq<char>|
                    #[trigger] cached_in(out@, k) == (if k == key@ {
                        None
                    } else {
                        cached_in(self.entries@.take(i as int), k)
                    }),
            decreases self.entries@.len() - i,
        {
            let ghost before = out@;
            let ghost seen = self.entries@.take(i as int);
            proof {
                assert(self.entries@.take(i + 1).drop_last() =~= seen);
            }
            if !text::same_text(self.entries[i].0.as_str(), key) {
                out.push((self.entries[i].0.clone(), self.entries[i].1));
                assert(out@.drop_last() =~= before);
            }
            assert forall|k: Seq<char>| #[trigger] cached_in(out@, k) == (if k == key@ {
                None
            } else {
                cached_in(self.entries@.take(i + 1), k)
            }) by {
                assert(cached_in(before, k) == (if k == key@ {
                    None
                } else {
                    cached_in(seen, k)
                }));
            }
            i = i + 1;
        }
        assert(self.entries@.take(self.entries@.len() as int) =~= self.entries@);
        out
    }

    /// Whether the database `alias` is known to have a catalog; nothing where it is to
    /// be looked up.
    pub fn catalog_present_in(&self, alias: &str) -> (r: Option<bool>)
        ensures
            r == self.cached(text::lower(alias@)),
    {
        let key = text::to_lower(alias);
        self.lookup(key.as_str())
    }

    fn record(&mut self, alias: &str, present: bool)
        ensures
            forall|key: Seq<char>|
                #[trigger] final(self).cached(key) == (if key == text::lower(alias@) {
                    Some(present)
                } else {
                    old(self).cached(key)
                }),
    {
        let key = text::to_lower(alias);
        let mut entries = self.without(key.as_str());
        let ghost rest = entries@;
        entries.push((key, present));
        assert(entries@.drop_last() =~= rest);
        let ghost before = *self;
        self.entries = entries;
        assert forall|k: Seq<char>| #[trigger] self.cached(k) == (if k == text::lower(alias@) {
            Some(present)
        } else {
            before.cached(k)
        }) by {
            assert(cached_in(rest, k) == (if k == text::lower(alias@) {
                None
            } else {
                before.cached(k)
            }));
        }
    }

    /// Remembers what was found out about the database `alias`, and passes it on: a
    /// failure is not remembered.
    pub fn catalog_probed(&mut self, alias: &str, outcome: Result<bool, McpError>) -> (r: Result<
        bool,
        McpError,
    >)
        ensures
            r == outcome,
            outcome is Err ==> *final(self) == *old(self),
            outcome matches Ok(present) ==> forall|key: Seq<char>|
                #[trigger] final(self).cached(key) == (if key == text::lower(alias@) {
                    Some(present)
                } else {
                    old(self).cached(key)
                }),
    {
        if let Ok(present) = outcome {
            self.record(alias, present);
        }
        outcome
    }

    /// Remembers that the database `alias` has a catalog.
    pub fn mark_catalog_present_for(&mut self, alias: &str)
        ensures
            forall|key: Seq<char>|
                #[trigger] final(self).cached(key) == (if key == text::lower(alias@) {
                    Some(true)
                } else {
                    old(self).cached(key)
                }),
    {
        self.record(alias, true);
    }

    /// Forgets what is known of the database `alias`.
    pub fn clear_catalog_cache_for(&mut self, alias: &str)
        ensures
            forall|key: Seq<char>|
                #[trigger] final(self).cached(key) == (if key == text::lower(alias@) {
                    None
                } else {
                    old(self).cached(key)
                }),
    {
        let key = text::to_lower(alias);
        let entries = self.without(key.as_str());
        self.entries = entries;
    }
}

/// What a session knows of its databases.
#[derive(Debug)]
pub struct Engine {
    /// The path of the primary database.
    pub ephemeral_path: String,
    /// The name of the primary database's file without its suffix, where it is text.
    pub ephemeral_stem: Option<String>,
    /// The path of the persistent database, where there is one.
    pub persistent_path: Option<String>,
    /// Whether the persistent database was made when the session began.
    pub persistent_was_created: bool,
    /// Where the database process answers, where a daemon shares it.
    pub daemon_endpoint: Option<String>,
    /// Where the logs are.
    pub log_dir: String,
    /// Which databases are known to have a catalog.
    pub catalog_cache: CatalogCache,
}

/// A time in which names without a database mean another one than the primary.
#[derive(Debug)]
pub struct ScopedSearchPath {
    /// The statement to begin with.
    pub enter: String,
    /// The statement to end with, however the work in between went.
    pub restore: String,
}

/// The name of the primary database.
pub open spec fn primary_name(stem: Option<Seq<char>>) -> Seq<char> {
    match stem {
        Some(s) => s,
        None => "scratch"@,
    }
}

/// The database that `requested` means: the primary one where nothing is asked for.
pub open spec fn target_db(
    requested: Option<Seq<char>>,
    primary: Seq<char>,
    has_persistent: bool,
) -> Result<Seq<char>, Seq<char>> {
    match requested {
        None => Ok(primary),
        Some(r) => {
            let t = text::trimmed(r);
            if t.len() == 0 {
                Ok(primary)
            } else if text::same_ignoring_case(t, PERSISTENT_ALIAS@) {
                if has_persistent {
                    Ok(PERSISTENT_ALIAS@)
                } else {
                    Err(NO_PERSISTENT_DB@)
                }
            } else {
                Ok(text::lower(t))
            }
        },
    }
}

impl Engine {
    /// The name of the primary database.
    pub open spec fn spec_primary(self) -> Seq<char> {
        primary_name(text::opt_text(self.ephemeral_stem))
    }

    /// The name of the primary database.
    pub fn primary_db_name(&self) -> (r: String)
        ensures
            r@ == self.spec_primary(),
    {
        match &self.ephemeral_stem {
            Some(s) => s.clone(),
            None => "scratch".to_owned(),
        }
    }

    /// The path of the primary database.
    pub fn ephemeral_path(&self) -> (r: &str)
        ensures
            r@ == self.ephemeral_path@,
    {
        self.ephemeral_path.as_str()
    }

    /// The path of the persistent database, where there is one.
    pub fn persistent_path(&self) -> (r: Option<&str>)
        ensures
            engine::opt_view(r) == text::opt_text(self.persistent_path),
    {
        match &self.persistent_path {
            Some(path) => Some(path.as_str()),
            None => None,
        }
    }

    /// Where the logs are.
    pub fn log_dir(&self) -> (r: &str)
        ensures
            r@ == self.log_dir@,
    {
        self.log_dir.as_str()
    }

    /// Whether a persistent database is attached.
    pub fn has_persistent(&self) -> (r: bool)
        ensures
            r == (self.persistent_path is Some),
    {
        self.persistent_path.is_some()
    }

    /// Whether the persistent database was made when the session began.
    pub fn persistent_was_just_created(&self) -> (r: bool)
        ensures
            r == self.persistent_was_created,
    {
        self.persistent_was_created
    }

    /// The database that `requested` means.
    pub fn resolve_target_db(&self, requested: Option<&str>) -> (r: Result<String, McpError>)
        ensures
            match target_db(
                engine::opt_view(requested),
                self.spec_primary(),
                self.persistent_path is Some,
            ) {
                Ok(name) => r matches Ok(s) && s@ == name,
                Err(message) => r matches Err(e) && e.says(ErrorCode::InvalidArgument, message),
            },
    {
        let requested = match requested {
            None => {
                return Ok(self.primary_db_name());
            },
            Some(r) => r,
        };
        let trimmed = text::trim(requested);
        let t = trimmed.as_str();
        if t.is_empty() {
            return Ok(self.primary_db_name());
        }
        if text::same_text_ignoring_case(t, PERSISTENT_ALIAS) {
            if self.persistent_path.is_none() {
                return Err(McpError::new(ErrorCode::InvalidArgument, NO_PERSISTENT_DB));
            }
            return Ok(PERSISTENT_ALIAS.to_owned());
        }
        Ok(text::to_lower(t))
    }

    /// Makes names without a database mean `alias` for a while.
    pub fn scoped_search_path(&self, alias: &str) -> (r: ScopedSearchPath)
        ensures
            r.enter@ == attach::pin_statement(alias@),
            r.restore@ == attach::pin_statement(self.spec_primary()),
    {
        let primary = self.primary_db_name();
        ScopedSearchPath {
            enter: attach::set_primary_search_path(alias),
            restore: attach::set_primary_search_path(primary.as_str()),
        }
    }

    /// Where the database process answers: where a daemon shares it, the daemon tells;
    /// `local` is what the process of this session tells, where it has one.
    pub fn hyperd_endpoint(&self, local: Option<Result<String, String>>) -> (r: Result<
        String,
        McpError,
    >)
        ensures
            match self.daemon_endpoint {
                Some(endpoint) => r == Ok::<String, McpError>(endpoint),
                None => match local {
                    None => r matches Err(e) && e.says(
                        ErrorCode::InternalError,
                        "no hyperd endpoint available"@,
                    ),
                    Some(Ok(endpoint)) => r == Ok::<String, McpError>(endpoint),
                    Some(Err(reason)) => r matches Err(e) && e.says(
                        ErrorCode::InternalError,
                        reason@,
                    ),
                },
            },
    {
        match &self.daemon_endpoint {
            Some(endpoint) => Ok(endpoint.clone()),
            None => match local {
                None => Err(
                    McpError::new(ErrorCode::InternalError, "no hyperd endpoint available"),
                ),
                Some(Ok(endpoint)) => Ok(endpoint),
                Some(Err(reason)) => Err(
                    McpError::new(ErrorCode::InternalError, reason.as_str()),
                ),
            },
        }
    }
}

impl Engine {
    /// Whether the database process is alive: `local` says so of the process of this
    /// session, where it has one, and `daemon` whether a daemon is there.
    pub fn is_running(&self, local: Option<bool>, daemon: bool) -> (r: bool)
        ensures
            r == (match local {
                Some(running) => running,
                None => daemon,
            }),
    {
        match local {
            Some(running) => running,
            None => daemon,
        }
    }

    /// The statement to end the session with: a process that a daemon shares would
    /// keep the primary database open.
    pub fn closing_statement(&self) -> (r: Option<String>)
        ensures
            text::opt_text(r) == (if self.daemon_endpoint is Some {
                Some("DETACH DATABASE \""@ + self.spec_primary() + "\""@)
            } else {
                None
            }),
    {
        if self.daemon_endpoint.is_some() {
            let primary = self.primary_db_name();
            Some(text::cat3("DETACH DATABASE \"", primary.as_str(), "\""))
        } else {
            None
        }
    }

    /// Whether the database `alias` is known to have a catalog; nothing where it is to
    /// be looked up.
    pub fn catalog_present_in(&self, alias: &str) -> (r: Option<bool>)
        ensures
            r == self.catalog_cache.cached(text::lower(alias@)),
    {
        self.catalog_cache.catalog_present_in(alias)
    }

    /// Remembers that the database `alias` has a catalog.
    pub fn mark_catalog_present_for(&mut self, alias: &str)
        ensures
            *final(self) == (Engine { catalog_cache: final(self).catalog_cache, ..*old(self) }),
            forall|key: Seq<char>|
                #[trigger] final(self).catalog_cache.cached(key) == (if key == text::lower(alias@) {
                    Some(true)
                } else {
                    old(self).catalog_cache.cached(key)
                }),
    {
        self.catalog_cache.mark_catalog_present_for(alias);
    }

    /// Forgets what is known of the database `alias`.
    pub fn clear_catalog_cache_for(&mut self, alias: &str)
        ensures
            *final(self) == (Engine { catalog_cache: final(self).catalog_cache, ..*old(self) }),
            forall|key: Seq<char>|
                #[trigger] final(self).catalog_cache.cached(key) == (if key == text::lower(alias@) {
                    None
                } else {
                    old(self).catalog_cache.cached(key)
                }),
    {
        self.catalog_cache.clear_catalog_cache_for(alias);
    }

    /// The log of the database process that was changed last.
    pub fn hyperd_log_path(&self, files: &Vec<LogCandidate>) -> (r: Option<usize>)
        ensures
            match r {
                Some(i) => is_newest_log(files@, i as int),
                None => forall|j: int|
                    0 <= j < files@.len() ==> !is_hyperd_log(#[trigger] files@[j]),
            },
    {
        newest_log(files)
    }
}

/// The target is always written in lower case, as attached databases are.
pub proof fn law_target_is_lower_case(
    requested: Option<Seq<char>>,
    primary: Seq<char>,
    has_persistent: bool,
)
    requires
        text::lower(primary) == primary,
    ensures
        target_db(requested, primary, has_persistent) matches Ok(name) ==> text::lower(name)
            == name,
{
    reveal_strlit("persistent");
    assert(text::lower(PERSISTENT_ALIAS@) =~= PERSISTENT_ALIAS@);
    if let Some(r) = requested {
        text::lemma_lower_idempotent(text::trimmed(r));
    }
}

/// Where an attached database is asked for by its alias, in any case and with space
/// around it, the target is the alias that the registry holds.
pub proof fn law_target_agrees_with_registry(
    entries: Seq<attach::AttachedDb>,
    asked: Seq<char>,
    primary: Seq<char>,
    has_persistent: bool,
)
    requires
        attach::entries_wf(entries),
        text::trimmed(asked) == asked,
        asked.len() > 0,
        !text::same_ignoring_case(asked, PERSISTENT_ALIAS@),
    ensures
        target_db(Some(asked), primary, has_persistent) == Ok::<Seq<char>, Seq<char>>(
            text::lower(asked),
        ),
        attach::find(entries, text::lower(asked)) matches Some(i) ==> entries[i].alias@
            == text::lower(asked),
{
    attach::lemma_find(entries, text::lower(asked));
}

/// The path that `path` means where `home` is the home directory: a tilde before the
/// first separator stands for it.
pub open spec fn expanded(
    path: Seq<char>,
    home: Option<Seq<char>>,
    backslash: bool,
    separator: char,
) -> Seq<char> {
    let has_tilde = text::has_head(path, "~/"@) || (backslash && text::has_head(path, "~\\"@));
    match home {
        Some(h) if has_tilde => h + seq![separator] + path.skip(2),
        _ => path,
    }
}

/// Where the home directory is.
#[derive(Debug)]
pub enum HomeDir {
    /// At this path.
    At(String),
    /// At this path of a drive.
    OnDrive {
        /// The drive.
        drive: String,
        /// The path.
        path: String,
    },
}

/// Where the home directory is, from the environment: on Windows `USERPROFILE` says it,
/// where it is set and not empty, else `HOMEDRIVE` and `HOMEPATH` together, and elsewhere
/// `HOME`.
pub open spec fn home_of(
    windows: bool,
    home: Option<String>,
    user_profile: Option<String>,
    home_drive: Option<String>,
    home_path: Option<String>,
) -> Option<HomeDir> {
    if !windows {
        match home {
            Some(h) => Some(HomeDir::At(h)),
            None => None,
        }
    } else if user_profile is Some && user_profile->0@.len() > 0 {
        Some(HomeDir::At(user_profile->0))
    } else {
        match (home_drive, home_path) {
            (Some(drive), Some(path)) => Some(HomeDir::OnDrive { drive, path }),
            _ => None,
        }
    }
}

/// Where the home directory is, where the environment says it.
pub fn home_dir(
    windows: bool,
    home: Option<String>,
    user_profile: Option<String>,
    home_drive: Option<String>,
    home_path: Option<String>,
) -> (r: Option<HomeDir>)
    ensures
        r == home_of(windows, home, user_profile, home_drive, home_path),
{
    if !windows {
        return match home {
            Some(h) => Some(HomeDir::At(h)),
            None => None,
        };
    }
    if let Some(profile) = user_profile {
        if !profile.as_str().is_empty() {
            return Some(HomeDir::At(profile));
        }
    }
    match (home_drive, home_path) {
        (Some(drive), Some(path)) => Some(HomeDir::OnDrive { drive, path }),
        _ => None,
    }
}

/// The path that `path` means; `backslash` says whether the platform also separates
/// names with a backslash, and `separator` how it does by itself.
pub fn shellexpand_tilde(
    path: &str,
    home: Option<&str>,
    backslash: bool,
    separator: char,
) -> (r: String)
    ensures
        r@ == expanded(path@, engine::opt_view(home), backslash, separator),
{
    let has_tilde = text::starts_with(path, "~/") || (backslash && text::starts_with(path, "~\\"));
    match home {
        Some(h) => {
            if has_tilde {
                proof {
                    reveal_strlit("~/");
                    reveal_strlit("~\\");
                    assert("~/"@.len() == 2 && "~\\"@.len() == 2);
                }
                let chars = text::chars_of(path);
                let rest = text::cut(chars.as_slice(), 2, chars.len());
                assert(rest@ =~= path@.skip(2));
                let mut out = h.to_owned();
                out.push(separator);
                out.append(rest.as_str());
                assert(out@ =~= h@ + seq![separator] + path@.skip(2));
                out
            } else {
                path.to_owned()
            }
        },
        None => path.to_owned(),
    }
}

/// Where the logs are: in the directory of the persistent database, given as the part
/// of its path before the last name, else in a directory of this process.
pub open spec fn log_dir(persistent: Option<Option<Seq<char>>>, temporary: Seq<char>) -> Seq<char> {
    match persistent {
        Some(Some(parent)) => parent,
        Some(None) => "."@,
        None => temporary,
    }
}

/// Where the logs are; `persistent` is the directory of the persistent database's
/// path, where there is a persistent database and its path has a directory.
pub fn resolve_log_dir(persistent: Option<Option<&str>>, temporary: &str) -> (r: String)
    ensures
        r@ == log_dir(
            match persistent {
                Some(p) => Some(engine::opt_view(p)),
                None => None,
            },
            temporary@,
        ),
{
    match persistent {
        Some(Some(parent)) => parent.to_owned(),
        Some(None) => ".".to_owned(),
        None => temporary.to_owned(),
    }
}

/// The name of the directory for this process's own files.
pub fn process_dir_name(pid: u32) -> (r: String)
    ensures
        r@ == "hyperdb-mcp-"@ + text::decimal(pid as nat),
{
    let number = text::decimal_text(pid as u64);
    text::cat2("hyperdb-mcp-", number.as_str())
}

/// The name of the directory for a session's primary database: no two sessions of a
/// process have the same number.
pub fn ephemeral_dir_name(pid: u32, seq: u64) -> (r: String)
    ensures
        r@ == "hyperdb-mcp-"@ + text::decimal(pid as nat) + "-"@ + text::decimal(seq as nat),
{
    let number = text::decimal_text(pid as u64);
    let count = text::decimal_text(seq);
    text::cat4("hyperdb-mcp-", number.as_str(), "-", count.as_str())
}

/// A file that may be a log of the database process.
#[derive(Debug)]
pub struct LogCandidate {
    /// Its name.
    pub name: String,
    /// The suffix of its name.
    pub extension: Option<String>,
    /// When it was last changed, where that is known.
    pub modified: Option<u64>,
}

/// Whether a file is a log of the database process whose age is known.
pub open spec fn is_hyperd_log(c: LogCandidate) -> bool {
    &&& text::has_head(c.name@, "hyperd"@)
    &&& c.extension matches Some(e) && text::same_ignoring_case(e@, "log"@)
    &&& c.modified is Some
}

/// Whether `i` is the log of the database process that was changed last, the first of
/// those where there are several.
pub open spec fn is_newest_log(files: Seq<LogCandidate>, i: int) -> bool {
    &&& 0 <= i < files.len()
    &&& is_hyperd_log(files[i])
    &&& forall|j: int|
        0 <= j < files.len() && is_hyperd_log(#[trigger] files[j]) ==> files[j].modified->0
            <= files[i].modified->0
    &&& forall|j: int|
        0 <= j < i && is_hyperd_log(#[trigger] files[j]) ==> files[j].modified->0
            < files[i].modified->0
}

fn hyperd_log(c: &LogCandidate) -> (r: bool)
    ensures
        r == is_hyperd_log(*c),
{
    let suffix = match &c.extension {
        Some(e) => text::same_text_ignoring_case(e.as_str(), "log"),
        None => false,
    };
    suffix && c.modified.is_some() && text::starts_with(c.name.as_str(), "hyperd")
}

fn newest_log(files: &Vec<LogCandidate>) -> (r: Option<usize>)
    ensures
        match r {
            Some(i) => is_newest_log(files@, i as int),
            None => forall|j: int| 0 <= j < files@.len() ==> !is_hyperd_log(#[trigger] files@[j]),
        },
{
    let mut best: Option<usize> = None;
    let mut newest: u64 = 0;
    let mut i: usize = 0;
    while i < files.len()
        invariant
            i <= files@.len(),
            match best {
                Some(b) => b < i && is_newest_log(files@.take(i as int), b as int) && newest
                    == files@[b as int].modified->0,
                None => forall|j: int| 0 <= j < i ==> !is_hyperd_log(#[trigger] files@[j]),
            },
        decreases files@.len() - i,
    {
        let ghost seen = files@.take(i as int);
        let ghost more = files@.take(i + 1);
        proof {
            assert forall|j: int| 0 <= j < i implies seen[j] == more[j] by {}
        }
        if hyperd_log(&files[i]) {
            let modified: u64 = match files[i].modified {
                Some(m) => m,
                None => 0,
            };
            match best {
                Some(b) => {
                    if modified > newest {
                        best = Some(i);
                        newest = modified;
                        assert(is_newest_log(more, i as int)) by {
                            assert forall|j: int|
                                0 <= j < i && is_hyperd_log(#[trigger] more[j]) implies more[j].modified->0
                                < more[i as int].modified->0 by {
                                assert(seen[j] == more[j]);
                            }
                        }
                    } else {
                        assert(is_newest_log(more, b as int)) by {
                            assert forall|j: int|
                                0 <= j < more.len() && is_hyperd_log(
                                    #[trigger] more[j],
                                ) implies more[j].modified->0 <= more[b as int].modified->0 by {
                                if j < i {
                                    assert(seen[j] == more[j]);
                                }
                            }
                            assert forall|j: int|
                                0 <= j < b && is_hyperd_log(#[trigger] more[j]) implies more[j].modified->0
                                < more[b as int].modified->0 by {
                                assert(seen[j] == more[j]);
                            }
                        }
                    }
                },
                None => {
                    best = Some(i);
                    newest = modified;
                    assert(is_newest_log(more, i as int)) by {
                        assert forall|j: int| 0 <= j < i implies !is_hyperd_log(
                            #[trigger] more[j],
                        ) by {
                            assert(more[j] == files@[j]);
                        }
                    }
                },
            }
        } else {
            if let Some(b) = best {
                assert(is_newest_log(more, b as int)) by {
                    assert forall|j: int| 0 <= j < more.len() && is_hyperd_log(#[trigger] more[j]) implies
                        more[j].modified->0 <= more[b as int].modified->0 by {
                        if j < i {
                            assert(seen[j] == more[j]);
                        }
                    }
                    assert forall|j: int| 0 <= j < b && is_hyperd_log(#[trigger] more[j]) implies
                        more[j].modified->0 < more[b as int].modified->0 by {
                        assert(seen[j] == more[j]);
                    }
                }
            }
        }
        i = i + 1;
    }
    assert(files@.take(files@.len() as int) =~= files@);
    best
}

/// The primary database has the name of its file, or is called `scratch`.
pub proof fn law_primary_name(stem: Seq<char>)
    ensures
        primary_name(Some(stem)) == stem,
        primary_name(None) == "scratch"@,
{
}

/// Nothing and blanks ask for the primary database, `persistent` in any case for the
/// persistent one, which has to be there, and anything else for the database of that name,
/// in lower case.
pub proof fn law_targets(requested: Seq<char>, primary: Seq<char>, has_persistent: bool)
    ensures
        target_db(None, primary, has_persistent) == Ok::<Seq<char>, Seq<char>>(primary),
        text::trimmed(requested).len() == 0 ==> target_db(Some(requested), primary, has_persistent)
            == Ok::<Seq<char>, Seq<char>>(primary),
        text::lower(text::trimmed(requested)) == "persistent"@ && has_persistent ==> target_db(
            Some(requested),
            primary,
            has_persistent,
        ) == Ok::<Seq<char>, Seq<char>>("persistent"@),
        text::lower(text::trimmed(requested)) == "persistent"@ && !has_persistent ==> target_db(
            Some(requested),
            primary,
            has_persistent,
        ) == Err::<Seq<char>, Seq<char>>(
            "no persistent database in this session — hyperdb-mcp was started with --ephemeral-only"@,
        ),
        text::trimmed(requested).len() > 0 && text::lower(text::trimmed(requested))
            != "persistent"@ ==> target_db(Some(requested), primary, has_persistent) == Ok::<
            Seq<char>,
            Seq<char>,
        >(text::lower(text::trimmed(requested))),
{
    reveal_strlit("persistent");
    assert(text::lower("persistent"@) =~= "persistent"@);
    let t = text::trimmed(requested);
    assert(text::lower(t).len() == t.len());
}

/// A tilde at the beginning of a path stands for the home directory, where it is followed by
/// a slash, or by a backslash where that parts paths; every other path stays as it is.
pub proof fn law_tildes(
    path: Seq<char>,
    rest: Seq<char>,
    home: Seq<char>,
    backslash: bool,
    separator: char,
)
    ensures
        expanded(seq!['~', '/'] + rest, Some(home), backslash, separator) == home + seq![separator]
            + rest,
        expanded(seq!['~', '\\'] + rest, Some(home), true, separator) == home + seq![separator]
            + rest,
        expanded(seq!['~', '\\'] + rest, Some(home), false, separator) == seq!['~', '\\'] + rest,
        expanded(path, None, backslash, separator) == path,
        path.len() < 2 || path[0] != '~' || (path[1] != '/' && path[1] != '\\') ==> expanded(
            path,
            Some(home),
            backslash,
            separator,
        ) == path,
{
    reveal_strlit("~/");
    reveal_strlit("~\\");
    let a = seq!['~', '/'] + rest;
    let b = seq!['~', '\\'] + rest;
    assert(a.subrange(0, 2) =~= "~/"@);
    assert(b.subrange(0, 2) =~= "~\\"@);
    assert(b.subrange(0, 2)[1] == '\\' && "~/"@[1] == '/');
    assert(a.skip(2) =~= rest);
    assert(b.skip(2) =~= rest);
    if path.len() >= 2 {
        assert(path.subrange(0, 2)[0] == path[0]);
        assert(path.subrange(0, 2)[1] == path[1]);
        assert("~/"@[0] == '~' && "~\\"@[0] == '~' && "~\\"@[1] == '\\');
    }
}

/// Where the home directory is: what HOME says, but on Windows what USERPROFILE says, unless
/// it is empty, and else the home path on the home drive, where both are known.
pub proof fn law_home_directories(
    home: Option<String>,
    user_profile: Option<String>,
    home_drive: Option<String>,
    home_path: Option<String>,
)
    ensures
        home matches Some(h) ==> home_of(false, home, user_profile, home_drive, home_path) == Some(
            HomeDir::At(h),
        ),
        home is None ==> home_of(false, home, user_profile, home_drive, home_path) is None,
        user_profile matches Some(u) ==> u@.len() > 0 ==> home_of(
            true,
            home,
            user_profile,
            home_drive,
            home_path,
        ) == Some(HomeDir::At(u)),
        user_profile is None || user_profile->0@.len() == 0 ==> {
            &&& home_drive is Some && home_path is Some ==> home_of(
                true,
                home,
                user_profile,
                home_drive,
                home_path,
            ) == Some(HomeDir::OnDrive { drive: home_drive->0, path: home_path->0 })
            &&& home_drive is None || home_path is None ==> home_of(
                true,
                home,
                user_profile,
                home_drive,
                home_path,
            ) is None
        },
{
}

/// Logs are beside the persistent database, in the working directory where its path has no
/// directory, and in a temporary directory where there is none.
pub proof fn law_log_directories(parent: Seq<char>, temporary: Seq<char>)
    ensures
        log_dir(Some(Some(parent)), temporary) == parent,
        log_dir(Some(None), temporary) == "."@,
        log_dir(None, temporary) == temporary,
{
}

/// A log of the database process has a name that begins with `hyperd`, the suffix `log` in
/// any case, and a time at which it was written.
pub proof fn law_logs_of_the_process(c: LogCandidate)
    ensures
        is_hyperd_log(c) <==> text::has_head(c.name@, "hyperd"@) && c.extension is Some
            && text::lower(c.extension->0@) == "log"@ && c.modified is Some,
{
    reveal_strlit("log");
    assert(text::lower("log"@) =~= "log"@);
}

/// The newest log is one of the logs of the process, none of which was written later, and of
/// those written at the same time the first.
pub proof fn law_newest_log(files: Seq<LogCandidate>, i: int, j: int)
    requires
        is_newest_log(files, i),
        0 <= j < files.len(),
        is_hyperd_log(files[j]),
    ensures
        0 <= i < files.len(),
        is_hyperd_log(files[i]),
        files[j].modified->0 <= files[i].modified->0,
        files[j].modified == files[i].modified ==> i <= j,
{
}

/// The primary database of a session has the name of its own file.
pub proof fn law_primary_of_a_session(e: Engine)
    ensures
        e.ephemeral_stem matches Some(stem) ==> e.spec_primary() == stem@,
        e.ephemeral_stem is None ==> e.spec_primary() == "scratch"@,
{
}

} // verus!
