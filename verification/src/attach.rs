//! Databases that are attached beside the primary one.
//!
//! The primary database answers to the reserved alias `local`; others are attached
//! under aliases of the user's choice. The registry remembers every attachment, in
//! order, so that all can be made again after the connection was lost.

use vstd::prelude::*;

use crate::calendar;
use crate::error::{ErrorCode, McpError};
use crate::json::Json;
use crate::paths;
use crate::text;

verus! {

/// The alias of the primary database, under which nothing can be attached.
pub const LOCAL_ALIAS: &'static str = "local";

/// The longest alias, in bytes.
pub const MAX_ALIAS_BYTES: usize = 63;

/// Whether `c` may stand at the beginning of an alias.
pub open spec fn is_alias_start(c: char) -> bool {
    text::is_letter(c) || c == '_'
}

/// Whether `c` may stand in an alias.
pub open spec fn is_alias_char(c: char) -> bool {
    text::is_letter(c) || text::is_digit(c) || c == '_'
}

/// The first position from `from` on that holds no character of an alias.
pub open spec fn first_bad(alias: Seq<char>, from: nat) -> Option<int>
    decreases alias.len() - from,
{
    if from >= alias.len() {
        None
    } else if !is_alias_char(alias[from as int]) {
        Some(from as int)
    } else {
        first_bad(alias, from + 1)
    }
}

/// What is wrong with `alias`, in words; nothing where it is an alias.
pub open spec fn alias_problem(alias: Seq<char>) -> Option<Seq<char>> {
    if text::same_ignoring_case(alias, LOCAL_ALIAS@) {
        Some(
            "'"@ + LOCAL_ALIAS@
                + "' is reserved for the primary workspace and cannot be used as an attach alias."@,
        )
    } else if alias.len() == 0 || text::byte_len(alias) > MAX_ALIAS_BYTES {
        Some("Alias must be 1..=63 characters"@)
    } else if !is_alias_start(alias[0]) {
        Some("Alias '"@ + alias + "' must start with a letter or underscore"@)
    } else {
        match first_bad(alias, 1) {
            Some(i) => Some(
                "Alias '"@ + alias + "' contains invalid character '"@ + seq![alias[i]]
                    + "'. Allowed: [A-Za-z_][A-Za-z0-9_]{0,62}"@,
            ),
            None => None,
        }
    }
}

/// Whether `alias` is one to sixty-three letters, digits and underscores, does not
/// begin with a digit, and is not the reserved one.
pub open spec fn is_alias(alias: Seq<char>) -> bool {
    &&& 1 <= alias.len() <= 63
    &&& is_alias_start(alias[0])
    &&& forall|i: int| 0 <= i < alias.len() ==> is_alias_char(#[trigger] alias[i])
    &&& text::lower(alias) != "local"@
}

fn invalid(message: &str) -> (r: McpError)
    ensures
        r.says(ErrorCode::InvalidArgument, message@),
{
    McpError::new(ErrorCode::InvalidArgument, message)
}

fn alias_start(c: char) -> (r: bool)
    ensures
        r == is_alias_start(c),
{
    ('A' <= c && c <= 'Z') || ('a' <= c && c <= 'z') || c == '_'
}

fn alias_char(c: char) -> (r: bool)
    ensures
        r == is_alias_char(c),
{
    alias_start(c) || ('0' <= c && c <= '9')
}

/// Whether `alias` may be attached under.
pub fn validate_alias(alias: &str) -> (r: Result<(), McpError>)
    ensures
        match r {
            Ok(_) => alias_problem(alias@) is None,
            Err(e) => alias_problem(alias@) is Some && e.says(
                ErrorCode::InvalidArgument,
                alias_problem(alias@)->0,
            ),
        },
{
    if text::same_text_ignoring_case(alias, LOCAL_ALIAS) {
        let message = text::cat3(
            "'",
            LOCAL_ALIAS,
            "' is reserved for the primary workspace and cannot be used as an attach alias.",
        );
        return Err(invalid(message.as_str()));
    }
    if alias.is_empty() || text::byte_count(alias) > MAX_ALIAS_BYTES {
        return Err(invalid("Alias must be 1..=63 characters"));
    }
    let chars = text::chars_of(alias);
    if !alias_start(chars[0]) {
        let message = text::cat3("Alias '", alias, "' must start with a letter or underscore");
        return Err(invalid(message.as_str()));
    }
    let mut i: usize = 1;
    while i < chars.len()
        invariant
            chars@ == alias@,
            1 <= i <= chars@.len(),
            first_bad(alias@, 1) == first_bad(alias@, i as nat),
            alias_problem(alias@) == (match first_bad(alias@, 1) {
                Some(i) => Some(
                    "Alias '"@ + alias@ + "' contains invalid character '"@ + seq![alias@[i]]
                        + "'. Allowed: [A-Za-z_][A-Za-z0-9_]{0,62}"@,
                ),
                None => None,
            }),
        decreases chars@.len() - i,
    {
        if !alias_char(chars[i]) {
            let bad = text::cut(chars.as_slice(), i, i + 1);
            assert(bad@ =~= seq![alias@[i as int]]);
            let message = text::cat5(
                "Alias '",
                alias,
                "' contains invalid character '",
                bad.as_str(),
                "'. Allowed: [A-Za-z_][A-Za-z0-9_]{0,62}",
            );
            return Err(invalid(message.as_str()));
        }
        i = i + 1;
    }
    Ok(())
}

proof fn lemma_first_bad(alias: Seq<char>, from: nat)
    ensures
        match first_bad(alias, from) {
            Some(i) => from <= i < alias.len() && !is_alias_char(alias[i]),
            None => forall|i: int|
                from <= i < alias.len() ==> is_alias_char(#[trigger] alias[i]),
        },
    decreases alias.len() - from,
{
    if from < alias.len() && is_alias_char(alias[from as int]) {
        lemma_first_bad(alias, from + 1);
    }
}

proof fn lemma_ascii_byte_len(s: Seq<char>)
    requires
        forall|i: int| 0 <= i < s.len() ==> is_alias_char(#[trigger] s[i]),
    ensures
        text::byte_len(s) == s.len(),
    decreases s.len(),
{
    if s.len() > 0 {
        let t = s.drop_last();
        assert forall|i: int| 0 <= i < t.len() implies is_alias_char(#[trigger] t[i]) by {
            assert(t[i] == s[i]);
        }
        lemma_ascii_byte_len(t);
        assert(is_alias_char(s[s.len() - 1]));
    }
}

/// What is accepted is exactly `[A-Za-z_][A-Za-z0-9_]{0,62}` but for the reserved
/// alias in any case.
pub proof fn law_accepted_aliases(alias: Seq<char>)
    ensures
        alias_problem(alias) is None <==> is_alias(alias),
{
    reveal_strlit("local");
    assert(text::lower(LOCAL_ALIAS@) =~= "local"@);
    lemma_first_bad(alias, 1);
    if alias_problem(alias) is None {
        assert forall|i: int| 0 <= i < alias.len() implies is_alias_char(#[trigger] alias[i]) by {}
        lemma_ascii_byte_len(alias);
    }
    if is_alias(alias) {
        lemma_ascii_byte_len(alias);
        if let Some(i) = first_bad(alias, 1) {
            assert(is_alias_char(alias[i]));
        }
    }
}

/// Lowering an alias keeps it one.
pub proof fn law_lowered_alias_is_alias(alias: Seq<char>)
    requires
        is_alias(alias),
    ensures
        is_alias(text::lower(alias)),
{
    let low = text::lower(alias);
    assert forall|i: int| 0 <= i < low.len() implies is_alias_char(#[trigger] low[i]) by {
        assert(is_alias_char(alias[i]));
    }
    assert(is_alias_start(low[0]));
    text::lemma_lower_idempotent(alias);
}

/// What to do when the file to attach is not there.
#[derive(Debug, Clone, Copy, PartialEq, Eq, Structural)]
pub enum OnMissing {
    /// Fail.
    Error,
    /// Make an empty database first. It has to be writable, or it would stay empty.
    Create,
}

impl Default for OnMissing {
    fn default() -> (r: OnMissing)
        ensures
            r == OnMissing::Error,
    {
        OnMissing::Error
    }
}

impl OnMissing {
    /// What `value` asks for; nothing and the empty text ask for the default.
    pub fn parse(value: Option<&str>) -> (r: Result<OnMissing, McpError>)
        ensures
            match value {
                None => r == Ok::<OnMissing, McpError>(OnMissing::Error),
                Some(v) => {
                    let t = text::trimmed(v@);
                    if t.len() == 0 || t == "error"@ {
                        r == Ok::<OnMissing, McpError>(OnMissing::Error)
                    } else if t == "create"@ {
                        r == Ok::<OnMissing, McpError>(OnMissing::Create)
                    } else {
                        r matches Err(e) && e.says(
                            ErrorCode::InvalidArgument,
                            "on_missing must be 'error' or 'create', got '"@ + t + "'"@,
                        )
                    }
                },
            },
    {
        let v = match value {
            None => {
                return Ok(OnMissing::Error);
            },
            Some(v) => v,
        };
        let trimmed = text::trim(v);
        let t = trimmed.as_str();
        if t.is_empty() || text::same_text(t, "error") {
            Ok(OnMissing::Error)
        } else if text::same_text(t, "create") {
            Ok(OnMissing::Create)
        } else {
            let message = text::cat3("on_missing must be 'error' or 'create', got '", t, "'");
            Err(invalid(message.as_str()))
        }
    }
}

/// Where an attached database lives.
#[derive(Debug)]
pub enum AttachSource {
    /// In a file on this machine.
    LocalFile {
        /// Its absolute path, without detours.
        path: String,
    },
}

impl AttachSource {
    /// How this kind of place is called.
    pub fn kind_str(&self) -> (r: &'static str)
        ensures
            r@ == "local_file"@,
    {
        match self {
            AttachSource::LocalFile { .. } => "local_file",
        }
    }

    /// The path of the file.
    pub open spec fn spec_path(self) -> Seq<char> {
        match self {
            AttachSource::LocalFile { path } => path@,
        }
    }

    /// The same place once more.
    pub fn copied(&self) -> (r: AttachSource)
        ensures
            r == *self,
    {
        match self {
            AttachSource::LocalFile { path } => AttachSource::LocalFile { path: path.clone() },
        }
    }
}

/// An attached database.
#[derive(Debug)]
pub struct AttachedDb {
    /// Its alias, in lower case.
    pub alias: String,
    /// Where it lives.
    pub source: AttachSource,
    /// Whether it may be changed.
    pub writable: bool,
    /// When it was attached: whole seconds since 1970, and nanoseconds.
    pub attached_at: (i64, u32),
}

impl AttachedDb {
    /// The same entry once more.
    pub fn copied(&self) -> (r: AttachedDb)
        ensures
            r == *self,
    {
        AttachedDb {
            alias: self.alias.clone(),
            source: self.source.copied(),
            writable: self.writable,
            attached_at: self.attached_at,
        }
    }
}

/// What to attach.
#[derive(Debug)]
pub struct AttachRequest {
    /// The alias.
    pub alias: String,
    /// Where the database lives.
    pub source: AttachSource,
    /// Whether it may be changed.
    pub writable: bool,
    /// What to do when it is not there.
    pub on_missing: OnMissing,
}

/// `s` as a string literal of SQL.
pub open spec fn string_literal(s: Seq<char>) -> Seq<char> {
    "'"@ + text::doubled(s, '\'') + "'"@
}

/// `s` as a name in SQL.
pub open spec fn quoted_name(s: Seq<char>) -> Seq<char> {
    "\""@ + text::doubled(s, '"') + "\""@
}

/// `s` as a string literal of SQL.
pub fn sql_string_literal(s: &str) -> (r: String)
    ensures
        r@ == string_literal(s@),
        r@ == "'"@ + text::doubled(s@, '\'') + "'"@,
{
    let d = text::double(s, '\'');
    text::cat3("'", d.as_str(), "'")
}

/// `s` as a name in SQL.
pub fn sql_quoted_name(s: &str) -> (r: String)
    ensures
        r@ == quoted_name(s@),
        r@ == "\""@ + text::doubled(s@, '"') + "\""@,
{
    let d = text::double(s, '"');
    text::cat3("\"", d.as_str(), "\"")
}

/// Whatever a name or a text holds, SQL reads it back as it was and goes on right
/// behind it: nothing in it can end it early.
pub proof fn law_quoted_reads_back(s: Seq<char>, rest: Seq<char>)
    ensures
        (rest.len() > 0 ==> rest[0] != '"') ==> ({
            let x = quoted_name(s) + rest;
            x[0] == '"' && text::read_quoted(x.skip(1), '"') == Some((s, rest))
        }),
        (rest.len() > 0 ==> rest[0] != '\'') ==> ({
            let x = string_literal(s) + rest;
            x[0] == '\'' && text::read_quoted(x.skip(1), '\'') == Some((s, rest))
        }),
{
    reveal_strlit("\"");
    reveal_strlit("'");
    let x = quoted_name(s) + rest;
    let y = string_literal(s) + rest;
    assert(x.skip(1) =~= text::doubled(s, '"') + (seq!['"'] + rest));
    assert(y.skip(1) =~= text::doubled(s, '\'') + (seq!['\''] + rest));
    if rest.len() > 0 ==> rest[0] != '"' {
        text::lemma_doubled_reads_back(s, '"', rest);
    }
    if rest.len() > 0 ==> rest[0] != '\'' {
        text::lemma_doubled_reads_back(s, '\'', rest);
    }
}

/// The statement that attaches; `sql_path` is the path as it is written in SQL.
pub open spec fn attach_statement(sql_path: Seq<char>, alias: Seq<char>) -> Seq<char> {
    "ATTACH DATABASE "@ + sql_path + " AS "@ + quoted_name(alias)
}

/// The statement that detaches.
pub open spec fn detach_statement(alias: Seq<char>) -> Seq<char> {
    "DETACH DATABASE "@ + quoted_name(alias)
}

/// The statement that makes an empty database.
pub open spec fn create_statement(sql_path: Seq<char>) -> Seq<char> {
    "CREATE DATABASE IF NOT EXISTS "@ + sql_path
}

/// The statement that makes names without a database mean the primary one.
pub open spec fn pin_statement(primary: Seq<char>) -> Seq<char> {
    "SET schema_search_path = "@ + string_literal(primary)
}

/// The statement that undoes the pin once nothing is attached by the user: where
/// the persistent database is still attached the pin has to stay.
pub open spec fn unpin_statement(has_persistent: bool, primary: Seq<char>) -> Seq<char> {
    if has_persistent {
        pin_statement(primary)
    } else {
        "RESET schema_search_path"@
    }
}

/// The statement that attaches.
pub fn attach_sql(sql_path: &str, alias: &str) -> (r: String)
    ensures
        r@ == attach_statement(sql_path@, alias@),
        r@ == "ATTACH DATABASE "@ + sql_path@ + " AS "@ + quoted_name(alias@),
{
    let name = sql_quoted_name(alias);
    text::cat4("ATTACH DATABASE ", sql_path, " AS ", name.as_str())
}

/// The statement that detaches.
pub fn detach_sql(alias: &str) -> (r: String)
    ensures
        r@ == detach_statement(alias@),
        r@ == "DETACH DATABASE "@ + quoted_name(alias@),
{
    let name = sql_quoted_name(alias);
    text::cat2("DETACH DATABASE ", name.as_str())
}

/// The statement that makes names without a database mean the primary one.
pub fn set_primary_search_path(primary: &str) -> (r: String)
    ensures
        r@ == pin_statement(primary@),
        r@ == "SET schema_search_path = "@ + string_literal(primary@),
{
    let literal = sql_string_literal(primary);
    text::cat2("SET schema_search_path = ", literal.as_str())
}

/// The statement that undoes the pin once nothing is attached by the user.
pub fn reset_search_path(has_persistent: bool, primary: &str) -> (r: String)
    ensures
        r@ == unpin_statement(has_persistent, primary@),
        has_persistent ==> r@ == "SET schema_search_path = "@ + string_literal(primary@),
        !has_persistent ==> r@ == "RESET schema_search_path"@,
{
    if has_persistent {
        set_primary_search_path(primary)
    } else {
        "RESET schema_search_path".to_owned()
    }
}

/// Where `alias` stands first among the entries.
pub open spec fn find(entries: Seq<AttachedDb>, alias: Seq<char>) -> Option<int>
    decreases entries.len(),
{
    if entries.len() == 0 {
        None
    } else {
        match find(entries.drop_last(), alias) {
            Some(i) => Some(i),
            None => if entries.last().alias@ == alias {
                Some(entries.len() - 1)
            } else {
                None
            },
        }
    }
}

/// What the entries of a registry have in common: their aliases are aliases in
/// lower case, and no two are the same.
pub open spec fn entries_wf(entries: Seq<AttachedDb>) -> bool {
    &&& forall|i: int|
        0 <= i < entries.len() ==> is_alias(#[trigger] entries[i].alias@) && text::lower(
            entries[i].alias@,
        ) == entries[i].alias@
    &&& forall|i: int, j: int|
        0 <= i < j < entries.len() ==> #[trigger] entries[i].alias@ != #[trigger] entries[j].alias@
}

/// The found entry has the alias, and no entry before it has.
pub proof fn lemma_find(entries: Seq<AttachedDb>, alias: Seq<char>)
    ensures
        match find(entries, alias) {
            Some(i) => 0 <= i < entries.len() && entries[i].alias@ == alias && forall|j: int|
                0 <= j < i ==> (#[trigger] entries[j]).alias@ != alias,
            None => forall|j: int|
                0 <= j < entries.len() ==> (#[trigger] entries[j]).alias@ != alias,
        },
    decreases entries.len(),
{
    if entries.len() > 0 {
        let t = entries.drop_last();
        lemma_find(t, alias);
        assert forall|j: int| 0 <= j < t.len() implies t[j] == entries[j] by {}
    }
}

/// Why an attachment is refused before anything is done.
pub open spec fn refusal(entries: Seq<AttachedDb>, req: AttachRequest, exists: bool) -> Option<
    (ErrorCode, Seq<char>),
> {
    let alias = text::lower(req.alias@);
    match alias_problem(req.alias@) {
        Some(problem) => Some((ErrorCode::InvalidArgument, problem)),
        None => if find(entries, alias) is Some {
            Some(
                (
                    ErrorCode::InvalidArgument,
                    "Alias '"@ + alias
                        + "' is already in use. Detach it first or pick a different alias."@,
                ),
            )
        } else if req.on_missing == OnMissing::Create && !req.writable {
            Some((ErrorCode::InvalidArgument, CREATE_NEEDS_WRITABLE@))
        } else if !exists && req.on_missing == OnMissing::Error {
            Some(
                (
                    ErrorCode::FileNotFound,
                    "Attach path does not exist: "@ + req.source.spec_path()
                        + MISSING_FILE_ADVICE@,
                ),
            )
        } else {
            None
        },
    }
}

/// Why an empty database has to be writable.
pub const CREATE_NEEDS_WRITABLE: &'static str = "on_missing='create' requires writable:true — an empty .hyper file that cannot be written to cannot be populated.";

/// What to do about a file that is not there.
pub const MISSING_FILE_ADVICE: &'static str = ". Pass on_missing='create' (with writable:true) to create an empty .hyper file at that path.";

/// What is known of the place to attach, and of the connection.
#[derive(Debug)]
pub struct AttachFacts {
    /// Whether the file is there.
    pub exists: bool,
    /// The path of the file as it is written in SQL.
    pub sql_path: String,
    /// The name of the primary database.
    pub primary: String,
    /// Whether the persistent database is attached.
    pub has_persistent: bool,
}

/// How far an attachment is.
#[derive(Debug)]
pub enum AttachPhase {
    /// The empty database is to be made.
    Create,
    /// The database is to be attached.
    Attach,
    /// Names without a database are to mean the primary one.
    Pin,
    /// The new database is to get its catalog.
    Seed,
    /// Something failed once the database was attached: it is to be detached.
    UndoAttach {
        /// What failed.
        error: McpError,
        /// Whether the pin is to be undone too.
        unpin: bool,
    },
    /// The pin is to be undone.
    UndoPin {
        /// What failed.
        error: McpError,
    },
    /// The database is attached.
    Attached,
    /// The database is not attached.
    Failed {
        /// What failed.
        error: McpError,
    },
}

/// An attachment that is being made.
#[derive(Debug)]
pub struct Attachment {
    /// What to attach, with the alias in lower case.
    pub request: AttachRequest,
    /// What is known of the place and of the connection.
    pub facts: AttachFacts,
    /// Whether it is the first attachment.
    pub first: bool,
    /// How far it is.
    pub phase: AttachPhase,
}

/// What is to be done for an attachment.
#[derive(Debug)]
pub enum AttachAction {
    /// Execute a statement.
    Execute(String),
    /// Make the catalog in the database of this alias.
    SeedCatalog(String),
    /// Nothing more.
    Nothing,
}

/// What is to be done for an attachment, as plain values.
pub enum AttachDeed {
    /// Execute a statement.
    Execute(Seq<char>),
    /// Make the catalog in the database of this alias.
    SeedCatalog(Seq<char>),
    /// Nothing more.
    Nothing,
}

impl View for AttachAction {
    type V = AttachDeed;

    open spec fn view(&self) -> AttachDeed {
        match *self {
            AttachAction::Execute(sql) => AttachDeed::Execute(sql@),
            AttachAction::SeedCatalog(alias) => AttachDeed::SeedCatalog(alias@),
            AttachAction::Nothing => AttachDeed::Nothing,
        }
    }
}

impl Attachment {
    /// Whether an empty database is made for this attachment.
    pub open spec fn creates(self) -> bool {
        !self.facts.exists
    }

    /// What is to be done in this phase.
    pub open spec fn deed(self) -> AttachDeed {
        let alias = self.request.alias@;
        match self.phase {
            AttachPhase::Create => AttachDeed::Execute(create_statement(self.facts.sql_path@)),
            AttachPhase::Attach => AttachDeed::Execute(
                attach_statement(self.facts.sql_path@, alias),
            ),
            AttachPhase::Pin => AttachDeed::Execute(pin_statement(self.facts.primary@)),
            AttachPhase::Seed => AttachDeed::SeedCatalog(alias),
            AttachPhase::UndoAttach { .. } => AttachDeed::Execute(detach_statement(alias)),
            AttachPhase::UndoPin { .. } => AttachDeed::Execute(
                unpin_statement(self.facts.has_persistent, self.facts.primary@),
            ),
            AttachPhase::Attached => AttachDeed::Nothing,
            AttachPhase::Failed { .. } => AttachDeed::Nothing,
        }
    }

    /// The phase that follows once the deed of this phase was done, or failed. It
    /// does not matter whether undoing fails.
    pub open spec fn phase_after(self, outcome: Result<(), McpError>) -> AttachPhase {
        match self.phase {
            AttachPhase::Create => match outcome {
                Ok(_) => AttachPhase::Attach,
                Err(error) => AttachPhase::Failed { error },
            },
            AttachPhase::Attach => match outcome {
                Ok(_) => AttachPhase::Pin,
                Err(error) => AttachPhase::Failed { error },
            },
            AttachPhase::Pin => match outcome {
                Ok(_) => if self.creates() {
                    AttachPhase::Seed
                } else {
                    AttachPhase::Attached
                },
                Err(error) => AttachPhase::UndoAttach { error, unpin: false },
            },
            AttachPhase::Seed => match outcome {
                Ok(_) => AttachPhase::Attached,
                Err(error) => AttachPhase::UndoAttach { error, unpin: self.first },
            },
            AttachPhase::UndoAttach { error, unpin } => if unpin {
                AttachPhase::UndoPin { error }
            } else {
                AttachPhase::Failed { error }
            },
            AttachPhase::UndoPin { error } => AttachPhase::Failed { error },
            AttachPhase::Attached => AttachPhase::Attached,
            AttachPhase::Failed { error } => AttachPhase::Failed { error },
        }
    }

    /// What holds of every attachment: its alias is one, in lower case, and only a
    /// database that was not there is made and given a catalog.
    pub open spec fn wf(self) -> bool {
        &&& is_alias(self.request.alias@)
        &&& text::lower(self.request.alias@) == self.request.alias@
        &&& (self.phase is Create || self.phase is Seed ==> self.creates())
    }

    /// What is to be done now.
    pub fn action(&self) -> (r: AttachAction)
        ensures
            r@ == self.deed(),
    {
        match &self.phase {
            AttachPhase::Create => AttachAction::Execute(
                text::cat2("CREATE DATABASE IF NOT EXISTS ", self.facts.sql_path.as_str()),
            ),
            AttachPhase::Attach => AttachAction::Execute(
                attach_sql(self.facts.sql_path.as_str(), self.request.alias.as_str()),
            ),
            AttachPhase::Pin => AttachAction::Execute(
                set_primary_search_path(self.facts.primary.as_str()),
            ),
            AttachPhase::Seed => AttachAction::SeedCatalog(self.request.alias.clone()),
            AttachPhase::UndoAttach { .. } => AttachAction::Execute(
                detach_sql(self.request.alias.as_str()),
            ),
            AttachPhase::UndoPin { .. } => AttachAction::Execute(
                reset_search_path(self.facts.has_persistent, self.facts.primary.as_str()),
            ),
            AttachPhase::Attached => AttachAction::Nothing,
            AttachPhase::Failed { .. } => AttachAction::Nothing,
        }
    }

    /// Takes down what came of the deed.
    pub fn observe(self, outcome: Result<(), McpError>) -> (r: Attachment)
        ensures
            r == (Attachment { phase: self.phase_after(outcome), ..self }),
            self.wf() ==> r.wf(),
    {
        let phase = match self.phase {
            AttachPhase::Create => match outcome {
                Ok(_) => AttachPhase::Attach,
                Err(error) => AttachPhase::Failed { error },
            },
            AttachPhase::Attach => match outcome {
                Ok(_) => AttachPhase::Pin,
                Err(error) => AttachPhase::Failed { error },
            },
            AttachPhase::Pin => match outcome {
                Ok(_) => {
                    if self.facts.exists {
                        AttachPhase::Attached
                    } else {
                        AttachPhase::Seed
                    }
                },
                Err(error) => AttachPhase::UndoAttach { error, unpin: false },
            },
            AttachPhase::Seed => match outcome {
                Ok(_) => AttachPhase::Attached,
                Err(error) => AttachPhase::UndoAttach { error, unpin: self.first },
            },
            AttachPhase::UndoAttach { error, unpin } => {
                if unpin {
                    AttachPhase::UndoPin { error }
                } else {
                    AttachPhase::Failed { error }
                }
            },
            AttachPhase::UndoPin { error } => AttachPhase::Failed { error },
            AttachPhase::Attached => AttachPhase::Attached,
            AttachPhase::Failed { error } => AttachPhase::Failed { error },
        };
        Attachment { request: self.request, facts: self.facts, first: self.first, phase }
    }
}

/// The attachments, in the order in which they were made.
#[derive(Debug)]
pub struct AttachRegistry {
    entries: Vec<AttachedDb>,
}

impl View for AttachRegistry {
    type V = Seq<AttachedDb>;

    closed spec fn view(&self) -> Seq<AttachedDb> {
        self.entries@
    }
}

impl Default for AttachRegistry {
    fn default() -> (r: AttachRegistry)
        ensures
            r@ == Seq::<AttachedDb>::empty(),
            r.wf(),
    {
        AttachRegistry::new()
    }
}

impl AttachRegistry {
    /// What holds of every registry.
    pub open spec fn wf(self) -> bool {
        entries_wf(self@)
    }

    /// A registry without attachments.
    pub fn new() -> (r: AttachRegistry)
        ensures
            r@ == Seq::<AttachedDb>::empty(),
            r.wf(),
    {
        AttachRegistry { entries: Vec::new() }
    }

    fn position(&self, alias: &str) -> (r: Option<usize>)
        ensures
            match r {
                Some(i) => find(self@, alias@) == Some(i as int) && i < self@.len(),
                None => find(self@, alias@) is None,
            },
    {
        let mut i: usize = 0;
        while i < self.entries.len()
            invariant
                i <= self.entries@.len(),
                find(self.entries@.take(i as int), alias@) is None,
            decreases self.entries@.len() - i,
        {
            proof {
                assert(self.entries@.take(i + 1).drop_last() =~= self.entries@.take(i as int));
            }
            if text::same_text(self.entries[i].alias.as_str(), alias) {
                proof {
                    lemma_find_grows(self.entries@, (i + 1) as nat, alias@);
                }
                return Some(i);
            }
            i = i + 1;
        }
        assert(self.entries@.take(self.entries@.len() as int) =~= self.entries@);
        None
    }

    /// The attachments, in the order in which they were made.
    pub fn list(&self) -> (r: Vec<AttachedDb>)
        ensures
            r@ == self@,
    {
        let mut out: Vec<AttachedDb> = Vec::new();
        let mut i: usize = 0;
        while i < self.entries.len()
            invariant
                i <= self.entries@.len(),
                out@ == self.entries@.take(i as int),
            decreases self.entries@.len() - i,
        {
            out.push(self.entries[i].copied());
            proof {
                assert(self.entries@.take(i as int).push(self.entries@[i as int])
                    =~= self.entries@.take(i + 1));
            }
            i = i + 1;
        }
        assert(self.entries@.take(self.entries@.len() as int) =~= self.entries@);
        out
    }

    /// The attachment of this alias, in whatever case it is written.
    pub fn get(&self, alias: &str) -> (r: Option<AttachedDb>)
        ensures
            r == (match find(self@, text::lower(alias@)) {
                Some(i) => Some(self@[i]),
                None => None,
            }),
    {
        let lowered = text::to_lower(alias);
        match self.position(lowered.as_str()) {
            Some(i) => Some(self.entries[i].copied()),
            None => None,
        }
    }

    /// Begins an attachment: nothing is attached yet.
    pub fn attach(&self, request: AttachRequest, facts: AttachFacts) -> (r: Result<
        Attachment,
        McpError,
    >)
        requires
            self.wf(),
        ensures
            match refusal(self@, request, facts.exists) {
                Some((code, message)) => r matches Err(e) && e.says(code, message),
                None => {
                    &&& r matches Ok(a)
                    &&& a.wf()
                    &&& a.request.alias@ == text::lower(request.alias@)
                    &&& a.request.source == request.source
                    &&& a.request.writable == request.writable
                    &&& a.request.on_missing == request.on_missing
                    &&& a.facts == facts
                    &&& a.first == (self@.len() == 0)
                    &&& a.phase == (if facts.exists {
                        AttachPhase::Attach
                    } else {
                        AttachPhase::Create
                    })
                    &&& find(self@, a.request.alias@) is None
                },
            },
    {
        if let Err(e) = validate_alias(request.alias.as_str()) {
            return Err(e);
        }
        proof {
            law_accepted_aliases(request.alias@);
            law_lowered_alias_is_alias(request.alias@);
            text::lemma_lower_idempotent(request.alias@);
        }
        let alias = text::to_lower(request.alias.as_str());
        if self.position(alias.as_str()).is_some() {
            let message = text::cat3(
                "Alias '",
                alias.as_str(),
                "' is already in use. Detach it first or pick a different alias.",
            );
            return Err(invalid(message.as_str()));
        }
        if request.on_missing == OnMissing::Create && !request.writable {
            return Err(invalid(CREATE_NEEDS_WRITABLE));
        }
        if !facts.exists && request.on_missing == OnMissing::Error {
            let AttachSource::LocalFile { path } = &request.source;
            let message = text::cat3(
                "Attach path does not exist: ",
                path.as_str(),
                MISSING_FILE_ADVICE,
            );
            return Err(McpError::new(ErrorCode::FileNotFound, message.as_str()));
        }
        let phase = if facts.exists {
            AttachPhase::Attach
        } else {
            AttachPhase::Create
        };
        Ok(
            Attachment {
                request: AttachRequest {
                    alias,
                    source: request.source,
                    writable: request.writable,
                    on_missing: request.on_missing,
                },
                facts,
                first: self.entries.len() == 0,
                phase,
            },
        )
    }

    /// Ends an attachment: it is remembered where it succeeded.
    pub fn finish_attach(&mut self, attachment: Attachment, attached_at: (i64, u32)) -> (r: Result<
        AttachedDb,
        McpError,
    >)
        requires
            old(self).wf(),
            attachment.wf(),
            attachment.phase is Attached || attachment.phase is Failed,
            find(old(self)@, attachment.request.alias@) is None,
        ensures
            final(self).wf(),
            match attachment.phase {
                AttachPhase::Failed { error } => r == Err::<AttachedDb, McpError>(error)
                    && final(self)@ == old(self)@,
                _ => {
                    &&& r matches Ok(entry)
                    &&& entry.alias == attachment.request.alias
                    &&& entry.source == attachment.request.source
                    &&& entry.writable == attachment.request.writable
                    &&& entry.attached_at == attached_at
                    &&& final(self)@ == old(self)@.push(entry)
                },
            },
    {
        if let AttachPhase::Failed { error } = attachment.phase {
            return Err(error);
        }
        proof {
            lemma_find(self@, attachment.request.alias@);
        }
        let entry = AttachedDb {
            alias: attachment.request.alias,
            source: attachment.request.source,
            writable: attachment.request.writable,
            attached_at,
        };
        self.entries.push(entry.copied());
        Ok(entry)
    }

    /// The statement that detaches this alias; none where nothing is attached under
    /// it.
    pub fn detach(&self, alias: &str) -> (r: Option<String>)
        ensures
            text::opt_text(r) == (match find(self@, text::lower(alias@)) {
                Some(_) => Some(detach_statement(text::lower(alias@))),
                None => None,
            }),
    {
        let lowered = text::to_lower(alias);
        match self.position(lowered.as_str()) {
            Some(_) => Some(detach_sql(lowered.as_str())),
            None => None,
        }
    }

    /// Forgets the attachment of this alias, once it was detached. Whether that was
    /// the last, so that the pin is to be undone.
    pub fn finish_detach(&mut self, alias: &str) -> (r: bool)
        requires
            old(self).wf(),
        ensures
            final(self).wf(),
            match find(old(self)@, text::lower(alias@)) {
                Some(i) => final(self)@ == old(self)@.remove(i) && r == (old(self)@.len() == 1),
                None => final(self)@ == old(self)@ && !r,
            },
    {
        let lowered = text::to_lower(alias);
        match self.position(lowered.as_str()) {
            Some(i) => {
                self.entries.remove(i);
                self.entries.len() == 0
            },
            None => false,
        }
    }

    /// Forgets the attachments that could not be made again, and keeps the others in
    /// order: `survived` says which could. Whether any is left, so that names
    /// without a database are to be pinned again.
    pub fn replay_all(&mut self, survived: &Vec<bool>) -> (r: bool)
        requires
            old(self).wf(),
            survived@.len() == old(self)@.len(),
        ensures
            final(self).wf(),
            final(self)@ == survivors(old(self)@, survived@),
            r == (final(self)@.len() > 0),
    {
        let ghost before = self.entries@;
        let mut kept: Vec<AttachedDb> = Vec::new();
        let mut i: usize = 0;
        assert(before.take(0) =~= Seq::<AttachedDb>::empty());
        while i < self.entries.len()
            invariant
                self.entries@ == before,
                i <= before.len(),
                survived@.len() == before.len(),
                kept@ == survivors(before.take(i as int), survived@.take(i as int)),
            decreases before.len() - i,
        {
            proof {
                assert(before.take(i + 1).drop_last() =~= before.take(i as int));
                assert(survived@.take(i + 1).drop_last() =~= survived@.take(i as int));
            }
            if survived[i] {
                kept.push(self.entries[i].copied());
            }
            i = i + 1;
        }
        assert(before.take(before.len() as int) =~= before);
        assert(survived@.take(before.len() as int) =~= survived@);
        proof {
            lemma_survivors(before, survived@);
        }
        self.entries = kept;
        self.entries.len() > 0
    }
}

proof fn lemma_find_grows(entries: Seq<AttachedDb>, n: nat, alias: Seq<char>)
    requires
        n <= entries.len(),
        find(entries.take(n as int), alias) is Some,
    ensures
        find(entries, alias) == find(entries.take(n as int), alias),
    decreases entries.len() - n,
{
    if n < entries.len() {
        assert(entries.take(n + 1int).drop_last() =~= entries.take(n as int));
        lemma_find_grows(entries, n + 1, alias);
    } else {
        assert(entries.take(n as int) =~= entries);
    }
}

/// The entries whose mark is set, in order.
pub open spec fn survivors(entries: Seq<AttachedDb>, marks: Seq<bool>) -> Seq<AttachedDb>
    decreases entries.len(),
{
    if entries.len() == 0 || marks.len() == 0 {
        Seq::empty()
    } else {
        let rest = survivors(entries.drop_last(), marks.drop_last());
        if marks.last() {
            rest.push(entries.last())
        } else {
            rest
        }
    }
}

proof fn lemma_survivors(entries: Seq<AttachedDb>, marks: Seq<bool>)
    requires
        entries_wf(entries),
        marks.len() == entries.len(),
    ensures
        entries_wf(survivors(entries, marks)),
        forall|k: int|
            0 <= k < survivors(entries, marks).len() ==> entries.contains(
                #[trigger] survivors(entries, marks)[k],
            ),
    decreases entries.len(),
{
    if entries.len() > 0 {
        let e = entries.drop_last();
        let m = marks.drop_last();
        assert forall|i: int| 0 <= i < e.len() implies e[i] == entries[i] by {}
        lemma_survivors(e, m);
        let rest = survivors(e, m);
        let all = survivors(entries, marks);
        assert forall|k: int| 0 <= k < rest.len() implies entries.contains(#[trigger] rest[k]) by {
            let i = choose|i: int| 0 <= i < e.len() && e[i] == rest[k];
            assert(entries[i] == rest[k]);
        }
        assert(entries.last() == entries[entries.len() - 1]);
        assert forall|k: int| 0 <= k < all.len() implies entries.contains(#[trigger] all[k]) by {
            if k < rest.len() {
                assert(all[k] == rest[k]);
            } else {
                assert(all[k] == entries[entries.len() - 1]);
            }
        }
        assert forall|i: int, j: int| 0 <= i < j < all.len() implies #[trigger] all[i].alias@
            != #[trigger] all[j].alias@ by {
            if j < rest.len() {
                assert(all[i] == rest[i] && all[j] == rest[j]);
            } else {
                assert(all[i] == rest[i]);
                let k = choose|k: int| 0 <= k < e.len() && e[k] == rest[i];
                assert(entries[k].alias@ != entries[entries.len() - 1].alias@);
            }
        }
    }
}

impl AttachSource {
    /// The place as a structured value.
    pub fn to_json(&self) -> (r: Json)
        ensures
            r.names() == seq!["kind"@, "path"@],
            r.fields()[0].1.is_text("local_file"@),
            r.fields()[1].1.is_text(self.spec_path()),
    {
        let AttachSource::LocalFile { path } = self;
        let mut fields: Vec<(String, Json)> = Vec::new();
        fields.push(("kind".to_owned(), Json::Text("local_file".to_owned())));
        fields.push(("path".to_owned(), Json::Text(path.clone())));
        let r = Json::Object(fields);
        assert(r.names() =~= seq!["kind"@, "path"@]);
        r
    }
}

impl AttachedDb {
    /// Whether `r` is this entry as a structured value, with `attached_at` as the
    /// time of its attachment.
    pub open spec fn shown_as(self, r: Json, attached_at: Seq<char>) -> bool {
        &&& r.names() == seq!["alias"@, "source"@, "kind"@, "writable"@, "attached_at"@]
        &&& r.fields()[0].1.is_text(self.alias@)
        &&& r.fields()[1].1.names() == seq!["kind"@, "path"@]
        &&& r.fields()[1].1.fields()[0].1.is_text("local_file"@)
        &&& r.fields()[1].1.fields()[1].1.is_text(self.source.spec_path())
        &&& r.fields()[2].1.is_text("local_file"@)
        &&& r.fields()[3].1 == Json::Bool(self.writable)
        &&& r.fields()[4].1.is_text(attached_at)
    }

    /// The entry as a structured value, with `attached_at` as the time of its
    /// attachment.
    pub fn to_json_at(&self, attached_at: String) -> (r: Json)
        ensures
            self.shown_as(r, attached_at@),
    {
        let mut fields: Vec<(String, Json)> = Vec::new();
        fields.push(("alias".to_owned(), Json::Text(self.alias.clone())));
        fields.push(("source".to_owned(), self.source.to_json()));
        fields.push(("kind".to_owned(), Json::Text(self.source.kind_str().to_owned())));
        fields.push(("writable".to_owned(), Json::Bool(self.writable)));
        fields.push(("attached_at".to_owned(), Json::Text(attached_at)));
        let r = Json::Object(fields);
        assert(r.names() =~= seq!["alias"@, "source"@, "kind"@, "writable"@, "attached_at"@]);
        r
    }

    /// The entry as a structured value, with the time as RFC 3339 writes it; none
    /// where that cannot be written.
    pub fn to_json(&self) -> (r: Option<Json>)
        ensures
            match calendar::rfc3339_utc(self.attached_at.0, self.attached_at.1) {
                Some(t) => r matches Some(j) && self.shown_as(j, t),
                None => r is None,
            },
    {
        match calendar::rfc3339_text(self.attached_at.0, self.attached_at.1) {
            Some(t) => Some(self.to_json_at(t)),
            None => None,
        }
    }
}

/// A path after the operating system resolved it.
#[derive(Debug)]
pub struct CanonicalPath {
    /// The path without detours.
    pub path: String,
    /// Whether it still has a step upwards in it.
    pub has_parent_step: bool,
}

/// What is known of a path that has to be there.
#[derive(Debug)]
pub struct InputPathFacts {
    /// Whether it is absolute.
    pub absolute: bool,
    /// What the operating system resolved it to, or why it could not.
    pub canonical: Result<CanonicalPath, String>,
}

/// What is known of a path that need not be there.
#[derive(Debug)]
pub struct OutputPathFacts {
    /// Whether it is absolute.
    pub absolute: bool,
    /// What it resolves to, where it is there.
    pub existing: Option<Result<CanonicalPath, String>>,
    /// Whether it has a directory.
    pub has_parent: bool,
    /// Whether it has a name in that directory.
    pub has_file_name: bool,
    /// What the directory resolves to.
    pub parent: Result<CanonicalPath, String>,
    /// The name in the resolved directory.
    pub joined: String,
}

/// Whether `r` is what the operating system resolved a path to, with whether a step upwards
/// is left in it.
pub open spec fn canonical_fits(
    r: Result<CanonicalPath, String>,
    resolved: Result<String, String>,
) -> bool {
    match resolved {
        Ok(p) => r matches Ok(c) && c.path == p && paths::upward_fits(p@, c.has_parent_step),
        Err(reason) => r matches Err(e) && e == reason,
    }
}

fn canonical_of(resolved: Result<String, String>) -> (r: Result<CanonicalPath, String>)
    ensures
        canonical_fits(r, resolved),
{
    match resolved {
        Ok(path) => {
            let has_parent_step = paths::has_parent_step(path.as_str());
            Ok(CanonicalPath { path, has_parent_step })
        },
        Err(reason) => Err(reason),
    }
}

impl InputPathFacts {
    /// What is known of a path that has to be there, where `resolved` is what the operating
    /// system resolved it to, or why it could not.
    pub fn of(path: &str, resolved: Result<String, String>) -> (r: InputPathFacts)
        ensures
            paths::absolute_fits(path@, r.absolute),
            canonical_fits(r.canonical, resolved),
    {
        InputPathFacts {
            absolute: paths::path_is_absolute(path),
            canonical: canonical_of(resolved),
        }
    }
}

/// Whether `r` is the last name of `path`, as `name` tells it, in the directory `dir`; where
/// one of them is missing, it is the path.
pub open spec fn joins(
    r: Seq<char>,
    path: Seq<char>,
    dir: Result<String, String>,
    name: Option<Seq<char>>,
) -> bool {
    match (dir, name) {
        (Ok(dir), Some(name)) => paths::join_fits(dir@, name, r),
        _ => r == path,
    }
}

impl OutputPathFacts {
    /// What is known of a path that need not be there: `existing` is what the operating
    /// system resolved it to, where it is there, and `parent` what it resolved the path's
    /// directory to.
    pub fn of(
        path: &str,
        existing: Option<Result<String, String>>,
        parent: Result<String, String>,
    ) -> (r: OutputPathFacts)
        ensures
            paths::absolute_fits(path@, r.absolute),
            match existing {
                Some(e) => r.existing matches Some(c) && canonical_fits(c, e),
                None => r.existing is None,
            },
            exists|dir: Option<Seq<char>>| #[trigger]
                paths::parent_fits(path@, dir) && r.has_parent == dir is Some,
            canonical_fits(r.parent, parent),
            exists|name: Option<Seq<char>>| #[trigger]
                paths::file_name_fits(path@, name) && r.has_file_name == name is Some && joins(
                    r.joined@,
                    path@,
                    parent,
                    name,
                ),
    {
        let dir = paths::path_parent(path);
        let name = paths::path_file_name(path);
        let joined = match (&parent, &name) {
            (Ok(dir), Some(name)) => paths::path_join(dir.as_str(), name.as_str()),
            _ => path.to_owned(),
        };
        assert(paths::parent_fits(path@, text::opt_text(dir)));
        assert(paths::file_name_fits(path@, text::opt_text(name)));
        OutputPathFacts {
            absolute: paths::path_is_absolute(path),
            existing: match existing {
                Some(e) => Some(canonical_of(e)),
                None => None,
            },
            has_parent: dir.is_some(),
            has_file_name: name.is_some(),
            parent: canonical_of(parent),
            joined,
        }
    }
}

/// The subject of the words for a path: its kind and the path itself.
pub open spec fn path_subject(kind: Seq<char>, path: Seq<char>) -> Seq<char> {
    kind + " path '"@ + path + "'"@
}

/// Whether `r` is what comes of resolving: the resolved path, unless it could not be
/// resolved or has a step upwards in it.
pub open spec fn resolves(
    r: Result<String, McpError>,
    canonical: Result<CanonicalPath, String>,
    unresolved: Seq<char>,
    escapes: Seq<char>,
) -> bool {
    match canonical {
        Err(reason) => r matches Err(e) && e.says(ErrorCode::FileNotFound, unresolved + reason@),
        Ok(c) => if c.has_parent_step {
            r matches Err(e) && e.says(ErrorCode::InvalidArgument, escapes)
        } else {
            r matches Ok(p) && p == c.path
        },
    }
}

fn resolve(
    canonical: Result<CanonicalPath, String>,
    unresolved: &str,
    escapes: &str,
) -> (r: Result<String, McpError>)
    ensures
        resolves(r, canonical, unresolved@, escapes@),
{
    match canonical {
        Err(reason) => {
            let message = text::cat2(unresolved, reason.as_str());
            Err(McpError::new(ErrorCode::FileNotFound, message.as_str()))
        },
        Ok(c) => {
            if c.has_parent_step {
                Err(invalid(escapes))
            } else {
                Ok(c.path)
            }
        },
    }
}

/// The words for a path that resolves to something with a step upwards.
pub open spec fn escape_words(subject: Seq<char>) -> Seq<char> {
    subject + " resolves to a location containing '..' components"@
}

/// The path of a file that has to be there: absolute, there, and resolved without a
/// step upwards. `kind` names it in messages.
pub fn validate_input_path(path: &str, kind: &str, facts: InputPathFacts) -> (r: Result<
    String,
    McpError,
>)
    ensures
        if !facts.absolute {
            r matches Err(e) && e.says(
                ErrorCode::InvalidArgument,
                path_subject(kind@, path@) + " must be absolute"@,
            )
        } else {
            resolves(
                r,
                facts.canonical,
                "Cannot resolve "@ + path_subject(kind@, path@) + ": "@,
                escape_words(path_subject(kind@, path@)),
            )
        },
{
    let subject = text::cat4(kind, " path '", path, "'");
    if !facts.absolute {
        let message = text::cat2(subject.as_str(), " must be absolute");
        return Err(invalid(message.as_str()));
    }
    let unresolved = text::cat3("Cannot resolve ", subject.as_str(), ": ");
    let escapes = text::cat2(
        subject.as_str(),
        " resolves to a location containing '..' components",
    );
    resolve(facts.canonical, unresolved.as_str(), escapes.as_str())
}

/// The path of a file to attach, which has to be there.
pub fn validate_local_path(path: &str, facts: InputPathFacts) -> (r: Result<String, McpError>)
    ensures
        if !facts.absolute {
            r matches Err(e) && e.says(
                ErrorCode::InvalidArgument,
                path_subject("Attach"@, path@)
                    + " must be absolute. Pass a full path to a local .hyper file."@,
            )
        } else {
            resolves(
                r,
                facts.canonical,
                "Cannot resolve "@ + path_subject("attach"@, path@) + ": "@,
                escape_words(path_subject("Attach"@, path@)),
            )
        },
{
    let subject = text::cat4("Attach", " path '", path, "'");
    if !facts.absolute {
        let message = text::cat2(
            subject.as_str(),
            " must be absolute. Pass a full path to a local .hyper file.",
        );
        return Err(invalid(message.as_str()));
    }
    let lowered = text::cat4("attach", " path '", path, "'");
    let unresolved = text::cat3("Cannot resolve ", lowered.as_str(), ": ");
    let escapes = text::cat2(
        subject.as_str(),
        " resolves to a location containing '..' components",
    );
    resolve(facts.canonical, unresolved.as_str(), escapes.as_str())
}

/// Whether `r` is what comes of a path that is not there: the name in the resolved
/// directory, unless there is no directory or no name, the directory could not be
/// resolved, or has a step upwards in it.
pub open spec fn places(
    r: Result<String, McpError>,
    facts: OutputPathFacts,
    subject: Seq<char>,
    unresolved: Seq<char>,
    advice: Seq<char>,
) -> bool {
    if !facts.has_parent {
        r matches Err(e) && e.says(
            ErrorCode::InvalidArgument,
            subject + " has no parent directory"@,
        )
    } else if !facts.has_file_name {
        r matches Err(e) && e.says(
            ErrorCode::InvalidArgument,
            subject + " has no file-name component"@,
        )
    } else {
        match facts.parent {
            Err(reason) => r matches Err(e) && e.says(
                ErrorCode::FileNotFound,
                unresolved + reason@ + advice,
            ),
            Ok(c) => if c.has_parent_step {
                r matches Err(e) && e.says(ErrorCode::InvalidArgument, escape_words(subject))
            } else {
                r matches Ok(p) && p == facts.joined
            },
        }
    }
}

fn place(
    facts: OutputPathFacts,
    subject: &str,
    unresolved: &str,
    advice: &str,
) -> (r: Result<String, McpError>)
    ensures
        places(r, facts, subject@, unresolved@, advice@),
{
    if !facts.has_parent {
        let message = text::cat2(subject, " has no parent directory");
        return Err(invalid(message.as_str()));
    }
    if !facts.has_file_name {
        let message = text::cat2(subject, " has no file-name component");
        return Err(invalid(message.as_str()));
    }
    match facts.parent {
        Err(reason) => {
            let message = text::cat3(unresolved, reason.as_str(), advice);
            Err(McpError::new(ErrorCode::FileNotFound, message.as_str()))
        },
        Ok(c) => {
            if c.has_parent_step {
                let message = text::cat2(
                    subject,
                    " resolves to a location containing '..' components",
                );
                Err(invalid(message.as_str()))
            } else {
                Ok(facts.joined)
            }
        },
    }
}

/// The path of a file to write, which need not be there: absolute, and its directory
/// there and resolved without a step upwards. A file that is there is treated as one
/// that has to be.
pub fn validate_output_path(path: &str, kind: &str, facts: OutputPathFacts) -> (r: Result<
    String,
    McpError,
>)
    ensures
        if !facts.absolute {
            r matches Err(e) && e.says(
                ErrorCode::InvalidArgument,
                path_subject(kind@, path@) + " must be absolute"@,
            )
        } else {
            match facts.existing {
                Some(canonical) => resolves(
                    r,
                    canonical,
                    "Cannot resolve "@ + path_subject(kind@, path@) + ": "@,
                    escape_words(path_subject(kind@, path@)),
                ),
                None => places(
                    r,
                    facts,
                    path_subject(kind@, path@),
                    "Parent directory of "@ + path_subject(kind@, path@) + " does not exist: "@,
                    ""@,
                ),
            }
        },
{
    let subject = text::cat4(kind, " path '", path, "'");
    if !facts.absolute {
        let message = text::cat2(subject.as_str(), " must be absolute");
        return Err(invalid(message.as_str()));
    }
    match facts.existing {
        Some(canonical) => validate_input_path(
            path,
            kind,
            InputPathFacts { absolute: true, canonical },
        ),
        None => {
            let unresolved = text::cat3(
                "Parent directory of ",
                subject.as_str(),
                " does not exist: ",
            );
            place(facts, subject.as_str(), unresolved.as_str(), "")
        },
    }
}

/// The path of a file to attach that may have to be made first.
pub fn validate_local_path_for_create(path: &str, facts: OutputPathFacts) -> (r: Result<
    String,
    McpError,
>)
    ensures
        if !facts.absolute {
            r matches Err(e) && e.says(
                ErrorCode::InvalidArgument,
                path_subject("Attach"@, path@)
                    + " must be absolute. Pass a full path to a .hyper file."@,
            )
        } else {
            match facts.existing {
                Some(canonical) => resolves(
                    r,
                    canonical,
                    "Cannot resolve "@ + path_subject("attach"@, path@) + ": "@,
                    escape_words(path_subject("Attach"@, path@)),
                ),
                None => places(
                    r,
                    facts,
                    path_subject("Attach"@, path@),
                    "Parent directory of "@ + path_subject("attach"@, path@)
                        + " does not exist: "@,
                    ". Create the directory first or use on_missing='error'."@,
                ),
            }
        },
{
    let subject = text::cat4("Attach", " path '", path, "'");
    if !facts.absolute {
        let message = text::cat2(
            subject.as_str(),
            " must be absolute. Pass a full path to a .hyper file.",
        );
        return Err(invalid(message.as_str()));
    }
    match facts.existing {
        Some(canonical) => validate_local_path(path, InputPathFacts { absolute: true, canonical }),
        None => {
            let lowered = text::cat4("attach", " path '", path, "'");
            let unresolved = text::cat3(
                "Parent directory of ",
                lowered.as_str(),
                " does not exist: ",
            );
            place(
                facts,
                subject.as_str(),
                unresolved.as_str(),
                ". Create the directory first or use on_missing='error'.",
            )
        },
    }
}

/// What was attached is found again, in whatever case its alias is written, and
/// what was there before is still found.
pub proof fn law_attached_is_found(
    entries: Seq<AttachedDb>,
    entry: AttachedDb,
    asked: Seq<char>,
)
    requires
        entries_wf(entries),
        find(entries, entry.alias@) is None,
    ensures
        text::lower(asked) == entry.alias@ ==> find(entries.push(entry), text::lower(asked))
            == Some(entries.len() as int),
        text::lower(asked) != entry.alias@ ==> find(entries.push(entry), text::lower(asked))
            == find(entries, text::lower(asked)),
{
    assert(entries.push(entry).drop_last() =~= entries);
}

/// Detaching undoes attaching: the other attachments stay, in their order.
pub proof fn law_detach_undoes_attach(entries: Seq<AttachedDb>, entry: AttachedDb)
    requires
        entries_wf(entries),
        find(entries, entry.alias@) is None,
    ensures
        find(entries.push(entry), entry.alias@) == Some(entries.len() as int),
        entries.push(entry).remove(entries.len() as int) == entries,
{
    assert(entries.push(entry).drop_last() =~= entries);
    assert(entries.push(entry).remove(entries.len() as int) =~= entries);
}

/// What was detached is not found any more.
pub proof fn law_detached_is_not_found(entries: Seq<AttachedDb>, alias: Seq<char>)
    requires
        entries_wf(entries),
        find(entries, alias) is Some,
    ensures
        find(entries.remove(find(entries, alias)->0), alias) is None,
{
    let at = find(entries, alias)->0;
    lemma_find(entries, alias);
    let rest = entries.remove(at);
    lemma_find(rest, alias);
    if let Some(j) = find(rest, alias) {
        if j < at {
            assert(rest[j] == entries[j]);
        } else {
            assert(rest[j] == entries[j + 1]);
            assert(entries[at].alias@ != entries[j + 1].alias@);
        }
    }
}

/// Making attachments again keeps those that could be made, all of them and in
/// order, and invents none.
pub proof fn law_replay_keeps_survivors(entries: Seq<AttachedDb>, marks: Seq<bool>)
    requires
        entries_wf(entries),
        marks.len() == entries.len(),
    ensures
        (forall|i: int| 0 <= i < marks.len() ==> marks[i]) ==> survivors(entries, marks)
            == entries,
        (forall|i: int| 0 <= i < marks.len() ==> !marks[i]) ==> survivors(entries, marks).len()
            == 0,
        survivors(entries, marks).len() <= entries.len(),
        forall|k: int|
            0 <= k < survivors(entries, marks).len() ==> entries.contains(
                #[trigger] survivors(entries, marks)[k],
            ),
    decreases entries.len(),
{
    lemma_survivors(entries, marks);
    if entries.len() > 0 {
        let e = entries.drop_last();
        let m = marks.drop_last();
        assert forall|i: int| 0 <= i < e.len() implies e[i] == entries[i] && m[i] == marks[i] by {}
        law_replay_keeps_survivors(e, m);
        assert(marks.last() == marks[marks.len() - 1]);
        assert(e.push(entries.last()) =~= entries);
    } else {
        assert(survivors(entries, marks) =~= entries);
    }
}

/// Whether the database is attached to the connection in this phase, as far as the
/// answers so far tell.
pub open spec fn holds_database(phase: AttachPhase) -> bool {
    phase is Pin || phase is Seed || phase is UndoAttach || phase is Attached
}

/// Nothing is left behind by an attachment that fails: once the database is
/// attached, the attachment goes on to the end or the database is detached, and the
/// caller is told what failed first.
pub proof fn law_attach_all_or_nothing(a: Attachment, outcome: Result<(), McpError>)
    ensures
        holds_database(a.phase) && !holds_database(a.phase_after(outcome)) ==> a.phase
            is UndoAttach && a.deed() == AttachDeed::Execute(
            detach_statement(a.request.alias@),
        ),
        !holds_database(a.phase) && holds_database(a.phase_after(outcome)) ==> a.phase is Attach
            && outcome is Ok,
        a.phase_after(outcome) is Attached && !(a.phase is Attached) ==> outcome is Ok && (a.phase
            is Seed || (a.phase is Pin && !a.creates())),
        (a.phase is Pin || a.phase is Seed) && outcome is Err ==> (a.phase_after(
            outcome,
        ) matches AttachPhase::UndoAttach { error, .. } && error == outcome->Err_0),
        a.phase matches AttachPhase::UndoAttach { error, .. } ==> (a.phase_after(
            outcome,
        ) matches AttachPhase::UndoPin { error: e } && e == error) || (a.phase_after(
            outcome,
        ) matches AttachPhase::Failed { error: e } && e == error),
{
}

/// A database that was there is neither made nor given a catalog.
pub proof fn law_existing_database_is_left_alone(a: Attachment)
    requires
        a.wf(),
        a.facts.exists,
    ensures
        !(a.deed() is SeedCatalog),
        a.deed() matches AttachDeed::Execute(sql) ==> sql == attach_statement(
            a.facts.sql_path@,
            a.request.alias@,
        ) || sql == pin_statement(a.facts.primary@) || sql == detach_statement(a.request.alias@)
            || sql == unpin_statement(a.facts.has_persistent, a.facts.primary@),
{
}

/// Names without a database go on to mean the primary one as long as the persistent
/// database is attached: the search path is reset only where there is none. So it is when
/// the last attachment of the user is gone, and when the first one is undone.
pub proof fn law_pin_stays_with_persistent(a: Attachment, primary: Seq<char>)
    ensures
        unpin_statement(true, primary) == "SET schema_search_path = '"@ + text::doubled(
            primary,
            '\'',
        ) + "'"@,
        unpin_statement(true, primary) == pin_statement(primary),
        unpin_statement(false, primary) == "RESET schema_search_path"@,
        unpin_statement(true, primary) != unpin_statement(false, primary),
        a.phase is UndoPin && a.facts.has_persistent ==> a.deed() == AttachDeed::Execute(
            "SET schema_search_path = '"@ + text::doubled(a.facts.primary@, '\'') + "'"@,
        ),
        a.phase is UndoPin && !a.facts.has_persistent ==> a.deed() == AttachDeed::Execute(
            "RESET schema_search_path"@,
        ),
{
    law_statement_texts(Seq::empty(), Seq::empty(), primary);
    law_statement_texts(Seq::empty(), Seq::empty(), a.facts.primary@);
    reveal_strlit("RESET schema_search_path");
    reveal_strlit("SET schema_search_path = '");
    assert(unpin_statement(true, primary)[0] == 'S');
    assert(unpin_statement(false, primary)[0] == 'R');
}

/// The statements that attach, detach, make and pin, written out.
pub proof fn law_statement_texts(sql_path: Seq<char>, alias: Seq<char>, primary: Seq<char>)
    ensures
        attach_statement(sql_path, alias) == "ATTACH DATABASE "@ + sql_path + " AS \""@
            + text::doubled(alias, '"') + "\""@,
        detach_statement(alias) == "DETACH DATABASE \""@ + text::doubled(alias, '"') + "\""@,
        create_statement(sql_path) == "CREATE DATABASE IF NOT EXISTS "@ + sql_path,
        pin_statement(primary) == "SET schema_search_path = '"@ + text::doubled(primary, '\'')
            + "'"@,
        string_literal(primary) == "'"@ + text::doubled(primary, '\'') + "'"@,
        quoted_name(alias) == "\""@ + text::doubled(alias, '"') + "\""@,
{
    reveal_strlit("ATTACH DATABASE ");
    reveal_strlit(" AS \"");
    reveal_strlit(" AS ");
    reveal_strlit("\"");
    reveal_strlit("'");
    reveal_strlit("DETACH DATABASE \"");
    reveal_strlit("DETACH DATABASE ");
    reveal_strlit("SET schema_search_path = '");
    reveal_strlit("SET schema_search_path = ");
    assert(" AS \""@ =~= " AS "@ + "\""@);
    assert("DETACH DATABASE \""@ =~= "DETACH DATABASE "@ + "\""@);
    assert("SET schema_search_path = '"@ =~= "SET schema_search_path = "@ + "'"@);
    assert(attach_statement(sql_path, alias) =~= "ATTACH DATABASE "@ + sql_path + " AS \""@
        + text::doubled(alias, '"') + "\""@);
    assert(detach_statement(alias) =~= "DETACH DATABASE \""@ + text::doubled(alias, '"')
        + "\""@);
    assert(pin_statement(primary) =~= "SET schema_search_path = '"@ + text::doubled(
        primary,
        '\'',
    ) + "'"@);
}

/// What is done in each phase of an attachment, and what stands for it.
pub proof fn law_deeds_of_an_attachment(a: Attachment, sql: String, alias: String)
    ensures
        a.phase is Create ==> a.deed() == AttachDeed::Execute(
            "CREATE DATABASE IF NOT EXISTS "@ + a.facts.sql_path@,
        ),
        a.phase is Attach ==> a.deed() == AttachDeed::Execute(
            "ATTACH DATABASE "@ + a.facts.sql_path@ + " AS \""@ + text::doubled(
                a.request.alias@,
                '"',
            ) + "\""@,
        ),
        a.phase is Pin ==> a.deed() == AttachDeed::Execute(
            "SET schema_search_path = '"@ + text::doubled(a.facts.primary@, '\'') + "'"@,
        ),
        a.phase is Seed ==> a.deed() == AttachDeed::SeedCatalog(a.request.alias@),
        a.phase is UndoAttach ==> a.deed() == AttachDeed::Execute(
            "DETACH DATABASE \""@ + text::doubled(a.request.alias@, '"') + "\""@,
        ),
        a.phase is Attached || a.phase is Failed ==> a.deed() == AttachDeed::Nothing,
        AttachAction::Execute(sql)@ == AttachDeed::Execute(sql@),
        AttachAction::SeedCatalog(alias)@ == AttachDeed::SeedCatalog(alias@),
        AttachAction::Nothing@ == AttachDeed::Nothing,
{
    law_statement_texts(a.facts.sql_path@, a.request.alias@, a.facts.primary@);
}

/// The course of an attachment: a database that was not there is made first, every one is
/// attached and then pinned, one that was made gets its catalog last, and the pin is undone
/// only for the first attachment.
pub proof fn law_course_of_an_attachment(a: Attachment, error: McpError)
    ensures
        a.phase is Create ==> a.phase_after(Ok(())) is Attach,
        a.phase is Attach ==> a.phase_after(Ok(())) is Pin,
        a.phase is Pin && !a.facts.exists ==> a.phase_after(Ok(())) is Seed,
        a.phase is Pin && a.facts.exists ==> a.phase_after(Ok(())) is Attached,
        a.phase is Seed ==> a.phase_after(Ok(())) is Attached,
        a.phase is Create || a.phase is Attach ==> a.phase_after(Err(error))
            == (AttachPhase::Failed { error }),
        a.phase is Pin ==> a.phase_after(Err(error)) == (AttachPhase::UndoAttach {
            error,
            unpin: false,
        }),
        a.phase is Seed ==> a.phase_after(Err(error)) == (AttachPhase::UndoAttach {
            error,
            unpin: a.first,
        }),
        a.phase matches AttachPhase::UndoAttach { error: e, unpin } ==> a.phase_after(Ok(()))
            == a.phase_after(Err(error)) && a.phase_after(Ok(())) == (if unpin {
            AttachPhase::UndoPin { error: e }
        } else {
            AttachPhase::Failed { error: e }
        }),
        a.phase matches AttachPhase::UndoPin { error: e } ==> a.phase_after(Ok(()))
            == a.phase_after(Err(error)) && a.phase_after(Ok(())) == (AttachPhase::Failed {
            error: e,
        }),
        a.phase is Attached || a.phase is Failed ==> a.phase_after(Ok(())) == a.phase
            && a.phase_after(Err(error)) == a.phase,
{
}

/// An alias is accepted if it is one to sixty-three ASCII letters, digits and underscores,
/// does not begin with a digit, and is not `local` in any case.
pub proof fn law_alias_characters(alias: Seq<char>)
    ensures
        alias_problem(alias) is None <==> 1 <= alias.len() <= 63 && !('0' <= alias[0] && alias[0]
            <= '9') && (forall|i: int|
            0 <= i < alias.len() ==> 'A' <= #[trigger] alias[i] && alias[i] <= 'Z' || 'a'
                <= alias[i] && alias[i] <= 'z' || '0' <= alias[i] && alias[i] <= '9' || alias[i]
                == '_') && text::lower(alias) != "local"@,
{
    law_accepted_aliases(alias);
    if is_alias(alias) {
        assert forall|i: int| 0 <= i < alias.len() implies 'A' <= #[trigger] alias[i] && alias[i]
            <= 'Z' || 'a' <= alias[i] && alias[i] <= 'z' || '0' <= alias[i] && alias[i] <= '9'
            || alias[i] == '_' by {
            assert(is_alias_char(alias[i]));
        }
    }
}

/// What is said of an alias that is refused: that it is reserved, too short or too long,
/// begins with the wrong character or holds one, the first of which is named.
pub proof fn law_alias_problems(alias: Seq<char>, bad: int)
    ensures
        text::lower(alias) == "local"@ ==> alias_problem(alias) == Some(
            "'local' is reserved for the primary workspace and cannot be used as an attach alias."@,
        ),
        text::lower(alias) != "local"@ && (alias.len() == 0 || text::byte_len(alias) > 63)
            ==> alias_problem(alias) == Some("Alias must be 1..=63 characters"@),
        text::lower(alias) != "local"@ && alias.len() > 0 && text::byte_len(alias) <= 63
            && !text::is_letter(alias[0]) && alias[0] != '_' ==> alias_problem(alias) == Some(
            "Alias '"@ + alias + "' must start with a letter or underscore"@,
        ),
        text::lower(alias) != "local"@ && text::byte_len(alias) <= 63 && 0 < bad < alias.len() && (
        text::is_letter(alias[0]) || alias[0] == '_') && (forall|i: int|
            0 <= i < bad ==> is_alias_char(#[trigger] alias[i])) && !is_alias_char(alias[bad])
            ==> alias_problem(alias) == Some(
            "Alias '"@ + alias + "' contains invalid character '"@ + seq![alias[bad]]
                + "'. Allowed: [A-Za-z_][A-Za-z0-9_]{0,62}"@,
        ),
{
    reveal_strlit("local");
    reveal_strlit("'");
    reveal_strlit(
        "'local' is reserved for the primary workspace and cannot be used as an attach alias.",
    );
    reveal_strlit("' is reserved for the primary workspace and cannot be used as an attach alias.");
    assert(text::lower(LOCAL_ALIAS@) =~= "local"@);
    assert("'"@ + LOCAL_ALIAS@
        + "' is reserved for the primary workspace and cannot be used as an attach alias."@
        =~= "'local' is reserved for the primary workspace and cannot be used as an attach alias."@);
    if 0 < bad < alias.len() && (forall|i: int| 0 <= i < bad ==> is_alias_char(#[trigger] alias[i]))
        && !is_alias_char(alias[bad]) {
        lemma_first_bad_is(alias, 1, bad);
    }
}

proof fn lemma_first_bad_is(alias: Seq<char>, from: nat, bad: int)
    requires
        from <= bad < alias.len(),
        forall|i: int| from <= i < bad ==> is_alias_char(#[trigger] alias[i]),
        !is_alias_char(alias[bad]),
    ensures
        first_bad(alias, from) == Some(bad),
    decreases bad - from,
{
    if from < bad {
        assert(is_alias_char(alias[from as int]));
        lemma_first_bad_is(alias, from + 1, bad);
    }
}

/// Why an attachment is refused, in this order: its alias is none, its alias is taken, an
/// empty database would be made that cannot be written to, or the file is not there and is
/// not to be made. Nothing else is refused.
pub proof fn law_refusals(entries: Seq<AttachedDb>, req: AttachRequest, exists: bool, i: int)
    ensures
        alias_problem(req.alias@) matches Some(problem) ==> refusal(entries, req, exists) == Some(
            (ErrorCode::InvalidArgument, problem),
        ),
        alias_problem(req.alias@) is None && 0 <= i < entries.len() && entries[i].alias@
            == text::lower(req.alias@) ==> refusal(entries, req, exists) == Some(
            (
                ErrorCode::InvalidArgument,
                "Alias '"@ + text::lower(req.alias@)
                    + "' is already in use. Detach it first or pick a different alias."@,
            ),
        ),
        alias_problem(req.alias@) is None && (forall|j: int|
            0 <= j < entries.len() ==> (#[trigger] entries[j]).alias@ != text::lower(req.alias@))
            ==> {
            &&& req.on_missing is Create && !req.writable ==> refusal(entries, req, exists) == Some(
                (
                    ErrorCode::InvalidArgument,
                    "on_missing='create' requires writable:true — an empty .hyper file that cannot be written to cannot be populated."@,
                ),
            )
            &&& req.on_missing is Error && !exists ==> refusal(entries, req, exists) == Some(
                (
                    ErrorCode::FileNotFound,
                    "Attach path does not exist: "@ + req.source.spec_path()
                        + ". Pass on_missing='create' (with writable:true) to create an empty .hyper file at that path."@,
                ),
            )
            &&& req.on_missing is Error && exists ==> refusal(entries, req, exists) is None
            &&& req.on_missing is Create && req.writable ==> refusal(entries, req, exists) is None
        },
{
    lemma_find(entries, text::lower(req.alias@));
}

/// An attachment is kept if and only if its own mark is set, whatever stands around it, and
/// the order stays.
pub proof fn law_survivors_part_by_part(
    a: Seq<AttachedDb>,
    a_marks: Seq<bool>,
    entry: AttachedDb,
    b: Seq<AttachedDb>,
    b_marks: Seq<bool>,
)
    requires
        a_marks.len() == a.len(),
        b_marks.len() == b.len(),
    ensures
        survivors(a + seq![entry] + b, a_marks + seq![true] + b_marks) == survivors(a, a_marks)
            + seq![entry] + survivors(b, b_marks),
        survivors(a + seq![entry] + b, a_marks + seq![false] + b_marks) == survivors(a, a_marks)
            + survivors(b, b_marks),
    decreases b.len(),
{
    if b.len() == 0 {
        assert((a + seq![entry] + b).drop_last() =~= a);
        assert((a_marks + seq![true] + b_marks).drop_last() =~= a_marks);
        assert((a_marks + seq![false] + b_marks).drop_last() =~= a_marks);
        assert((a_marks + seq![true] + b_marks).last() == true);
        assert((a_marks + seq![false] + b_marks).last() == false);
        assert(survivors(b, b_marks) =~= Seq::<AttachedDb>::empty());
        assert(survivors(a, a_marks) + seq![entry] + survivors(b, b_marks) =~= survivors(
            a,
            a_marks,
        ).push(entry));
        assert(survivors(a, a_marks) + survivors(b, b_marks) =~= survivors(a, a_marks));
    } else {
        let c = b.drop_last();
        let c_marks = b_marks.drop_last();
        law_survivors_part_by_part(a, a_marks, entry, c, c_marks);
        assert((a + seq![entry] + b).drop_last() =~= a + seq![entry] + c);
        assert((a_marks + seq![true] + b_marks).drop_last() =~= a_marks + seq![true] + c_marks);
        assert((a_marks + seq![false] + b_marks).drop_last() =~= a_marks + seq![false] + c_marks);
        assert((a_marks + seq![true] + b_marks).last() == b_marks.last());
        assert((a_marks + seq![false] + b_marks).last() == b_marks.last());
        assert((a + seq![entry] + b).last() == b.last());
        assert(survivors(a + seq![entry] + b, a_marks + seq![true] + b_marks) =~= survivors(
            a,
            a_marks,
        ) + seq![entry] + survivors(b, b_marks));
        assert(survivors(a + seq![entry] + b, a_marks + seq![false] + b_marks) =~= survivors(
            a,
            a_marks,
        ) + survivors(b, b_marks));
    }
}

/// A path is answered exactly as it was resolved, unless it could not be resolved or still
/// has a step upwards in it; each of those is an error of its own.
pub proof fn law_resolved_paths(
    r: Result<String, McpError>,
    canonical: Result<CanonicalPath, String>,
    kind: Seq<char>,
    path: Seq<char>,
    unresolved: Seq<char>,
)
    requires
        resolves(r, canonical, unresolved, escape_words(path_subject(kind, path))),
    ensures
        r is Ok <==> (canonical matches Ok(c) && !c.has_parent_step),
        r matches Ok(p) ==> p == canonical->Ok_0.path,
        canonical matches Err(reason) ==> (r matches Err(e) && e.code == ErrorCode::FileNotFound
            && e.message@ == unresolved + reason@),
        canonical matches Ok(c) ==> c.has_parent_step ==> (r matches Err(e) && e.code
            == ErrorCode::InvalidArgument && e.message@ == kind + " path '"@ + path + "'"@
            + " resolves to a location containing '..' components"@),
{
}

/// A path that is not there is answered as its name in the resolved directory, unless it has
/// no directory or no name, or its directory could not be resolved or still has a step
/// upwards in it; each of those is an error of its own.
pub proof fn law_placed_paths(
    r: Result<String, McpError>,
    facts: OutputPathFacts,
    subject: Seq<char>,
    unresolved: Seq<char>,
    advice: Seq<char>,
)
    requires
        places(r, facts, subject, unresolved, advice),
    ensures
        r is Ok <==> facts.has_parent && facts.has_file_name && (facts.parent matches Ok(c)
            && !c.has_parent_step),
        r matches Ok(p) ==> p == facts.joined,
        !facts.has_parent ==> (r matches Err(e) && e.code == ErrorCode::InvalidArgument
            && e.message@ == subject + " has no parent directory"@),
        facts.has_parent && !facts.has_file_name ==> (r matches Err(e) && e.code
            == ErrorCode::InvalidArgument && e.message@ == subject + " has no file-name component"@),
        facts.has_parent && facts.has_file_name ==> {
            &&& facts.parent matches Err(reason) ==> (r matches Err(e) && e.code
                == ErrorCode::FileNotFound && e.message@ == unresolved + reason@ + advice)
            &&& facts.parent matches Ok(c) ==> c.has_parent_step ==> (r matches Err(e) && e.code
                == ErrorCode::InvalidArgument && e.message@ == subject
                + " resolves to a location containing '..' components"@)
        },
{
}

/// An entry is shown with its alias, its place, whether it may be changed and when it was
/// attached.
pub proof fn law_entries_are_shown(entry: AttachedDb, r: Json, attached_at: Seq<char>)
    requires
        entry.shown_as(r, attached_at),
    ensures
        r.names() == seq!["alias"@, "source"@, "kind"@, "writable"@, "attached_at"@],
        r.fields()[0].1 matches Json::Text(t) && t@ == entry.alias@,
        r.fields()[1].1.names() == seq!["kind"@, "path"@],
        r.fields()[1].1.fields()[1].1 matches Json::Text(t) && (
        entry.source matches AttachSource::LocalFile { path } && t@ == path@),
        r.fields()[2].1 matches Json::Text(t) && t@ == "local_file"@,
        r.fields()[3].1 == Json::Bool(entry.writable),
        r.fields()[4].1 matches Json::Text(t) && t@ == attached_at,
{
}

/// A path that was resolved is kept as it was resolved, and one that was not is kept with
/// why; the name of a path is put into its resolved directory, where there are both.
pub proof fn law_resolved_as_told(
    r: Result<CanonicalPath, String>,
    resolved: Result<String, String>,
    joined: Seq<char>,
    path: Seq<char>,
    name: Option<Seq<char>>,
)
    ensures
        canonical_fits(r, resolved) ==> {
            &&& resolved matches Ok(p) ==> (r matches Ok(c) && c.path == p && (
            paths::text_leads_upwards(p@) ==> c.has_parent_step) && (!text::has_part(p@, ".."@)
                ==> !c.has_parent_step))
            &&& resolved matches Err(reason) ==> r == Err::<CanonicalPath, String>(reason)
        },
        joins(joined, path, resolved, name) && (resolved is Err || name is None) ==> joined == path,
        joins(joined, path, resolved, name) && resolved is Ok && name is Some ==> paths::join_fits(
            resolved->Ok_0@,
            name->0,
            joined,
        ),
{
}

} // verus!
