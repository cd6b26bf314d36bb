//! Installation and launcher identity.

use vstd::prelude::*;

use crate::text;
use crate::version;
use crate::version::{SemVer, SemVerParts};

verus! {

/// The longest launcher metadata that is looked at, in bytes.
pub const MAX_LAUNCHER_INFO_BYTES: usize = 16384;

/// The longest text that a report holds, in bytes.
pub const MAX_REPORTED_STRING_BYTES: usize = 4096;

/// How an operating-system path was turned into text.
#[derive(Debug, Clone, Copy, PartialEq, Eq, Structural)]
pub enum PathEncoding {
    /// The path was valid UTF-8.
    Utf8,
    /// The text stands for a path that was not.
    Lossy,
}

/// A path as it is shown, cut to the length that a report allows.
#[derive(Debug, Clone)]
pub struct ReportedPath {
    /// The text that is shown.
    pub display: String,
    /// Whether the text is exact.
    pub encoding: PathEncoding,
}

/// `s` cut to the length that a report allows.
pub open spec fn bounded(s: Seq<char>) -> Seq<char> {
    text::truncated(s, MAX_REPORTED_STRING_BYTES as nat)
}

/// `value` cut to the length that a report allows.
pub fn bounded_string(value: &str) -> (r: String)
    ensures
        r@ == bounded(value@),
{
    text::truncate_utf8(value, MAX_REPORTED_STRING_BYTES)
}

impl ReportedPath {
    /// Whether this shows the path `display`, read as `encoding` says.
    pub open spec fn shows(self, display: Seq<char>, encoding: PathEncoding) -> bool {
        self.display@ == bounded(display) && self.encoding == encoding
    }

    /// The path whose text is `display`: the path itself where it is UTF-8, what
    /// stands for it where it is not.
    pub fn from_os_str(display: &str, encoding: PathEncoding) -> (r: ReportedPath)
        ensures
            r.shows(display@, encoding),
    {
        ReportedPath { display: bounded_string(display), encoding }
    }

    /// Whether two paths are shown alike.
    pub open spec fn alike(self, other: ReportedPath) -> bool {
        self.display@ == other.display@ && self.encoding == other.encoding
    }

    /// Whether two paths are shown alike.
    pub fn same_as(&self, other: &ReportedPath) -> (r: bool)
        ensures
            r == self.alike(*other),
    {
        self.encoding == other.encoding && text::same_text(
            self.display.as_str(),
            other.display.as_str(),
        )
    }

    /// The same path once more.
    pub fn copied(&self) -> (r: ReportedPath)
        ensures
            r == *self,
    {
        ReportedPath { display: self.display.clone(), encoding: self.encoding }
    }
}

/// What the launcher reports of one package.
#[derive(Debug, Clone)]
pub struct LauncherPackageIdentity {
    /// Package name.
    pub name: String,
    /// Package version, absent in source manifests.
    pub version: Option<String>,
    /// Path to the package manifest.
    pub package_path: ReportedPath,
}

/// What the launcher reports.
#[derive(Debug, Clone)]
pub struct LauncherIdentity {
    /// The package that the user installed.
    pub wrapper: LauncherPackageIdentity,
    /// The package for this platform.
    pub platform: LauncherPackageIdentity,
    /// The executable that was started.
    pub executable_path: ReportedPath,
}

/// A remark on the identity of an installation.
#[derive(Debug, Clone)]
pub enum IdentityWarning {
    /// The launcher metadata did not have the expected shape.
    MalformedLauncherInfo,
    /// The launcher metadata was too long.
    LauncherInfoTooLarge,
    /// One text of the launcher metadata was too long.
    LauncherFieldTooLarge {
        /// Which text; never the text itself.
        field: String,
    },
    /// A version could not be read.
    MalformedVersion {
        /// Whose version; never the version itself.
        component: String,
    },
    /// The launcher's packages are of another version than the executable.
    VersionMismatch {
        /// The version of the executable.
        native: String,
        /// The version of the wrapper package, where it is known.
        wrapper: Option<String>,
        /// The version of the platform package, where it is known.
        platform: Option<String>,
    },
}

/// What a remark says, as plain values.
pub enum IdentityFinding {
    /// The launcher metadata did not have the expected shape.
    MalformedLauncherInfo,
    /// The launcher metadata was too long.
    LauncherInfoTooLarge,
    /// One text of the launcher metadata was too long.
    LauncherFieldTooLarge {
        /// Which text.
        field: Seq<char>,
    },
    /// A version could not be read.
    MalformedVersion {
        /// Whose version.
        component: Seq<char>,
    },
    /// The launcher's packages are of another version than the executable.
    VersionMismatch {
        /// The version of the executable.
        native: Seq<char>,
        /// The version of the wrapper package, where it is known.
        wrapper: Option<Seq<char>>,
        /// The version of the platform package, where it is known.
        platform: Option<Seq<char>>,
    },
}

impl View for IdentityWarning {
    type V = IdentityFinding;

    open spec fn view(&self) -> IdentityFinding {
        match *self {
            IdentityWarning::MalformedLauncherInfo => IdentityFinding::MalformedLauncherInfo,
            IdentityWarning::LauncherInfoTooLarge => IdentityFinding::LauncherInfoTooLarge,
            IdentityWarning::LauncherFieldTooLarge { field } => {
                IdentityFinding::LauncherFieldTooLarge { field: field@ }
            },
            IdentityWarning::MalformedVersion { component } => {
                IdentityFinding::MalformedVersion { component: component@ }
            },
            IdentityWarning::VersionMismatch { native, wrapper, platform } => {
                IdentityFinding::VersionMismatch {
                    native: native@,
                    wrapper: text::opt_text(wrapper),
                    platform: text::opt_text(platform),
                }
            },
        }
    }
}

/// What a sequence of remarks says.
pub open spec fn findings(warnings: Seq<IdentityWarning>) -> Seq<IdentityFinding> {
    warnings.map_values(|w: IdentityWarning| w@)
}

/// The remark `finding`, or none where there is no reason for it.
pub open spec fn noted(reason: bool, finding: IdentityFinding) -> Seq<IdentityFinding> {
    if reason {
        seq![finding]
    } else {
        Seq::empty()
    }
}

/// What launcher metadata holds before it is checked, for one package.
#[derive(Debug, Clone)]
pub struct RawLauncherPackageIdentity {
    /// Package name.
    pub name: String,
    /// Package version.
    pub version: Option<String>,
    /// Path to the package manifest.
    pub package_path: String,
}

/// What launcher metadata holds before it is checked.
#[derive(Debug, Clone)]
pub struct RawLauncherIdentity {
    /// The package that the user installed.
    pub wrapper: RawLauncherPackageIdentity,
    /// The package for this platform.
    pub platform: RawLauncherPackageIdentity,
    /// The executable that was started.
    pub executable_path: String,
}

/// Launcher metadata as it was found: its length, and what it holds where it is
/// UTF-8 text of the expected shape.
#[derive(Debug, Clone)]
pub struct LauncherInfo {
    /// How many bytes it takes.
    pub byte_length: usize,
    /// What it holds.
    pub content: Option<RawLauncherIdentity>,
}

/// What came of the launcher metadata.
#[derive(Debug, Clone)]
pub struct ParsedLauncherIdentity {
    /// The identity, where the metadata was there and was accepted.
    pub identity: Option<LauncherIdentity>,
    /// Why it was not accepted.
    pub warnings: Vec<IdentityWarning>,
}

/// A source version in its parts.
#[derive(Debug, Clone)]
pub struct SourceVersionIdentity {
    /// The whole text.
    pub source: String,
    /// The semantic version in it.
    pub version: Option<String>,
    /// The build behind the mark `.r`.
    pub build: Option<String>,
}

/// The identity of an installation.
#[derive(Debug, Clone)]
pub struct InstallationIdentity {
    /// The executable that runs.
    pub native_executable: ReportedPath,
    /// The version of this program.
    pub mcp: SourceVersionIdentity,
    /// The version of the database library in it.
    pub hyper_rust_api: SourceVersionIdentity,
    /// What the launcher reported, where it was accepted.
    pub launcher: Option<LauncherIdentity>,
    /// Remarks on all of it.
    pub warnings: Vec<IdentityWarning>,
}

/// Whether `s` is longer than a report allows.
pub open spec fn oversized(s: Seq<char>) -> bool {
    text::byte_len(s) > MAX_REPORTED_STRING_BYTES
}

/// Whether an optional text is longer than a report allows.
pub open spec fn opt_oversized(s: Option<String>) -> bool {
    s matches Some(t) && oversized(t@)
}

/// The first text of the metadata that is longer than a report allows.
pub open spec fn first_oversized(raw: RawLauncherIdentity) -> Option<Seq<char>> {
    if oversized(raw.wrapper.name@) {
        Some("wrapper.name"@)
    } else if opt_oversized(raw.wrapper.version) {
        Some("wrapper.version"@)
    } else if oversized(raw.wrapper.package_path@) {
        Some("wrapper.package_path"@)
    } else if oversized(raw.platform.name@) {
        Some("platform.name"@)
    } else if opt_oversized(raw.platform.version) {
        Some("platform.version"@)
    } else if oversized(raw.platform.package_path@) {
        Some("platform.package_path"@)
    } else if oversized(raw.executable_path@) {
        Some("executable_path"@)
    } else {
        None
    }
}

/// Why launcher metadata is not accepted, where it is not.
pub open spec fn launcher_rejection(info: LauncherInfo) -> Option<IdentityFinding> {
    if info.byte_length > MAX_LAUNCHER_INFO_BYTES {
        Some(IdentityFinding::LauncherInfoTooLarge)
    } else {
        match info.content {
            None => Some(IdentityFinding::MalformedLauncherInfo),
            Some(raw) => match first_oversized(raw) {
                Some(field) => Some(IdentityFinding::LauncherFieldTooLarge { field }),
                None => None,
            },
        }
    }
}

/// Whether `p` is the package that `raw` describes.
pub open spec fn is_package_of(
    p: LauncherPackageIdentity,
    raw: RawLauncherPackageIdentity,
) -> bool {
    &&& p.name@ == raw.name@
    &&& text::opt_text(p.version) == text::opt_text(raw.version)
    &&& p.package_path.shows(raw.package_path@, PathEncoding::Utf8)
}

/// Whether `identity` is what `raw` describes.
pub open spec fn is_identity_of(identity: LauncherIdentity, raw: RawLauncherIdentity) -> bool {
    &&& is_package_of(identity.wrapper, raw.wrapper)
    &&& is_package_of(identity.platform, raw.platform)
    &&& identity.executable_path.shows(raw.executable_path@, PathEncoding::Utf8)
}

/// The remarks on launcher metadata.
pub open spec fn launcher_findings(value: Option<LauncherInfo>) -> Seq<IdentityFinding> {
    match value {
        None => Seq::empty(),
        Some(info) => match launcher_rejection(info) {
            Some(finding) => seq![finding],
            None => Seq::empty(),
        },
    }
}

/// Whether `identity` is what is accepted of launcher metadata.
pub open spec fn is_accepted_of(
    identity: Option<LauncherIdentity>,
    value: Option<LauncherInfo>,
) -> bool {
    match value {
        None => identity is None,
        Some(info) => match launcher_rejection(info) {
            Some(_) => identity is None,
            None => identity matches Some(id) && is_identity_of(id, info.content->0),
        },
    }
}

fn is_oversized(s: &str) -> (r: bool)
    ensures
        r == oversized(s@),
{
    text::byte_count(s) > MAX_REPORTED_STRING_BYTES
}

fn is_opt_oversized(s: &Option<String>) -> (r: bool)
    ensures
        r == opt_oversized(*s),
{
    match s {
        Some(t) => is_oversized(t.as_str()),
        None => false,
    }
}

fn oversized_field(raw: &RawLauncherIdentity) -> (r: Option<&'static str>)
    ensures
        match r {
            Some(f) => first_oversized(*raw) == Some(f@),
            None => first_oversized(*raw) is None,
        },
{
    if is_oversized(raw.wrapper.name.as_str()) {
        Some("wrapper.name")
    } else if is_opt_oversized(&raw.wrapper.version) {
        Some("wrapper.version")
    } else if is_oversized(raw.wrapper.package_path.as_str()) {
        Some("wrapper.package_path")
    } else if is_oversized(raw.platform.name.as_str()) {
        Some("platform.name")
    } else if is_opt_oversized(&raw.platform.version) {
        Some("platform.version")
    } else if is_oversized(raw.platform.package_path.as_str()) {
        Some("platform.package_path")
    } else if is_oversized(raw.executable_path.as_str()) {
        Some("executable_path")
    } else {
        None
    }
}

fn launcher_package_identity(raw: RawLauncherPackageIdentity) -> (r: LauncherPackageIdentity)
    ensures
        is_package_of(r, raw),
{
    LauncherPackageIdentity {
        package_path: ReportedPath::from_os_str(raw.package_path.as_str(), PathEncoding::Utf8),
        name: raw.name,
        version: raw.version,
    }
}

fn rejected_launcher(warning: IdentityWarning) -> (r: ParsedLauncherIdentity)
    ensures
        r.identity is None,
        findings(r.warnings@) == seq![warning@],
{
    let mut warnings: Vec<IdentityWarning> = Vec::new();
    warnings.push(warning);
    assert(findings(warnings@) =~= seq![warning@]);
    ParsedLauncherIdentity { identity: None, warnings }
}

/// What comes of launcher metadata: it is accepted as a whole or not at all.
pub fn parse_launcher_identity(value: Option<LauncherInfo>) -> (r: ParsedLauncherIdentity)
    ensures
        is_accepted_of(r.identity, value),
        findings(r.warnings@) == launcher_findings(value),
{
    let info = match value {
        None => {
            let warnings: Vec<IdentityWarning> = Vec::new();
            assert(findings(warnings@) =~= Seq::<IdentityFinding>::empty());
            return ParsedLauncherIdentity { identity: None, warnings };
        },
        Some(info) => info,
    };
    if info.byte_length > MAX_LAUNCHER_INFO_BYTES {
        return rejected_launcher(IdentityWarning::LauncherInfoTooLarge);
    }
    let raw = match info.content {
        None => {
            return rejected_launcher(IdentityWarning::MalformedLauncherInfo);
        },
        Some(raw) => raw,
    };
    if let Some(field) = oversized_field(&raw) {
        return rejected_launcher(
            IdentityWarning::LauncherFieldTooLarge { field: field.to_owned() },
        );
    }
    let warnings: Vec<IdentityWarning> = Vec::new();
    assert(findings(warnings@) =~= Seq::<IdentityFinding>::empty());
    let executable_path = ReportedPath::from_os_str(
        raw.executable_path.as_str(),
        PathEncoding::Utf8,
    );
    ParsedLauncherIdentity {
        identity: Some(
            LauncherIdentity {
                wrapper: launcher_package_identity(raw.wrapper),
                platform: launcher_package_identity(raw.platform),
                executable_path,
            },
        ),
        warnings,
    }
}

/// Where the mark `.r` stands last in a source version.
pub open spec fn build_mark(source: Seq<char>) -> Option<int> {
    text::last_at(source, ".r"@, source.len())
}

/// What stands before the mark `.r`, or the whole where there is no mark.
pub open spec fn version_part(source: Seq<char>) -> Seq<char> {
    match build_mark(source) {
        Some(i) => source.take(i),
        None => source,
    }
}

/// What stands behind the mark `.r`, where anything does.
pub open spec fn build_part(source: Seq<char>) -> Option<Seq<char>> {
    match build_mark(source) {
        Some(i) => if i + 2 < source.len() {
            Some(source.skip(i + 2))
        } else {
            None
        },
        None => None,
    }
}

/// Whether the mark `.r`, where it is there, has anything behind it.
pub open spec fn suffix_is_valid(source: Seq<char>) -> bool {
    build_mark(source) is Some ==> build_part(source) is Some
}

/// The semantic version in a source version: none where the mark has nothing
/// behind it.
pub open spec fn source_version(source: Seq<char>) -> Option<SemVerParts> {
    if suffix_is_valid(source) {
        version::semver_parts(version_part(source))
    } else {
        None
    }
}

/// A version's text, where there is a version.
pub open spec fn shown(v: Option<SemVerParts>) -> Option<Seq<char>> {
    match v {
        Some(v) => Some(version::version_text(v)),
        None => None,
    }
}

/// The parts of a version, where there is one.
pub open spec fn parts(v: Option<SemVer>) -> Option<SemVerParts> {
    match v {
        Some(v) => Some(v@),
        None => None,
    }
}

impl SourceVersionIdentity {
    /// Whether these are the parts of `source`, in which the semantic version is
    /// `version`.
    pub open spec fn describes(self, source: Seq<char>, version: Option<SemVerParts>) -> bool {
        &&& self.source@ == source
        &&& text::opt_text(self.version) == shown(version)
        &&& text::opt_text(self.build) == build_part(source)
    }
}

/// What stands in a source version where its semantic version is expected, and
/// what stands where its build is.
pub struct SplitSource {
    /// What stands before the mark `.r`, or the whole where there is no mark.
    pub version: String,
    /// What stands behind the mark, where anything does.
    pub build: Option<String>,
    /// Whether the mark, where it is there, has anything behind it.
    pub suffix_is_valid: bool,
}

/// A source version, split at its last mark `.r`.
pub fn split_source_version(source: &str) -> (r: SplitSource)
    ensures
        r.version@ == version_part(source@),
        text::opt_text(r.build) == build_part(source@),
        r.suffix_is_valid == suffix_is_valid(source@),
{
    let chars = text::chars_of(source);
    let mark = text::chars_of(".r");
    proof {
        reveal_strlit(".r");
    }
    match text::find_last(chars.as_slice(), mark.as_slice()) {
        Some(i) => {
            let version = text::cut(chars.as_slice(), 0, i);
            assert(version@ =~= source@.take(i as int));
            let n: usize = chars.len();
            if n - i > 2 {
                let build = text::cut(chars.as_slice(), i + 2, n);
                assert(build@ =~= source@.skip(i + 2));
                SplitSource { version, build: Some(build), suffix_is_valid: true }
            } else {
                SplitSource { version, build: None, suffix_is_valid: false }
            }
        },
        None => SplitSource { version: source.to_owned(), build: None, suffix_is_valid: true },
    }
}

fn shown_version(v: &Option<SemVer>) -> (r: Option<String>)
    ensures
        text::opt_text(r) == shown(parts(*v)),
{
    match v {
        Some(v) => Some(v.to_text()),
        None => None,
    }
}

/// The parts of a source version, and the semantic version in it.
pub fn parse_source_version(source: &str) -> (r: (SourceVersionIdentity, Option<SemVer>))
    ensures
        parts(r.1) == source_version(source@),
        r.0.describes(source@, source_version(source@)),
{
    let split = split_source_version(source);
    let parsed: Option<SemVer> = if split.suffix_is_valid {
        version::read_version(split.version.as_str())
    } else {
        None
    };
    let identity = SourceVersionIdentity {
        source: source.to_owned(),
        version: shown_version(&parsed),
        build: split.build,
    };
    (identity, parsed)
}

/// What came of reading an optional version.
#[derive(Debug)]
pub enum VersionReading {
    /// There is no version.
    Absent,
    /// There is a text, but it is no version.
    Unreadable,
    /// There is a version.
    Read(SemVer),
}

/// What came of reading an optional version, as plain values.
pub enum VersionFact {
    /// There is no version.
    Absent,
    /// There is a text, but it is no version.
    Unreadable,
    /// There is a version.
    Read(SemVerParts),
}

impl View for VersionReading {
    type V = VersionFact;

    open spec fn view(&self) -> VersionFact {
        match *self {
            VersionReading::Absent => VersionFact::Absent,
            VersionReading::Unreadable => VersionFact::Unreadable,
            VersionReading::Read(v) => VersionFact::Read(v@),
        }
    }
}

impl VersionFact {
    /// The version, where there is one.
    pub open spec fn known(self) -> Option<SemVerParts> {
        match self {
            VersionFact::Read(v) => Some(v),
            _ => None,
        }
    }

    /// Whether there is a version and it differs from `native`.
    pub open spec fn differs(self, native: SemVerParts) -> bool {
        self matches VersionFact::Read(v) && v != native
    }
}

/// What comes of reading `version`.
pub open spec fn reading_of(version: Option<String>) -> VersionFact {
    match version {
        None => VersionFact::Absent,
        Some(v) => match version::semver_parts(v@) {
            None => VersionFact::Unreadable,
            Some(p) => VersionFact::Read(p),
        },
    }
}

/// What comes of reading `version`.
pub fn read_optional_version(version: &Option<String>) -> (r: VersionReading)
    ensures
        r@ == reading_of(*version),
{
    match version {
        None => VersionReading::Absent,
        Some(v) => match version::read_version(v.as_str()) {
            None => VersionReading::Unreadable,
            Some(p) => VersionReading::Read(p),
        },
    }
}

/// The remarks on the versions of the launcher's packages, where the version of
/// the executable is `native`.
pub open spec fn package_findings(
    wrapper: VersionFact,
    platform: VersionFact,
    native: Option<SemVerParts>,
) -> Seq<IdentityFinding> {
    noted(
        wrapper is Unreadable,
        IdentityFinding::MalformedVersion { component: "wrapper.version"@ },
    ) + noted(
        platform is Unreadable,
        IdentityFinding::MalformedVersion { component: "platform.version"@ },
    ) + (match native {
        Some(native) => noted(
            wrapper.differs(native) || platform.differs(native),
            IdentityFinding::VersionMismatch {
                native: version::version_text(native),
                wrapper: shown(wrapper.known()),
                platform: shown(platform.known()),
            },
        ),
        None => Seq::empty(),
    })
}

/// All remarks on an installation, in the order in which they are made: on the
/// launcher metadata, on the two source versions, on the launcher's packages.
pub open spec fn installation_findings(
    launcher_findings: Seq<IdentityFinding>,
    mcp: Option<SemVerParts>,
    hyper_rust_api: Option<SemVerParts>,
    packages: Option<(VersionFact, VersionFact)>,
) -> Seq<IdentityFinding> {
    launcher_findings + noted(
        mcp is None,
        IdentityFinding::MalformedVersion { component: "mcp.version"@ },
    ) + noted(
        hyper_rust_api is None,
        IdentityFinding::MalformedVersion { component: "hyper_rust_api.version"@ },
    ) + (match packages {
        Some((wrapper, platform)) => package_findings(wrapper, platform, mcp),
        None => Seq::empty(),
    })
}

/// What comes of reading the versions of the launcher's packages.
pub open spec fn package_readings(launcher: Option<LauncherIdentity>) -> Option<
    (VersionFact, VersionFact),
> {
    match launcher {
        Some(l) => Some((reading_of(l.wrapper.version), reading_of(l.platform.version))),
        None => None,
    }
}

fn note(warnings: &mut Vec<IdentityWarning>, warning: IdentityWarning)
    ensures
        findings(final(warnings)@) == findings(old(warnings)@) + seq![warning@],
{
    warnings.push(warning);
    assert(findings(warnings@) =~= findings(old(warnings)@) + seq![warning@]);
}

fn note_malformed(warnings: &mut Vec<IdentityWarning>, malformed: bool, component: &str)
    ensures
        findings(final(warnings)@) == findings(old(warnings)@) + noted(
            malformed,
            IdentityFinding::MalformedVersion { component: component@ },
        ),
{
    if malformed {
        note(warnings, IdentityWarning::MalformedVersion { component: component.to_owned() });
    } else {
        assert(findings(warnings@) =~= findings(old(warnings)@) + Seq::empty());
    }
}

fn version_differs(v: &VersionReading, native: &SemVer) -> (r: bool)
    ensures
        r == v@.differs(native@),
{
    match v {
        VersionReading::Read(v) => !version::same_version(v, native),
        _ => false,
    }
}

fn known_version(v: &VersionReading) -> (r: Option<String>)
    ensures
        text::opt_text(r) == shown(v@.known()),
{
    match v {
        VersionReading::Read(v) => Some(v.to_text()),
        _ => None,
    }
}

fn note_packages(
    wrapper: &VersionReading,
    platform: &VersionReading,
    native: &Option<SemVer>,
    warnings: &mut Vec<IdentityWarning>,
)
    ensures
        findings(final(warnings)@) == findings(old(warnings)@) + package_findings(
            wrapper@,
            platform@,
            parts(*native),
        ),
{
    let ghost start = findings(warnings@);
    let wrapper_unreadable = matches!(wrapper, VersionReading::Unreadable);
    let platform_unreadable = matches!(platform, VersionReading::Unreadable);
    note_malformed(warnings, wrapper_unreadable, "wrapper.version");
    note_malformed(warnings, platform_unreadable, "platform.version");
    let ghost made = noted(
        wrapper@ is Unreadable,
        IdentityFinding::MalformedVersion { component: "wrapper.version"@ },
    ) + noted(
        platform@ is Unreadable,
        IdentityFinding::MalformedVersion { component: "platform.version"@ },
    );
    assert(findings(warnings@) =~= start + made);
    if let Some(native_version) = native {
        if version_differs(wrapper, native_version) || version_differs(platform, native_version) {
            let warning = IdentityWarning::VersionMismatch {
                native: native_version.to_text(),
                wrapper: known_version(wrapper),
                platform: known_version(platform),
            };
            note(warnings, warning);
            assert(findings(warnings@) =~= start + (made + seq![warning@]));
        } else {
            assert(start + made =~= start + (made + Seq::empty()));
        }
    } else {
        assert(start + made =~= start + (made + Seq::empty()));
    }
}

/// All remarks on an installation, once its versions have been read: `packages`
/// are the versions of the launcher's packages, where the launcher metadata was
/// accepted.
pub fn installation_remarks(
    launcher_warnings: Vec<IdentityWarning>,
    mcp: &Option<SemVer>,
    hyper_rust_api: &Option<SemVer>,
    packages: &Option<(VersionReading, VersionReading)>,
) -> (r: Vec<IdentityWarning>)
    ensures
        findings(r@) == installation_findings(
            findings(launcher_warnings@),
            parts(*mcp),
            parts(*hyper_rust_api),
            match *packages {
                Some((wrapper, platform)) => Some((wrapper@, platform@)),
                None => None,
            },
        ),
{
    let mut warnings = launcher_warnings;
    note_malformed(&mut warnings, mcp.is_none(), "mcp.version");
    note_malformed(&mut warnings, hyper_rust_api.is_none(), "hyper_rust_api.version");
    match packages {
        Some((wrapper, platform)) => {
            note_packages(wrapper, platform, mcp, &mut warnings);
        },
        None => {
            assert(findings(warnings@) =~= findings(warnings@) + Seq::empty());
        },
    }
    warnings
}

/// The identity of an installation, from the facts that this process knows of
/// itself and the launcher metadata.
pub fn installation_identity_from_parts(
    native_executable: ReportedPath,
    mcp_version: &str,
    hyper_rust_api_version: &str,
    launcher_info: Option<LauncherInfo>,
) -> (r: InstallationIdentity)
    ensures
        r.native_executable == native_executable,
        r.mcp.describes(mcp_version@, source_version(mcp_version@)),
        r.hyper_rust_api.describes(
            hyper_rust_api_version@,
            source_version(hyper_rust_api_version@),
        ),
        is_accepted_of(r.launcher, launcher_info),
        findings(r.warnings@) == installation_findings(
            launcher_findings(launcher_info),
            source_version(mcp_version@),
            source_version(hyper_rust_api_version@),
            package_readings(r.launcher),
        ),
{
    let parsed = parse_launcher_identity(launcher_info);
    let (mcp, native_version) = parse_source_version(mcp_version);
    let (hyper_rust_api, hyper_version) = parse_source_version(hyper_rust_api_version);
    let packages = match &parsed.identity {
        Some(launcher) => Some(
            (
                read_optional_version(&launcher.wrapper.version),
                read_optional_version(&launcher.platform.version),
            ),
        ),
        None => None,
    };
    let warnings = installation_remarks(
        parsed.warnings,
        &native_version,
        &hyper_version,
        &packages,
    );
    InstallationIdentity {
        native_executable,
        mcp,
        hyper_rust_api,
        launcher: parsed.identity,
        warnings,
    }
}

/// No report holds more of a path than the limit allows.
pub proof fn law_reported_path_is_bounded(
    path: ReportedPath,
    display: Seq<char>,
    encoding: PathEncoding,
)
    requires
        path.shows(display, encoding),
    ensures
        text::byte_len(path.display@) <= MAX_REPORTED_STRING_BYTES,
        text::byte_len(display) <= MAX_REPORTED_STRING_BYTES ==> path.display@ == display,
{
    text::lemma_truncated(display, MAX_REPORTED_STRING_BYTES as nat);
}

/// Launcher metadata is accepted as a whole or not at all, and every refusal is
/// explained by one remark.
pub proof fn law_launcher_all_or_nothing(
    parsed: ParsedLauncherIdentity,
    value: Option<LauncherInfo>,
)
    requires
        is_accepted_of(parsed.identity, value),
        findings(parsed.warnings@) == launcher_findings(value),
    ensures
        value is None ==> parsed.identity is None && parsed.warnings@.len() == 0,
        value is Some ==> (parsed.identity is None <==> parsed.warnings@.len() == 1),
        parsed.identity is Some ==> parsed.warnings@.len() == 0,
{
    assert(findings(parsed.warnings@).len() == parsed.warnings@.len());
}

/// What was accepted from the launcher is shown unshortened.
pub proof fn law_accepted_launcher_is_exact(identity: LauncherIdentity, info: LauncherInfo)
    requires
        is_accepted_of(Some(identity), Some(info)),
    ensures
        info.content is Some,
        identity.executable_path.display@ == info.content->0.executable_path@,
        identity.wrapper.package_path.display@ == info.content->0.wrapper.package_path@,
        identity.platform.package_path.display@ == info.content->0.platform.package_path@,
{
    let raw = info.content->0;
    text::lemma_truncated(raw.executable_path@, MAX_REPORTED_STRING_BYTES as nat);
    text::lemma_truncated(raw.wrapper.package_path@, MAX_REPORTED_STRING_BYTES as nat);
    text::lemma_truncated(raw.platform.package_path@, MAX_REPORTED_STRING_BYTES as nat);
}

/// Launcher metadata is refused for the first field that is longer than 4 KiB, in this order.
pub proof fn law_first_oversized_field(raw: RawLauncherIdentity)
    ensures
        ({
            let long = |s: Seq<char>| text::byte_len(s) > 4096;
            let opt_long = |s: Option<String>| s is Some && text::byte_len(s->0@) > 4096;
            let a = long(raw.wrapper.name@);
            let b = opt_long(raw.wrapper.version);
            let c = long(raw.wrapper.package_path@);
            let d = long(raw.platform.name@);
            let e = opt_long(raw.platform.version);
            let f = long(raw.platform.package_path@);
            let g = long(raw.executable_path@);
            &&& a ==> first_oversized(raw) == Some("wrapper.name"@)
            &&& !a && b ==> first_oversized(raw) == Some("wrapper.version"@)
            &&& !a && !b && c ==> first_oversized(raw) == Some("wrapper.package_path"@)
            &&& !a && !b && !c && d ==> first_oversized(raw) == Some("platform.name"@)
            &&& !a && !b && !c && !d && e ==> first_oversized(raw) == Some("platform.version"@)
            &&& !a && !b && !c && !d && !e && f ==> first_oversized(raw) == Some(
                "platform.package_path"@,
            )
            &&& !a && !b && !c && !d && !e && !f && g ==> first_oversized(raw) == Some(
                "executable_path"@,
            )
            &&& !a && !b && !c && !d && !e && !f && !g ==> first_oversized(raw) is None
        }),
{
}

/// Launcher metadata is refused where it is longer than 16 KiB, where it cannot be read, or
/// where a field of it is too long, in this order; any other is accepted.
pub proof fn law_refused_launchers(info: LauncherInfo)
    ensures
        info.byte_length > 16384 ==> launcher_rejection(info) == Some(
            IdentityFinding::LauncherInfoTooLarge,
        ),
        info.byte_length <= 16384 && info.content is None ==> launcher_rejection(info) == Some(
            IdentityFinding::MalformedLauncherInfo,
        ),
        info.byte_length <= 16384 ==> (info.content matches Some(raw) ==> {
            &&& first_oversized(raw) matches Some(field) ==> launcher_rejection(info) == Some(
                IdentityFinding::LauncherFieldTooLarge { field },
            )
            &&& first_oversized(raw) is None ==> launcher_rejection(info) is None
        }),
        launcher_findings(None).len() == 0,
        launcher_rejection(info) matches Some(finding) ==> launcher_findings(Some(info)) == seq![
            finding,
        ],
        launcher_rejection(info) is None ==> launcher_findings(Some(info)).len() == 0,
{
}

/// Accepted launcher metadata is taken over field by field.
pub proof fn law_accepted_fields(identity: LauncherIdentity, raw: RawLauncherIdentity)
    requires
        is_identity_of(identity, raw),
    ensures
        identity.wrapper.name@ == raw.wrapper.name@,
        text::opt_text(identity.wrapper.version) == text::opt_text(raw.wrapper.version),
        identity.wrapper.package_path.display@ == text::truncated(raw.wrapper.package_path@, 4096),
        identity.platform.name@ == raw.platform.name@,
        text::opt_text(identity.platform.version) == text::opt_text(raw.platform.version),
        identity.platform.package_path.display@ == text::truncated(raw.platform.package_path@, 4096),
        identity.executable_path.display@ == text::truncated(raw.executable_path@, 4096),
        identity.wrapper.package_path.encoding == PathEncoding::Utf8,
        identity.platform.package_path.encoding == PathEncoding::Utf8,
        identity.executable_path.encoding == PathEncoding::Utf8,
{
}

/// A version may be followed by `.r` and the revision it was built from: the last `.r`
/// counts, and a revision has to follow it.
pub proof fn law_versions_and_revisions(version: Seq<char>, build: Seq<char>, source: Seq<char>)
    requires
        !text::has_part(build, seq!['.', 'r']),
    ensures
        version_part(version + seq!['.', 'r'] + build) == version,
        build.len() > 0 ==> build_part(version + seq!['.', 'r'] + build) == Some(build)
            && suffix_is_valid(version + seq!['.', 'r'] + build),
        build.len() == 0 ==> build_part(version + seq!['.', 'r'] + build) is None
            && !suffix_is_valid(version + seq!['.', 'r'] + build) && source_version(
            version + seq!['.', 'r'] + build,
        ) is None,
        !text::has_part(source, seq!['.', 'r']) ==> version_part(source) == source && build_part(
            source,
        ) is None && suffix_is_valid(source),
        suffix_is_valid(source) ==> source_version(source) == version::semver_parts(
            version_part(source),
        ),
{
    lemma_build_mark(version, build);
    if !text::has_part(source, seq!['.', 'r']) {
        lemma_no_build_mark(source);
    }
    let whole = version + seq!['.', 'r'] + build;
    let at = version.len() as int;
    assert(whole.take(at) =~= version);
    assert(whole.skip(at + 2) =~= build);
}

proof fn lemma_mark_stands(version: Seq<char>, build: Seq<char>)
    ensures
        text::part_at(
            version + seq!['.', 'r'] + build,
            seq!['.', 'r'],
            version.len() as int,
        ),
{
    let whole = version + seq!['.', 'r'] + build;
    let at = version.len() as int;
    assert(whole.subrange(at, at + 2) =~= seq!['.', 'r']);
}

proof fn lemma_mark_text()
    ensures
        ".r"@ == seq!['.', 'r'],
{
    reveal_strlit(".r");
    assert(".r"@ =~= seq!['.', 'r']);
}

proof fn lemma_build_mark(version: Seq<char>, build: Seq<char>)
    requires
        !text::has_part(build, seq!['.', 'r']),
    ensures
        build_mark(version + seq!['.', 'r'] + build) == Some(version.len() as int),
{
    let mark = seq!['.', 'r'];
    let whole = version + mark + build;
    let at = version.len() as int;
    lemma_mark_text();
    lemma_mark_stands(version, build);
    assert forall|j: int| at < j implies !#[trigger] text::part_at(whole, mark, j) by {
        lemma_no_later_mark(version, build, j);
    }
    text::lemma_last_is(whole, mark, at);
}

proof fn lemma_no_later_mark(version: Seq<char>, build: Seq<char>, j: int)
    requires
        !text::has_part(build, seq!['.', 'r']),
        version.len() < j,
    ensures
        !text::part_at(version + seq!['.', 'r'] + build, seq!['.', 'r'], j),
{
    let mark = seq!['.', 'r'];
    let whole = version + mark + build;
    if text::part_at(whole, mark, j) {
        assert(whole.subrange(j, j + 2)[0] == whole[j]);
        if j == version.len() + 1 {
            assert(whole[j] == 'r');
        } else {
            let k = j - version.len() - 2;
            assert(build.subrange(k, k + 2) =~= whole.subrange(j, j + 2));
            assert(text::part_at(build, mark, k));
        }
    }
}

proof fn lemma_no_build_mark(source: Seq<char>)
    requires
        !text::has_part(source, seq!['.', 'r']),
    ensures
        build_mark(source) is None,
{
    reveal_strlit(".r");
    let mark = seq!['.', 'r'];
    assert(".r"@ =~= mark);
    text::law_last_place(source, mark, source.len());
    if let Some(i) = build_mark(source) {
        assert(text::part_at(source, mark, i));
    }
}

/// What a package says of its version: nothing, something that cannot be read, or a version.
pub proof fn law_package_versions(version: String)
    ensures
        reading_of(None) == VersionFact::Absent,
        version::semver_parts(version@) is None ==> reading_of(Some(version))
            == VersionFact::Unreadable,
        version::semver_parts(version@) matches Some(p) ==> reading_of(Some(version))
            == VersionFact::Read(p),
{
}

/// What is odd about the versions of an installation: one that cannot be read is named, and
/// packages that can be read but differ from the program are told with all three versions.
pub proof fn law_odd_versions(wrapper: VersionFact, platform: VersionFact, native: SemVerParts)
    ensures
        ({
            let found = package_findings(wrapper, platform, Some(native));
            let odd_wrapper = IdentityFinding::MalformedVersion { component: "wrapper.version"@ };
            let odd_platform = IdentityFinding::MalformedVersion { component: "platform.version"@ };
            let differs = (wrapper is Read && wrapper->Read_0 != native) || (platform is Read
                && platform->Read_0 != native);
            let known = |v: VersionFact|
                match v {
                    VersionFact::Read(p) => Some(version::version_text(p)),
                    _ => None,
                };
            let mismatch = IdentityFinding::VersionMismatch {
                native: version::version_text(native),
                wrapper: known(wrapper),
                platform: known(platform),
            };
            &&& !(wrapper is Unreadable) && !(platform is Unreadable) && !differs ==> found.len()
                == 0
            &&& !(wrapper is Unreadable) && !(platform is Unreadable) && differs ==> found == seq![
                mismatch,
            ]
            &&& wrapper is Unreadable && platform is Unreadable ==> found == seq![
                odd_wrapper,
                odd_platform,
            ]
            &&& wrapper is Unreadable && !(platform is Unreadable) && !differs ==> found == seq![
                odd_wrapper,
            ]
            &&& wrapper is Unreadable && differs ==> found == seq![odd_wrapper, mismatch]
            &&& !(wrapper is Unreadable) && platform is Unreadable && !differs ==> found == seq![
                odd_platform,
            ]
            &&& platform is Unreadable && differs ==> found == seq![odd_platform, mismatch]
            &&& package_findings(wrapper, platform, None) == noted(
                wrapper is Unreadable,
                odd_wrapper,
            ) + noted(platform is Unreadable, odd_platform)
        }),
{
    let found = package_findings(wrapper, platform, Some(native));
    let odd_wrapper = IdentityFinding::MalformedVersion { component: "wrapper.version"@ };
    let odd_platform = IdentityFinding::MalformedVersion { component: "platform.version"@ };
    let differs = (wrapper is Read && wrapper->Read_0 != native) || (platform is Read
        && platform->Read_0 != native);
    let known = |v: VersionFact|
        match v {
            VersionFact::Read(p) => Some(version::version_text(p)),
            _ => None,
        };
    let mismatch = IdentityFinding::VersionMismatch {
        native: version::version_text(native),
        wrapper: known(wrapper),
        platform: known(platform),
    };
    assert(shown(wrapper.known()) == known(wrapper));
    assert(shown(platform.known()) == known(platform));
    assert(found == noted(wrapper is Unreadable, odd_wrapper) + noted(
        platform is Unreadable,
        odd_platform,
    ) + noted(differs, mismatch));
    assert(!(wrapper is Unreadable) && !(platform is Unreadable) && differs ==> found =~= seq![
        mismatch,
    ]);
    assert(wrapper is Unreadable && platform is Unreadable ==> found =~= seq![
        odd_wrapper,
        odd_platform,
    ]);
    assert(wrapper is Unreadable && !(platform is Unreadable) && !differs ==> found =~= seq![
        odd_wrapper,
    ]);
    assert(wrapper is Unreadable && differs ==> found =~= seq![odd_wrapper, mismatch]);
    assert(!(wrapper is Unreadable) && platform is Unreadable && !differs ==> found =~= seq![
        odd_platform,
    ]);
    assert(platform is Unreadable && differs ==> found =~= seq![odd_platform, mismatch]);
    assert(package_findings(wrapper, platform, None) =~= noted(wrapper is Unreadable, odd_wrapper)
        + noted(platform is Unreadable, odd_platform));
}

/// What is odd about an installation, in this order: its launcher, its own two versions and
/// those of its packages.
pub proof fn law_odd_installations(
    launcher: Seq<IdentityFinding>,
    mcp: Option<SemVerParts>,
    hyper_rust_api: Option<SemVerParts>,
    wrapper: VersionFact,
    platform: VersionFact,
)
    ensures
        installation_findings(launcher, mcp, hyper_rust_api, None) == launcher + (if mcp is None {
            seq![IdentityFinding::MalformedVersion { component: "mcp.version"@ }]
        } else {
            Seq::empty()
        }) + (if hyper_rust_api is None {
            seq![IdentityFinding::MalformedVersion { component: "hyper_rust_api.version"@ }]
        } else {
            Seq::empty()
        }),
        installation_findings(launcher, mcp, hyper_rust_api, Some((wrapper, platform)))
            == installation_findings(launcher, mcp, hyper_rust_api, None) + package_findings(
            wrapper,
            platform,
            mcp,
        ),
{
    assert(installation_findings(launcher, mcp, hyper_rust_api, None) =~= launcher + (if mcp is None {
        seq![IdentityFinding::MalformedVersion { component: "mcp.version"@ }]
    } else {
        Seq::empty()
    }) + (if hyper_rust_api is None {
        seq![IdentityFinding::MalformedVersion { component: "hyper_rust_api.version"@ }]
    } else {
        Seq::empty()
    }));
    assert(installation_findings(launcher, mcp, hyper_rust_api, Some((wrapper, platform)))
        =~= installation_findings(launcher, mcp, hyper_rust_api, None) + package_findings(
        wrapper,
        platform,
        mcp,
    ));
}

/// What is known of a version that was built from source: its text, its version as it is
/// written, and its revision.
pub proof fn law_described_versions(
    v: SourceVersionIdentity,
    source: Seq<char>,
    version: Option<SemVerParts>,
)
    requires
        v.describes(source, version),
    ensures
        v.source@ == source,
        version matches Some(p) ==> (v.version matches Some(t) && t@ == version::version_text(p)),
        version is None ==> v.version is None,
        text::opt_text(v.build) == build_part(source),
{
}

/// Two reported paths are alike if and only if they show the same and were read alike; both
/// versions of a launcher's packages are read.
pub proof fn law_alike_paths(a: ReportedPath, b: ReportedPath, launcher: LauncherIdentity)
    ensures
        a.alike(b) <==> a.display@ == b.display@ && a.encoding == b.encoding,
        package_readings(Some(launcher)) == Some(
            (reading_of(launcher.wrapper.version), reading_of(launcher.platform.version)),
        ),
        package_readings(None) is None,
{
}

/// A warning tells what was found, in its own words.
pub proof fn law_warnings_tell_findings(
    field: String,
    native: String,
    wrapper: Option<String>,
    platform: Option<String>,
)
    ensures
        IdentityWarning::MalformedLauncherInfo@ == IdentityFinding::MalformedLauncherInfo,
        IdentityWarning::LauncherInfoTooLarge@ == IdentityFinding::LauncherInfoTooLarge,
        (IdentityWarning::LauncherFieldTooLarge { field })@
            == (IdentityFinding::LauncherFieldTooLarge { field: field@ }),
        (IdentityWarning::MalformedVersion { component: field })@
            == (IdentityFinding::MalformedVersion { component: field@ }),
        (IdentityWarning::VersionMismatch { native, wrapper, platform })@
            == (IdentityFinding::VersionMismatch {
            native: native@,
            wrapper: text::opt_text(wrapper),
            platform: text::opt_text(platform),
        }),
{
}

/// A reading tells whether there is a version, and which.
pub proof fn law_readings_tell_versions(v: SemVer)
    ensures
        VersionReading::Absent@ == VersionFact::Absent,
        VersionReading::Unreadable@ == VersionFact::Unreadable,
        VersionReading::Read(v)@ == VersionFact::Read(v@),
{
}

} // verus!
