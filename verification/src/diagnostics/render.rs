//! The report as text for a person at a terminal.

use vstd::prelude::*;

use crate::diagnostics::daemon::DoctorDaemonState;
use crate::diagnostics::identity::{
    LauncherIdentity, LauncherPackageIdentity, PathEncoding, ReportedPath,
};
use crate::diagnostics::identity;
use crate::diagnostics::report::{
    DoctorConfigurationReport, DoctorDaemonSection, DoctorInstallationReport, DoctorPathFacts,
    DoctorReport, DoctorToolCatalogReport, DoctorWarning, PersistentDbPathSource, PersistentMode,
};
use crate::text;

verus! {

/// Whether a terminal takes `c` for a command.
pub open spec fn is_control(c: char) -> bool {
    c as int <= 0x1f || c as int == 0x7f
}

/// A character as it is shown: its number where a terminal would take it for a
/// command.
pub open spec fn escaped_char(c: char) -> Seq<char> {
    if is_control(c) {
        "\\u{"@ + text::hexadecimal(c as int as nat) + "}"@
    } else {
        seq![c]
    }
}

/// The characters of `s` as they are shown.
pub open spec fn escaped_chars(s: Seq<char>) -> Seq<char>
    decreases s.len(),
{
    if s.len() == 0 {
        Seq::empty()
    } else {
        escaped_chars(s.drop_last()) + escaped_char(s.last())
    }
}

/// A text as it is shown, cut to the length that a report allows.
pub open spec fn escaped(s: Seq<char>) -> Seq<char> {
    identity::bounded(escaped_chars(s))
}

/// A text as it is shown.
pub fn escape_human(value: &str) -> (r: String)
    ensures
        r@ == escaped(value@),
{
    let chars = text::chars_of(value);
    let mut out = String::new();
    let mut i: usize = 0;
    while i < chars.len()
        invariant
            chars@ == value@,
            i <= chars@.len(),
            out@ == escaped_chars(value@.take(i as int)),
        decreases chars@.len() - i,
    {
        let c = chars[i];
        let n: u32 = text::code_point(c);
        proof {
            assert(value@.take(i + 1).drop_last() =~= value@.take(i as int));
        }
        if n <= 0x1f || n == 0x7f {
            let hex = text::hexadecimal_text(n as u64);
            let shown = text::cat3("\\u{", hex.as_str(), "}");
            out.append(shown.as_str());
        } else {
            out.push(c);
            assert(out@ =~= escaped_chars(value@.take(i as int)) + seq![c]);
        }
        i = i + 1;
    }
    assert(value@.take(value@.len() as int) =~= value@);
    identity::bounded_string(out.as_str())
}

/// A line that names a value.
pub open spec fn line(label: Seq<char>, value: Seq<char>) -> Seq<char> {
    label + ": "@ + value + "\n"@
}

fn push_line(out: &mut String, label: &str, value: &str)
    ensures
        final(out)@ == old(out)@ + line(label@, value@),
{
    let l = text::cat4(label, ": ", value, "\n");
    out.append(l.as_str());
}

/// How a path's encoding is called.
pub open spec fn encoding_word(e: PathEncoding) -> Seq<char> {
    match e {
        PathEncoding::Utf8 => "utf8"@,
        PathEncoding::Lossy => "lossy"@,
    }
}

fn encoding_text(e: PathEncoding) -> (r: &'static str)
    ensures
        r@ == encoding_word(e),
{
    match e {
        PathEncoding::Utf8 => "utf8",
        PathEncoding::Lossy => "lossy",
    }
}

/// The line for a path.
pub open spec fn path_line(label: Seq<char>, path: ReportedPath) -> Seq<char> {
    line(
        "  "@ + label,
        escaped(path.display@) + " (encoding: "@ + encoding_word(path.encoding) + ")"@,
    )
}

/// The line for a path and what is found there.
pub open spec fn path_facts_line(label: Seq<char>, facts: DoctorPathFacts) -> Seq<char> {
    line(
        "  "@ + label,
        escaped(facts.path.display@) + " (encoding: "@ + encoding_word(facts.path.encoding)
            + "; exists: "@ + text::bool_word(facts.exists) + "; file: "@ + text::bool_word(
            facts.is_file,
        ) + "; directory: "@ + text::bool_word(facts.is_directory) + ")"@,
    )
}

/// The line for a path that may not be known.
pub open spec fn opt_path_facts_line(label: Seq<char>, facts: Option<DoctorPathFacts>) -> Seq<char> {
    match facts {
        Some(f) => path_facts_line(label, f),
        None => line("  "@ + label, "unavailable"@),
    }
}

fn push_human_path(out: &mut String, label: &str, path: &ReportedPath)
    ensures
        final(out)@ == old(out)@ + path_line(label@, *path),
{
    let shown = escape_human(path.display.as_str());
    let value = text::cat4(shown.as_str(), " (encoding: ", encoding_text(path.encoding), ")");
    let indented = text::cat2("  ", label);
    push_line(out, indented.as_str(), value.as_str());
}

fn push_human_path_facts(out: &mut String, label: &str, facts: &DoctorPathFacts)
    ensures
        final(out)@ == old(out)@ + path_facts_line(label@, *facts),
{
    let shown = escape_human(facts.path.display.as_str());
    let first = text::cat4(
        shown.as_str(),
        " (encoding: ",
        encoding_text(facts.path.encoding),
        "; exists: ",
    );
    let value = text::cat7(
        first.as_str(),
        text::bool_text(facts.exists),
        "; file: ",
        text::bool_text(facts.is_file),
        "; directory: ",
        text::bool_text(facts.is_directory),
        ")",
    );
    let indented = text::cat2("  ", label);
    push_line(out, indented.as_str(), value.as_str());
}

fn push_optional_human_path_facts(out: &mut String, label: &str, facts: &Option<DoctorPathFacts>)
    ensures
        final(out)@ == old(out)@ + opt_path_facts_line(label@, *facts),
{
    match facts {
        Some(f) => push_human_path_facts(out, label, f),
        None => {
            let indented = text::cat2("  ", label);
            push_line(out, indented.as_str(), "unavailable");
        },
    }
}

/// How the mode of the persistent database is called.
pub open spec fn mode_word(mode: PersistentMode) -> Seq<char> {
    match mode {
        PersistentMode::PersistentAttached => "persistent_attached"@,
        PersistentMode::EphemeralOnly => "ephemeral_only"@,
    }
}

fn persistent_mode_label(mode: PersistentMode) -> (r: &'static str)
    ensures
        r@ == mode_word(mode),
{
    match mode {
        PersistentMode::PersistentAttached => "persistent_attached",
        PersistentMode::EphemeralOnly => "ephemeral_only",
    }
}

/// How the source of the persistent path is called.
pub open spec fn source_word(source: PersistentDbPathSource) -> Seq<char> {
    match source {
        PersistentDbPathSource::Cli => "cli"@,
        PersistentDbPathSource::DeprecatedAlias => "deprecated_alias"@,
        PersistentDbPathSource::Environment => "environment"@,
        PersistentDbPathSource::PlatformDefault => "platform_default"@,
        PersistentDbPathSource::Disabled => "disabled"@,
    }
}

fn persistent_source_label(source: PersistentDbPathSource) -> (r: &'static str)
    ensures
        r@ == source_word(source),
{
    match source {
        PersistentDbPathSource::Cli => "cli",
        PersistentDbPathSource::DeprecatedAlias => "deprecated_alias",
        PersistentDbPathSource::Environment => "environment",
        PersistentDbPathSource::PlatformDefault => "platform_default",
        PersistentDbPathSource::Disabled => "disabled",
    }
}

/// How the state of the daemon is called.
pub open spec fn state_word(state: DoctorDaemonState) -> Seq<char> {
    match state {
        DoctorDaemonState::Missing => "missing"@,
        DoctorDaemonState::Unreadable => "unreadable"@,
        DoctorDaemonState::Malformed => "malformed"@,
        DoctorDaemonState::ParsedUnreachable => "parsed_unreachable"@,
        DoctorDaemonState::LiveFromDiscovery => "live_from_discovery"@,
        DoctorDaemonState::LiveFromScan => "live_from_scan"@,
    }
}

fn daemon_state_label(state: DoctorDaemonState) -> (r: &'static str)
    ensures
        r@ == state_word(state),
{
    match state {
        DoctorDaemonState::Missing => "missing",
        DoctorDaemonState::Unreadable => "unreadable",
        DoctorDaemonState::Malformed => "malformed",
        DoctorDaemonState::ParsedUnreachable => "parsed_unreachable",
        DoctorDaemonState::LiveFromDiscovery => "live_from_discovery",
        DoctorDaemonState::LiveFromScan => "live_from_scan",
    }
}

/// The lines for a package of the launcher.
pub open spec fn package_lines(heading: Seq<char>, p: LauncherPackageIdentity) -> Seq<char> {
    heading + line("    Name"@, escaped(p.name@)) + line(
        "    Version"@,
        escaped(
            match p.version {
                Some(v) => v@,
                None => "unavailable"@,
            },
        ),
    ) + path_line("    Package path"@, p.package_path)
}

fn push_package(out: &mut String, heading: &str, p: &LauncherPackageIdentity)
    ensures
        final(out)@ == old(out)@ + package_lines(heading@, *p),
{
    let mut part = heading.to_owned();
    let name = escape_human(p.name.as_str());
    push_line(&mut part, "    Name", name.as_str());
    let version = escape_human(
        match &p.version {
            Some(v) => v.as_str(),
            None => "unavailable",
        },
    );
    push_line(&mut part, "    Version", version.as_str());
    push_human_path(&mut part, "    Package path", &p.package_path);
    out.append(part.as_str());
}

/// The lines for what the launcher reported.
pub open spec fn launcher_lines(launcher: Option<LauncherIdentity>) -> Seq<char> {
    match launcher {
        Some(l) => package_lines("  Launcher-reported wrapper:\n"@, l.wrapper) + package_lines(
            "  Launcher-reported platform:\n"@,
            l.platform,
        ) + path_line("  Launcher executable"@, l.executable_path),
        None => "  Launcher-reported metadata: absent\n"@,
    }
}

fn push_launcher(out: &mut String, launcher: &Option<LauncherIdentity>)
    ensures
        final(out)@ == old(out)@ + launcher_lines(*launcher),
{
    match launcher {
        Some(l) => {
            let mut part = String::new();
            push_package(&mut part, "  Launcher-reported wrapper:\n", &l.wrapper);
            assert(part@ =~= package_lines("  Launcher-reported wrapper:\n"@, l.wrapper));
            push_package(&mut part, "  Launcher-reported platform:\n", &l.platform);
            push_human_path(&mut part, "  Launcher executable", &l.executable_path);
            out.append(part.as_str());
        },
        None => out.append("  Launcher-reported metadata: absent\n"),
    }
}

/// The lines on the installation.
pub open spec fn installation_lines(i: DoctorInstallationReport) -> Seq<char> {
    "\nInstallation\n"@ + path_line("Native executable"@, i.native_executable) + line(
        "  MCP version"@,
        escaped(i.mcp_version.source@),
    ) + line("  Hyper Rust API version"@, escaped(i.hyper_rust_api_version.source@))
        + launcher_lines(i.launcher)
}

fn push_installation(out: &mut String, i: &DoctorInstallationReport)
    ensures
        final(out)@ == old(out)@ + installation_lines(*i),
{
    let mut part = "\nInstallation\n".to_owned();
    push_human_path(&mut part, "Native executable", &i.native_executable);
    let mcp = escape_human(i.mcp_version.source.as_str());
    push_line(&mut part, "  MCP version", mcp.as_str());
    let api = escape_human(i.hyper_rust_api_version.source.as_str());
    push_line(&mut part, "  Hyper Rust API version", api.as_str());
    push_launcher(&mut part, &i.launcher);
    out.append(part.as_str());
}

/// The lines on the configuration.
pub open spec fn configuration_lines(c: DoctorConfigurationReport) -> Seq<char> {
    "\nConfiguration\n"@ + line("  Persistent mode"@, mode_word(c.persistent_mode)) + line(
        "  Persistent path source"@,
        source_word(c.persistent_path_source),
    ) + (match c.observed_persistent_path {
        Some(path) => path_line("Observed persistent path"@, path),
        None => line("  Observed persistent path"@, "unavailable"@),
    }) + opt_path_facts_line("Resolved persistent path"@, c.resolved_persistent_path)
        + opt_path_facts_line("Resolved persistent parent"@, c.resolved_persistent_parent)
        + opt_path_facts_line("Daemon state directory"@, c.daemon_state_directory)
        + opt_path_facts_line("Daemon discovery file"@, c.daemon_discovery_file)
        + path_facts_line("Client log"@, c.client_log) + opt_path_facts_line(
        "Observed HYPERD_PATH"@,
        c.observed_hyperd_path,
    ) + opt_path_facts_line("Effective hyperd path"@, c.effective_hyperd_path)
        + opt_path_facts_line("Upward .hyperd/current candidate"@, c.upward_hyperd_candidate)
        + line("  Read only"@, text::bool_word(c.read_only)) + line(
        "  No daemon"@,
        text::bool_word(c.no_daemon),
    )
}

fn push_configuration(out: &mut String, c: &DoctorConfigurationReport)
    ensures
        final(out)@ == old(out)@ + configuration_lines(*c),
{
    let mut part = "\nConfiguration\n".to_owned();
    push_line(&mut part, "  Persistent mode", persistent_mode_label(c.persistent_mode));
    push_line(
        &mut part,
        "  Persistent path source",
        persistent_source_label(c.persistent_path_source),
    );
    match &c.observed_persistent_path {
        Some(path) => push_human_path(&mut part, "Observed persistent path", path),
        None => push_line(&mut part, "  Observed persistent path", "unavailable"),
    }
    push_optional_human_path_facts(
        &mut part,
        "Resolved persistent path",
        &c.resolved_persistent_path,
    );
    push_optional_human_path_facts(
        &mut part,
        "Resolved persistent parent",
        &c.resolved_persistent_parent,
    );
    push_optional_human_path_facts(&mut part, "Daemon state directory", &c.daemon_state_directory);
    push_optional_human_path_facts(&mut part, "Daemon discovery file", &c.daemon_discovery_file);
    push_human_path_facts(&mut part, "Client log", &c.client_log);
    push_optional_human_path_facts(&mut part, "Observed HYPERD_PATH", &c.observed_hyperd_path);
    push_optional_human_path_facts(&mut part, "Effective hyperd path", &c.effective_hyperd_path);
    push_optional_human_path_facts(
        &mut part,
        "Upward .hyperd/current candidate",
        &c.upward_hyperd_candidate,
    );
    push_line(&mut part, "  Read only", text::bool_text(c.read_only));
    push_line(&mut part, "  No daemon", text::bool_text(c.no_daemon));
    out.append(part.as_str());
}

/// The line for a number that may not be known: no line where it is not.
pub open spec fn opt_number_line(label: Seq<char>, n: Option<nat>) -> Seq<char> {
    match n {
        Some(n) => line(label, text::decimal(n)),
        None => Seq::empty(),
    }
}

/// The line for a text that may not be known: no line where it is not.
pub open spec fn opt_text_line(label: Seq<char>, s: Option<String>) -> Seq<char> {
    match s {
        Some(s) => line(label, escaped(s@)),
        None => Seq::empty(),
    }
}

fn push_number(out: &mut String, label: &str, n: u64)
    ensures
        final(out)@ == old(out)@ + line(label@, text::decimal(n as nat)),
{
    let number = text::decimal_text(n);
    push_line(out, label, number.as_str());
}

fn push_opt_text(out: &mut String, label: &str, s: &Option<String>)
    ensures
        final(out)@ == old(out)@ + opt_text_line(label@, *s),
{
    match s {
        Some(s) => {
            let shown = escape_human(s.as_str());
            push_line(out, label, shown.as_str());
        },
        None => {
            assert(out@ =~= old(out)@ + Seq::empty());
        },
    }
}

/// The lines on the daemon.
pub open spec fn daemon_lines(d: DoctorDaemonSection) -> Seq<char> {
    "\nDaemon\n"@ + line("  State"@, state_word(d.state)) + opt_number_line(
        "  PID"@,
        match d.pid {
            Some(n) => Some(n as nat),
            None => None,
        },
    ) + opt_text_line("  Hyperd endpoint"@, d.hyperd_endpoint) + opt_number_line(
        "  Health port"@,
        match d.health_port {
            Some(n) => Some(n as nat),
            None => None,
        },
    ) + opt_text_line("  Started"@, d.started_at) + opt_text_line(
        "  Takeover version"@,
        d.version,
    ) + opt_text_line("  MCP build"@, d.mcp_version) + (match d.executable_path {
        Some(path) => path_line("Daemon executable"@, path),
        None => Seq::empty(),
    })
}

fn push_daemon(out: &mut String, d: &DoctorDaemonSection)
    ensures
        final(out)@ == old(out)@ + daemon_lines(*d),
{
    let mut part = "\nDaemon\n".to_owned();
    push_line(&mut part, "  State", daemon_state_label(d.state));
    match d.pid {
        Some(pid) => push_number(&mut part, "  PID", pid as u64),
        None => {
            assert(part@ =~= part@ + Seq::empty());
        },
    }
    push_opt_text(&mut part, "  Hyperd endpoint", &d.hyperd_endpoint);
    match d.health_port {
        Some(port) => push_number(&mut part, "  Health port", port as u64),
        None => {
            assert(part@ =~= part@ + Seq::empty());
        },
    }
    push_opt_text(&mut part, "  Started", &d.started_at);
    push_opt_text(&mut part, "  Takeover version", &d.version);
    push_opt_text(&mut part, "  MCP build", &d.mcp_version);
    match &d.executable_path {
        Some(path) => push_human_path(&mut part, "Daemon executable", path),
        None => {
            assert(part@ =~= part@ + Seq::empty());
        },
    }
    out.append(part.as_str());
}

/// The lines on the tools.
pub open spec fn catalog_lines(c: DoctorToolCatalogReport) -> Seq<char> {
    "\nTool catalog\n"@ + line("  Tools"@, text::decimal(c.tool_count as nat)) + line(
        "  Canonical generated tools bytes"@,
        text::decimal(c.canonical_tool_bytes as nat),
    ) + line(
        "  Initialization instructions bytes"@,
        text::decimal(c.initialization_instructions_bytes as nat),
    ) + line("  get_readme bytes"@, text::decimal(c.get_readme_bytes as nat))
}

fn push_catalog(out: &mut String, c: &DoctorToolCatalogReport)
    ensures
        final(out)@ == old(out)@ + catalog_lines(*c),
{
    let mut part = "\nTool catalog\n".to_owned();
    push_number(&mut part, "  Tools", c.tool_count as u64);
    push_number(&mut part, "  Canonical generated tools bytes", c.canonical_tool_bytes as u64);
    push_number(
        &mut part,
        "  Initialization instructions bytes",
        c.initialization_instructions_bytes as u64,
    );
    push_number(&mut part, "  get_readme bytes", c.get_readme_bytes as u64);
    out.append(part.as_str());
}

/// The line for a remark.
pub open spec fn warning_line(w: DoctorWarning) -> Seq<char> {
    "  ["@ + escaped(w.code@) + "] "@ + escaped(w.message@) + "\n"@
}

/// The lines for remarks.
pub open spec fn warning_lines(w: Seq<DoctorWarning>) -> Seq<char>
    decreases w.len(),
{
    if w.len() == 0 {
        Seq::empty()
    } else {
        warning_lines(w.drop_last()) + warning_line(w.last())
    }
}

/// The part of the text with the remarks.
pub open spec fn warnings_part(w: Seq<DoctorWarning>) -> Seq<char> {
    "\nWarnings\n"@ + (if w.len() == 0 {
        "  None\n"@
    } else {
        warning_lines(w)
    })
}

fn push_warnings(out: &mut String, warnings: &Vec<DoctorWarning>)
    ensures
        final(out)@ == old(out)@ + warnings_part(warnings@),
{
    let mut lines = String::new();
    if warnings.len() == 0 {
        lines.append("  None\n");
        assert(lines@ =~= "  None\n"@);
    }
    let mut i: usize = 0;
    while i < warnings.len()
        invariant
            i <= warnings@.len(),
            warnings@.len() == 0 ==> lines@ == "  None\n"@,
            warnings@.len() > 0 ==> lines@ == warning_lines(warnings@.take(i as int)),
        decreases warnings@.len() - i,
    {
        let code = escape_human(warnings[i].code.as_str());
        let message = escape_human(warnings[i].message.as_str());
        let l = text::cat5("  [", code.as_str(), "] ", message.as_str(), "\n");
        lines.append(l.as_str());
        proof {
            assert(warnings@.take(i + 1).drop_last() =~= warnings@.take(i as int));
        }
        i = i + 1;
    }
    assert(warnings@.take(warnings@.len() as int) =~= warnings@);
    let part = text::cat2("\nWarnings\n", lines.as_str());
    out.append(part.as_str());
}

/// The whole report as text.
pub open spec fn rendered(report: DoctorReport) -> Seq<char> {
    "Status\n  Overall: ok\n"@ + installation_lines(report.installation) + configuration_lines(
        report.configuration,
    ) + daemon_lines(report.daemon) + catalog_lines(report.tool_catalog) + warnings_part(
        report.warnings@,
    )
}

/// The whole report as text that is safe to show on a terminal.
pub fn render_doctor_human(report: &DoctorReport) -> (r: String)
    ensures
        r@ == rendered(*report),
{
    let mut out = "Status\n  Overall: ok\n".to_owned();
    push_installation(&mut out, &report.installation);
    push_configuration(&mut out, &report.configuration);
    push_daemon(&mut out, &report.daemon);
    push_catalog(&mut out, &report.tool_catalog);
    push_warnings(&mut out, &report.warnings);
    out
}

/// Whether `s` has nothing that a terminal takes for a command, but for ends of
/// lines.
pub open spec fn safe(s: Seq<char>) -> bool {
    forall|i: int| 0 <= i < s.len() ==> #[trigger] s[i] == '\n' || !is_control(s[i])
}

/// Whether `s` has nothing that a terminal takes for a command, and no end of a
/// line.
pub open spec fn clean(s: Seq<char>) -> bool {
    forall|i: int| 0 <= i < s.len() ==> !is_control(#[trigger] s[i])
}

broadcast proof fn lemma_safe_concat(a: Seq<char>, b: Seq<char>)
    requires
        safe(a),
        safe(b),
    ensures
        #[trigger] safe(a + b),
{
    let s = a + b;
    assert forall|i: int| 0 <= i < s.len() implies #[trigger] s[i] == '\n' || !is_control(s[i]) by {
        if i < a.len() {
            assert(s[i] == a[i]);
        } else {
            assert(s[i] == b[i - a.len()]);
        }
    }
}

proof fn lemma_common_words_are_safe()
    ensures
        safe(": "@),
        safe("\n"@),
        safe("  "@),
        safe(" (encoding: "@),
        safe(")"@),
        safe("; directory: "@),
        safe("; exists: "@),
        safe("; file: "@),
        safe("unavailable"@),
        safe("lossy"@),
        safe("utf8"@),
        safe("\\u{"@),
        safe("}"@),
        safe("true"@),
        safe("false"@),
{
    reveal_strlit(": ");
    reveal_strlit("\n");
    reveal_strlit("  ");
    reveal_strlit(" (encoding: ");
    reveal_strlit(")");
    reveal_strlit("; directory: ");
    reveal_strlit("; exists: ");
    reveal_strlit("; file: ");
    reveal_strlit("unavailable");
    reveal_strlit("lossy");
    reveal_strlit("utf8");
    reveal_strlit("\\u{");
    reveal_strlit("}");
    reveal_strlit("true");
    reveal_strlit("false");
}

proof fn lemma_labels_words_are_safe()
    ensures
        safe("ephemeral_only"@),
        safe("persistent_attached"@),
        safe("cli"@),
        safe("deprecated_alias"@),
        safe("disabled"@),
        safe("environment"@),
        safe("platform_default"@),
        safe("live_from_discovery"@),
        safe("live_from_scan"@),
        safe("malformed"@),
        safe("missing"@),
        safe("parsed_unreachable"@),
        safe("unreadable"@),
{
    reveal_strlit("ephemeral_only");
    reveal_strlit("persistent_attached");
    reveal_strlit("cli");
    reveal_strlit("deprecated_alias");
    reveal_strlit("disabled");
    reveal_strlit("environment");
    reveal_strlit("platform_default");
    reveal_strlit("live_from_discovery");
    reveal_strlit("live_from_scan");
    reveal_strlit("malformed");
    reveal_strlit("missing");
    reveal_strlit("parsed_unreachable");
    reveal_strlit("unreadable");
}

proof fn lemma_installation_words_are_safe()
    ensures
        safe("    Name"@),
        safe("    Package path"@),
        safe("    Version"@),
        safe("  Launcher executable"@),
        safe("  Launcher-reported metadata: absent\n"@),
        safe("  Launcher-reported platform:\n"@),
        safe("  Launcher-reported wrapper:\n"@),
        safe("  Hyper Rust API version"@),
        safe("  MCP version"@),
        safe("Native executable"@),
        safe("\nInstallation\n"@),
{
    reveal_strlit("    Name");
    reveal_strlit("    Package path");
    reveal_strlit("    Version");
    reveal_strlit("  Launcher executable");
    reveal_strlit("  Launcher-reported metadata: absent\n");
    reveal_strlit("  Launcher-reported platform:\n");
    reveal_strlit("  Launcher-reported wrapper:\n");
    reveal_strlit("  Hyper Rust API version");
    reveal_strlit("  MCP version");
    reveal_strlit("Native executable");
    reveal_strlit("\nInstallation\n");
}

proof fn lemma_configuration_words_are_safe()
    ensures
        safe("  No daemon"@),
        safe("  Observed persistent path"@),
        safe("  Persistent mode"@),
        safe("  Persistent path source"@),
        safe("  Read only"@),
        safe("Client log"@),
        safe("Daemon discovery file"@),
        safe("Daemon state directory"@),
        safe("Effective hyperd path"@),
        safe("Observed HYPERD_PATH"@),
        safe("Observed persistent path"@),
        safe("Resolved persistent parent"@),
        safe("Resolved persistent path"@),
        safe("Upward .hyperd/current candidate"@),
        safe("\nConfiguration\n"@),
{
    reveal_strlit("  No daemon");
    reveal_strlit("  Observed persistent path");
    reveal_strlit("  Persistent mode");
    reveal_strlit("  Persistent path source");
    reveal_strlit("  Read only");
    reveal_strlit("Client log");
    reveal_strlit("Daemon discovery file");
    reveal_strlit("Daemon state directory");
    reveal_strlit("Effective hyperd path");
    reveal_strlit("Observed HYPERD_PATH");
    reveal_strlit("Observed persistent path");
    reveal_strlit("Resolved persistent parent");
    reveal_strlit("Resolved persistent path");
    reveal_strlit("Upward .hyperd/current candidate");
    reveal_strlit("\nConfiguration\n");
}

proof fn lemma_daemon_words_are_safe()
    ensures
        safe("  Health port"@),
        safe("  Hyperd endpoint"@),
        safe("  MCP build"@),
        safe("  PID"@),
        safe("  Started"@),
        safe("  State"@),
        safe("  Takeover version"@),
        safe("Daemon executable"@),
        safe("\nDaemon\n"@),
{
    reveal_strlit("  Health port");
    reveal_strlit("  Hyperd endpoint");
    reveal_strlit("  MCP build");
    reveal_strlit("  PID");
    reveal_strlit("  Started");
    reveal_strlit("  State");
    reveal_strlit("  Takeover version");
    reveal_strlit("Daemon executable");
    reveal_strlit("\nDaemon\n");
}

proof fn lemma_catalog_words_are_safe()
    ensures
        safe("  Canonical generated tools bytes"@),
        safe("  Initialization instructions bytes"@),
        safe("  Tools"@),
        safe("  get_readme bytes"@),
        safe("\nTool catalog\n"@),
{
    reveal_strlit("  Canonical generated tools bytes");
    reveal_strlit("  Initialization instructions bytes");
    reveal_strlit("  Tools");
    reveal_strlit("  get_readme bytes");
    reveal_strlit("\nTool catalog\n");
}

proof fn lemma_warnings_words_are_safe()
    ensures
        safe("  ["@),
        safe("] "@),
        safe("  None\n"@),
        safe("\nWarnings\n"@),
        safe("Status\n  Overall: ok\n"@),
{
    reveal_strlit("  [");
    reveal_strlit("] ");
    reveal_strlit("  None\n");
    reveal_strlit("\nWarnings\n");
    reveal_strlit("Status\n  Overall: ok\n");
}

proof fn lemma_digits_clean(n: nat, base: nat)
    requires
        2 <= base <= 16,
    ensures
        clean(text::digits(n, base)),
    decreases n,
{
    if n >= base {
        assert(n / base < n) by (nonlinear_arith)
            requires
                n >= base,
                base >= 2,
        ;
        lemma_digits_clean(n / base, base);
        assert(n % base < 16) by (nonlinear_arith)
            requires
                2 <= base <= 16,
        ;
    }
}

proof fn lemma_escaped_chars_clean(s: Seq<char>)
    ensures
        clean(escaped_chars(s)),
    decreases s.len(),
{
    if s.len() > 0 {
        lemma_escaped_chars_clean(s.drop_last());
        let c = s.last();
        if is_control(c) {
            let hex = text::hexadecimal(c as int as nat);
            lemma_digits_clean(c as int as nat, 16);
            reveal_strlit("\\u{");
            reveal_strlit("}");
            assert(clean("\\u{"@ + hex + "}"@));
        }
        let head = escaped_chars(s.drop_last());
        let tail = escaped_char(c);
        assert forall|i: int| 0 <= i < (head + tail).len() implies !is_control(
            #[trigger] (head + tail)[i],
        ) by {
            if i < head.len() {
                assert((head + tail)[i] == head[i]);
            } else {
                assert((head + tail)[i] == tail[i - head.len()]);
            }
        }
    }
}

/// A text as it is shown cannot move the cursor, cannot begin a line and is no
/// longer than a report allows.
pub proof fn law_escaped_is_clean(s: Seq<char>)
    ensures
        clean(escaped(s)),
        safe(escaped(s)),
        text::byte_len(escaped(s)) <= identity::MAX_REPORTED_STRING_BYTES,
{
    let all = escaped_chars(s);
    lemma_escaped_chars_clean(s);
    text::lemma_truncated(all, identity::MAX_REPORTED_STRING_BYTES as nat);
    assert forall|i: int| 0 <= i < escaped(s).len() implies !is_control(
        #[trigger] escaped(s)[i],
    ) by {
        assert(escaped(s)[i] == all[i]);
    }
}

/// A text without control characters that fits is shown as it is.
pub proof fn law_clean_text_is_shown_as_it_is(s: Seq<char>)
    requires
        clean(s),
        text::byte_len(s) <= identity::MAX_REPORTED_STRING_BYTES,
    ensures
        escaped(s) == s,
{
    lemma_clean_chars(s);
    text::lemma_truncated(s, identity::MAX_REPORTED_STRING_BYTES as nat);
}

proof fn lemma_clean_chars(s: Seq<char>)
    requires
        clean(s),
    ensures
        escaped_chars(s) == s,
    decreases s.len(),
{
    if s.len() > 0 {
        assert forall|i: int| 0 <= i < s.drop_last().len() implies !is_control(
            #[trigger] s.drop_last()[i],
        ) by {
            assert(s.drop_last()[i] == s[i]);
        }
        lemma_clean_chars(s.drop_last());
        assert(!is_control(s[s.len() - 1]));
        assert(s.drop_last() + seq![s.last()] =~= s);
    }
}

proof fn lemma_line_safe(label: Seq<char>, value: Seq<char>)
    requires
        safe(label),
        safe(value),
    ensures
        safe(line(label, value)),
{
    broadcast use lemma_safe_concat;

    lemma_common_words_are_safe();
}

proof fn lemma_number_line_safe(label: Seq<char>, n: nat)
    requires
        safe(label),
    ensures
        safe(line(label, text::decimal(n))),
{
    lemma_digits_clean(n, 10);
    lemma_line_safe(label, text::decimal(n));
}

proof fn lemma_text_line_safe(label: Seq<char>, s: Seq<char>)
    requires
        safe(label),
    ensures
        safe(line(label, escaped(s))),
{
    law_escaped_is_clean(s);
    lemma_line_safe(label, escaped(s));
}

proof fn lemma_path_line_safe(label: Seq<char>, path: ReportedPath)
    requires
        safe(label),
    ensures
        safe(path_line(label, path)),
{
    broadcast use lemma_safe_concat;

    lemma_common_words_are_safe();
    law_escaped_is_clean(path.display@);
}

proof fn lemma_opt_path_facts_line_safe(label: Seq<char>, facts: Option<DoctorPathFacts>)
    requires
        safe(label),
    ensures
        safe(opt_path_facts_line(label, facts)),
{
    broadcast use lemma_safe_concat;

    lemma_common_words_are_safe();
    if let Some(f) = facts {
        law_escaped_is_clean(f.path.display@);
        assert(safe(text::bool_word(f.exists)) && safe(text::bool_word(f.is_file)) && safe(
            text::bool_word(f.is_directory),
        ));
    }
}

proof fn lemma_package_lines_safe(heading: Seq<char>, p: LauncherPackageIdentity)
    requires
        safe(heading),
    ensures
        safe(package_lines(heading, p)),
{
    broadcast use lemma_safe_concat;

    lemma_installation_words_are_safe();
    lemma_text_line_safe("    Name"@, p.name@);
    lemma_text_line_safe(
        "    Version"@,
        match p.version {
            Some(v) => v@,
            None => "unavailable"@,
        },
    );
    lemma_path_line_safe("    Package path"@, p.package_path);
}

proof fn lemma_installation_safe(i: DoctorInstallationReport)
    ensures
        safe(installation_lines(i)),
{
    broadcast use lemma_safe_concat;

    lemma_installation_words_are_safe();
    lemma_path_line_safe("Native executable"@, i.native_executable);
    lemma_text_line_safe("  MCP version"@, i.mcp_version.source@);
    lemma_text_line_safe("  Hyper Rust API version"@, i.hyper_rust_api_version.source@);
    if let Some(l) = i.launcher {
        lemma_package_lines_safe("  Launcher-reported wrapper:\n"@, l.wrapper);
        lemma_package_lines_safe("  Launcher-reported platform:\n"@, l.platform);
        lemma_path_line_safe("  Launcher executable"@, l.executable_path);
    }
}

proof fn lemma_configuration_safe(c: DoctorConfigurationReport)
    ensures
        safe(configuration_lines(c)),
{
    broadcast use lemma_safe_concat;

    lemma_common_words_are_safe();
    lemma_labels_words_are_safe();
    lemma_configuration_words_are_safe();
    lemma_line_safe("  Persistent mode"@, mode_word(c.persistent_mode));
    lemma_line_safe("  Persistent path source"@, source_word(c.persistent_path_source));
    match c.observed_persistent_path {
        Some(path) => lemma_path_line_safe("Observed persistent path"@, path),
        None => lemma_line_safe("  Observed persistent path"@, "unavailable"@),
    }
    lemma_opt_path_facts_line_safe("Resolved persistent path"@, c.resolved_persistent_path);
    lemma_opt_path_facts_line_safe("Resolved persistent parent"@, c.resolved_persistent_parent);
    lemma_opt_path_facts_line_safe("Daemon state directory"@, c.daemon_state_directory);
    lemma_opt_path_facts_line_safe("Daemon discovery file"@, c.daemon_discovery_file);
    lemma_opt_path_facts_line_safe("Client log"@, Some(c.client_log));
    lemma_opt_path_facts_line_safe("Observed HYPERD_PATH"@, c.observed_hyperd_path);
    lemma_opt_path_facts_line_safe("Effective hyperd path"@, c.effective_hyperd_path);
    lemma_opt_path_facts_line_safe("Upward .hyperd/current candidate"@, c.upward_hyperd_candidate);
    lemma_line_safe("  Read only"@, text::bool_word(c.read_only));
    lemma_line_safe("  No daemon"@, text::bool_word(c.no_daemon));
}

proof fn lemma_opt_text_line_safe(label: Seq<char>, s: Option<String>)
    requires
        safe(label),
    ensures
        safe(opt_text_line(label, s)),
{
    if let Some(t) = s {
        lemma_text_line_safe(label, t@);
    }
}

proof fn lemma_opt_number_line_safe(label: Seq<char>, n: Option<nat>)
    requires
        safe(label),
    ensures
        safe(opt_number_line(label, n)),
{
    if let Some(n) = n {
        lemma_number_line_safe(label, n);
    }
}

proof fn lemma_daemon_safe(d: DoctorDaemonSection)
    ensures
        safe(daemon_lines(d)),
{
    broadcast use lemma_safe_concat;

    lemma_labels_words_are_safe();
    lemma_daemon_words_are_safe();
    lemma_line_safe("  State"@, state_word(d.state));
    lemma_opt_number_line_safe(
        "  PID"@,
        match d.pid {
            Some(n) => Some(n as nat),
            None => None,
        },
    );
    lemma_opt_text_line_safe("  Hyperd endpoint"@, d.hyperd_endpoint);
    lemma_opt_number_line_safe(
        "  Health port"@,
        match d.health_port {
            Some(n) => Some(n as nat),
            None => None,
        },
    );
    lemma_opt_text_line_safe("  Started"@, d.started_at);
    lemma_opt_text_line_safe("  Takeover version"@, d.version);
    lemma_opt_text_line_safe("  MCP build"@, d.mcp_version);
    if let Some(path) = d.executable_path {
        lemma_path_line_safe("Daemon executable"@, path);
    }
}

proof fn lemma_catalog_safe(c: DoctorToolCatalogReport)
    ensures
        safe(catalog_lines(c)),
{
    broadcast use lemma_safe_concat;

    lemma_catalog_words_are_safe();
    lemma_number_line_safe("  Tools"@, c.tool_count as nat);
    lemma_number_line_safe("  Canonical generated tools bytes"@, c.canonical_tool_bytes as nat);
    lemma_number_line_safe(
        "  Initialization instructions bytes"@,
        c.initialization_instructions_bytes as nat,
    );
    lemma_number_line_safe("  get_readme bytes"@, c.get_readme_bytes as nat);
}

proof fn lemma_warning_lines_safe(w: Seq<DoctorWarning>)
    ensures
        safe(warning_lines(w)),
    decreases w.len(),
{
    broadcast use lemma_safe_concat;

    if w.len() > 0 {
        lemma_common_words_are_safe();
        lemma_warnings_words_are_safe();
        lemma_warning_lines_safe(w.drop_last());
        law_escaped_is_clean(w.last().code@);
        law_escaped_is_clean(w.last().message@);
    }
}

/// Whatever a report holds, its text has nothing that a terminal takes for a
/// command, but for the ends of its own lines.
pub proof fn law_rendered_is_safe(report: DoctorReport)
    ensures
        safe(rendered(report)),
{
    broadcast use lemma_safe_concat;

    lemma_warnings_words_are_safe();
    lemma_installation_safe(report.installation);
    lemma_configuration_safe(report.configuration);
    lemma_daemon_safe(report.daemon);
    lemma_catalog_safe(report.tool_catalog);
    lemma_warning_lines_safe(report.warnings@);
}

/// A line is its label, a colon, its value and a line end.
pub proof fn law_lines(label: Seq<char>, value: Seq<char>)
    ensures
        line(label, value) == label + ": "@ + value + "\n"@,
{
}

/// Control characters are shown by their number in hexadecimal, every other character as it
/// is, in order; what is shown is cut to 4 KiB.
pub proof fn law_escapes(a: Seq<char>, c: char, b: Seq<char>)
    ensures
        c as int <= 31 || c as int == 127 ==> escaped_char(c) == "\\u{"@ + text::hexadecimal(
            c as int as nat,
        ) + "}"@,
        c as int > 31 && c as int != 127 ==> escaped_char(c) == seq![c],
        escaped_chars(Seq::empty()) == Seq::<char>::empty(),
        escaped_chars(a + seq![c] + b) == escaped_chars(a) + escaped_char(c) + escaped_chars(b),
        escaped(a) == text::truncated(escaped_chars(a), 4096),
    decreases b.len(),
{
    let all = a + seq![c] + b;
    if b.len() == 0 {
        assert(all.drop_last() =~= a);
        assert(all.last() == c);
        assert(escaped_chars(all) =~= escaped_chars(a) + escaped_char(c) + escaped_chars(b));
    } else {
        law_escapes(a, c, b.drop_last());
        assert(all.drop_last() =~= a + seq![c] + b.drop_last());
        assert(all.last() == b.last());
        assert(escaped_chars(all) =~= escaped_chars(a) + escaped_char(c) + escaped_chars(b));
    }
}

/// The words for how a path was read, for the modes, the places a path comes from and the
/// states of a daemon.
pub proof fn law_words_of_a_report()
    ensures
        encoding_word(PathEncoding::Utf8) == "utf8"@,
        encoding_word(PathEncoding::Lossy) == "lossy"@,
        mode_word(PersistentMode::PersistentAttached) == "persistent_attached"@,
        mode_word(PersistentMode::EphemeralOnly) == "ephemeral_only"@,
        source_word(PersistentDbPathSource::Cli) == "cli"@,
        source_word(PersistentDbPathSource::DeprecatedAlias) == "deprecated_alias"@,
        source_word(PersistentDbPathSource::Environment) == "environment"@,
        source_word(PersistentDbPathSource::PlatformDefault) == "platform_default"@,
        source_word(PersistentDbPathSource::Disabled) == "disabled"@,
        state_word(DoctorDaemonState::Missing) == "missing"@,
        state_word(DoctorDaemonState::Unreadable) == "unreadable"@,
        state_word(DoctorDaemonState::Malformed) == "malformed"@,
        state_word(DoctorDaemonState::ParsedUnreachable) == "parsed_unreachable"@,
        state_word(DoctorDaemonState::LiveFromDiscovery) == "live_from_discovery"@,
        state_word(DoctorDaemonState::LiveFromScan) == "live_from_scan"@,
{
}

/// A path is shown with how it was read, and with whether it is there, a file or a directory,
/// where that was looked at.
pub proof fn law_path_lines(label: Seq<char>, path: ReportedPath, facts: DoctorPathFacts)
    ensures
        path_line(label, path) == line(
            "  "@ + label,
            escaped(path.display@) + " (encoding: "@ + encoding_word(path.encoding) + ")"@,
        ),
        path_facts_line(label, facts) == line(
            "  "@ + label,
            escaped(facts.path.display@) + " (encoding: "@ + encoding_word(facts.path.encoding)
                + "; exists: "@ + text::bool_word(facts.exists) + "; file: "@ + text::bool_word(
                facts.is_file,
            ) + "; directory: "@ + text::bool_word(facts.is_directory) + ")"@,
        ),
        opt_path_facts_line(label, Some(facts)) == path_facts_line(label, facts),
        opt_path_facts_line(label, None) == line("  "@ + label, "unavailable"@),
{
}

/// Lines for what may be missing are left out where it is.
pub proof fn law_optional_lines(label: Seq<char>, n: nat, s: String)
    ensures
        opt_number_line(label, Some(n)) == line(label, text::decimal(n)),
        opt_number_line(label, None) == Seq::<char>::empty(),
        opt_text_line(label, Some(s)) == line(label, escaped(s@)),
        opt_text_line(label, None) == Seq::<char>::empty(),
{
}

/// What a report shows of the installation.
pub proof fn law_installation_part(
    i: DoctorInstallationReport,
    l: LauncherIdentity,
    heading: Seq<char>,
    p: LauncherPackageIdentity,
)
    ensures
        installation_lines(i) == "\nInstallation\n"@ + path_line(
            "Native executable"@,
            i.native_executable,
        ) + line("  MCP version"@, escaped(i.mcp_version.source@)) + line(
            "  Hyper Rust API version"@,
            escaped(i.hyper_rust_api_version.source@),
        ) + launcher_lines(i.launcher),
        launcher_lines(None) == "  Launcher-reported metadata: absent\n"@,
        launcher_lines(Some(l)) == package_lines("  Launcher-reported wrapper:\n"@, l.wrapper)
            + package_lines("  Launcher-reported platform:\n"@, l.platform) + path_line(
            "  Launcher executable"@,
            l.executable_path,
        ),
        p.version matches Some(v) ==> package_lines(heading, p) == heading + line(
            "    Name"@,
            escaped(p.name@),
        ) + line("    Version"@, escaped(v@)) + path_line("    Package path"@, p.package_path),
        p.version is None ==> package_lines(heading, p) == heading + line(
            "    Name"@,
            escaped(p.name@),
        ) + line("    Version"@, escaped("unavailable"@)) + path_line(
            "    Package path"@,
            p.package_path,
        ),
{
}

/// What a report shows of the configuration, each value under its own label.
pub proof fn law_configuration_part(c: DoctorConfigurationReport)
    ensures
        configuration_lines(c) == "\nConfiguration\n"@ + line(
            "  Persistent mode"@,
            mode_word(c.persistent_mode),
        ) + line("  Persistent path source"@, source_word(c.persistent_path_source)) + (
        match c.observed_persistent_path {
            Some(path) => path_line("Observed persistent path"@, path),
            None => line("  Observed persistent path"@, "unavailable"@),
        }) + opt_path_facts_line("Resolved persistent path"@, c.resolved_persistent_path)
            + opt_path_facts_line("Resolved persistent parent"@, c.resolved_persistent_parent)
            + opt_path_facts_line("Daemon state directory"@, c.daemon_state_directory)
            + opt_path_facts_line("Daemon discovery file"@, c.daemon_discovery_file)
            + path_facts_line("Client log"@, c.client_log) + opt_path_facts_line(
            "Observed HYPERD_PATH"@,
            c.observed_hyperd_path,
        ) + opt_path_facts_line("Effective hyperd path"@, c.effective_hyperd_path)
            + opt_path_facts_line("Upward .hyperd/current candidate"@, c.upward_hyperd_candidate)
            + line(
            "  Read only"@,
            if c.read_only {
                "true"@
            } else {
                "false"@
            },
        ) + line(
            "  No daemon"@,
            if c.no_daemon {
                "true"@
            } else {
                "false"@
            },
        ),
{
}

/// What a report shows of the daemon and of the tools, each value under its own label.
pub proof fn law_daemon_and_catalog_parts(d: DoctorDaemonSection, c: DoctorToolCatalogReport)
    ensures
        daemon_lines(d) == "\nDaemon\n"@ + line("  State"@, state_word(d.state)) + (match d.pid {
            Some(n) => line("  PID"@, text::decimal(n as nat)),
            None => Seq::empty(),
        }) + opt_text_line("  Hyperd endpoint"@, d.hyperd_endpoint) + (match d.health_port {
            Some(n) => line("  Health port"@, text::decimal(n as nat)),
            None => Seq::empty(),
        }) + opt_text_line("  Started"@, d.started_at) + opt_text_line(
            "  Takeover version"@,
            d.version,
        ) + opt_text_line("  MCP build"@, d.mcp_version) + (match d.executable_path {
            Some(path) => path_line("Daemon executable"@, path),
            None => Seq::empty(),
        }),
        catalog_lines(c) == "\nTool catalog\n"@ + line(
            "  Tools"@,
            text::decimal(c.tool_count as nat),
        ) + line(
            "  Canonical generated tools bytes"@,
            text::decimal(c.canonical_tool_bytes as nat),
        ) + line(
            "  Initialization instructions bytes"@,
            text::decimal(c.initialization_instructions_bytes as nat),
        ) + line("  get_readme bytes"@, text::decimal(c.get_readme_bytes as nat)),
{
}

/// Every warning has a line with its code and its message, in order; where there is none, it
/// is said so.
pub proof fn law_warnings_part(w: Seq<DoctorWarning>, last: DoctorWarning)
    ensures
        warnings_part(Seq::empty()) == "\nWarnings\n"@ + "  None\n"@,
        w.len() > 0 ==> warnings_part(w) == "\nWarnings\n"@ + warning_lines(w),
        warning_lines(Seq::empty()) == Seq::<char>::empty(),
        warning_lines(w.push(last)) == warning_lines(w) + ("  ["@ + escaped(last.code@) + "] "@
            + escaped(last.message@) + "\n"@),
{
    assert(w.push(last).drop_last() =~= w);
}

/// A report shows its status and then its parts, in this order.
pub proof fn law_order_of_a_report(report: DoctorReport)
    ensures
        rendered(report) == "Status\n  Overall: ok\n"@ + installation_lines(report.installation)
            + configuration_lines(report.configuration) + daemon_lines(report.daemon)
            + catalog_lines(report.tool_catalog) + warnings_part(report.warnings@),
{
}

} // verus!
