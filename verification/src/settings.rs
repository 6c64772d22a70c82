//! Persisted settings.
//!
//! Settings live in an INI document with a `[Settings]` section holding
//! `default_width`, `default_height`, `icon_name` and `styles_file`;
//! unknown keys are preserved by the document and ignored here. The INI
//! syntax itself is the `ini` crate's business, reached through the
//! trusted wrappers below; everything read out of a document and every
//! value put into one is decided by verified code. A missing or
//! unparsable file degrades to synthesized defaults so that a corrupt
//! configuration can never prevent launching a shell; a parsed file
//! without a `[Settings]` section aborts that activation only.

use vstd::prelude::*;

use crate::config::opt_string_view;
use crate::numbers::decimal_value;
use crate::numbers::all_decimal_digits;
use crate::numbers::is_decimal_digit;
use crate::numbers::parsed_u32;
use crate::size::resolved_dimension;

verus! {

#[verifier::external_type_specification]
#[verifier::external_body]
pub struct ExIni(ini::Ini);

#[verifier::external_type_specification]
#[verifier::external_body]
pub struct ExParseError(ini::ParseError);

/// What the `[Settings]` section of a document holds: the first value
/// recorded under each key.
pub uninterp spec fn settings_entries(doc: ini::Ini) -> Map<Seq<char>, Seq<char>>;

/// Whether the document has a `[Settings]` section at all.
pub uninterp spec fn has_settings_section(doc: ini::Ini) -> bool;

/// A settings map with nothing in it.
pub open spec fn no_entries() -> Map<Seq<char>, Seq<char>> {
    Map::empty()
}

/// Relies on ini::Ini::new: a fresh document has only an empty general
/// section and no `[Settings]` section.
#[verifier::external_body]
fn ini_new() -> (r: ini::Ini)
    ensures
        has_settings_section(r) == false,
        settings_entries(r) == no_entries(),
{
    ini::Ini::new()
}

/// Relies on ini::Ini::set_to on the `Settings` section: it creates the
/// section when missing and replaces any previous value under the key.
#[verifier::external_body]
fn ini_set_setting(doc: &mut ini::Ini, key: &str, value: &str)
    ensures
        has_settings_section(*final(doc)),
        settings_entries(*final(doc)) == settings_entries(*old(doc)).insert(key@, value@),
{
    doc.set_to(Some("Settings"), key.to_owned(), value.to_owned());
}

/// Relies on ini::Ini::set_to on the general (unnamed) section, which
/// leaves the `[Settings]` section untouched.
#[verifier::external_body]
fn ini_set_general(doc: &mut ini::Ini, key: &str, value: &str)
    ensures
        has_settings_section(*final(doc)) == has_settings_section(*old(doc)),
        settings_entries(*final(doc)) == settings_entries(*old(doc)),
{
    doc.set_to(None::<String>, key.to_owned(), value.to_owned());
}

/// Relies on ini::Ini::get_from: the first value under the key in the
/// `[Settings]` section, `None` when the section or the key is absent.
#[verifier::external_body]
fn ini_get_setting(doc: &ini::Ini, key: &str) -> (r: Option<String>)
    ensures
        match r {
            Some(v) => has_settings_section(*doc) && settings_entries(*doc).contains_key(key@)
                && v@ == settings_entries(*doc)[key@],
            None => !(has_settings_section(*doc) && settings_entries(*doc).contains_key(key@)),
        },
{
    doc.get_from(Some("Settings"), key).map(|v| v.to_owned())
}

/// Relies on ini::Ini::section: whether a `[Settings]` section exists.
#[verifier::external_body]
fn ini_has_settings(doc: &ini::Ini) -> (r: bool)
    ensures
        r == has_settings_section(*doc),
{
    doc.section(Some("Settings")).is_some()
}

/// Whether the `ini` crate's parser accepts this text: parsing depends on
/// the text alone.
pub uninterp spec fn parse_accepts(text: Seq<char>) -> bool;

/// Whether the document parsed from this text has a `[Settings]` section.
pub uninterp spec fn parsed_has_section(text: Seq<char>) -> bool;

/// The `[Settings]` entries of the document parsed from this text: the
/// first value recorded under each key.
pub uninterp spec fn parsed_settings(text: Seq<char>) -> Map<Seq<char>, Seq<char>>;

/// Relies on ini::Ini::load_from_str: parses INI text, a deterministic
/// function of the text alone; the parsed document's `[Settings]` section
/// is named so that callers can be exact about what they read.
#[verifier::external_body]
fn ini_parse(text: &str) -> (r: Result<ini::Ini, ini::ParseError>)
    ensures
        r is Ok ==> parse_accepts(text@),
        r is Err ==> !parse_accepts(text@),
        r matches Ok(doc) ==> has_settings_section(doc) == parsed_has_section(text@)
            && settings_entries(doc) == parsed_settings(text@),
{
    ini::Ini::load_from_str(text)
}

/// Relies on ini::ParseError's display: where and why parsing failed,
/// for the degradation diagnostic.
#[verifier::external_body]
fn parse_error_message(e: &ini::ParseError) -> (r: String) {
    format!("{}", e)
}

/// The INI text the `ini` crate renders a document as: rendering depends
/// on the document alone.
pub uninterp spec fn rendered_of(doc: ini::Ini) -> Seq<char>;

/// Relies on ini::Ini::write_to: renders the document as INI text, a
/// deterministic function of the document alone; the round trip is
/// exercised by tests.
#[verifier::external_body]
fn ini_render(doc: &ini::Ini) -> (r: String)
    ensures
        r@ == rendered_of(*doc),
{
    let mut buf: Vec<u8> = Vec::new();
    let _ = doc.write_to(&mut buf);
    String::from_utf8_lossy(&buf).into_owned()
}

/// Settings key of the persisted default window width.
pub open spec fn width_key() -> Seq<char> {
    "default_width"@
}

/// Settings key of the persisted default window height.
pub open spec fn height_key() -> Seq<char> {
    "default_height"@
}

/// Settings key of the window icon name.
pub open spec fn icon_key() -> Seq<char> {
    "icon_name"@
}

/// Settings key of the stylesheet path.
pub open spec fn styles_key() -> Seq<char> {
    "styles_file"@
}

/// Text of the synthesized default width.
pub open spec fn default_width_text() -> Seq<char> {
    "680"@
}

/// Text of the synthesized default height.
pub open spec fn default_height_text() -> Seq<char> {
    "364"@
}

/// The synthesized default icon name.
pub open spec fn default_icon_text() -> Seq<char> {
    "computer"@
}

/// The recognized values of a `[Settings]` section, as stored: numeric
/// settings stay text until resolution.
pub struct StoredSettings {
    /// Text under `default_width`, if any.
    pub default_width: Option<String>,
    /// Text under `default_height`, if any.
    pub default_height: Option<String>,
    /// Value under `icon_name`, if any.
    pub icon_name: Option<String>,
    /// Value under `styles_file`, if any.
    pub styles_file: Option<String>,
}

/// The value a settings map holds under a key.
pub open spec fn entries_lookup(entries: Map<Seq<char>, Seq<char>>, key: Seq<char>) -> Option<
    Seq<char>,
> {
    if entries.contains_key(key) {
        Some(entries[key])
    } else {
        None
    }
}

/// The value a document's `[Settings]` section holds under a key.
pub open spec fn entry_view(doc: ini::Ini, key: Seq<char>) -> Option<Seq<char>> {
    entries_lookup(settings_entries(doc), key)
}

/// Reads the recognized settings out of a parsed document: `None` exactly
/// when the document has no `[Settings]` section.
pub fn read_settings(doc: &ini::Ini) -> (r: Option<StoredSettings>)
    ensures
        match r {
            None => !has_settings_section(*doc),
            Some(s) => has_settings_section(*doc) && opt_string_view(s.default_width)
                == entry_view(*doc, width_key()) && opt_string_view(s.default_height) == entry_view(
                *doc,
                height_key(),
            ) && opt_string_view(s.icon_name) == entry_view(*doc, icon_key()) && opt_string_view(
                s.styles_file,
            ) == entry_view(*doc, styles_key()),
        },
{
    if !ini_has_settings(doc) {
        return None;
    }
    Some(
        StoredSettings {
            default_width: ini_get_setting(doc, "default_width"),
            default_height: ini_get_setting(doc, "default_height"),
            icon_name: ini_get_setting(doc, "icon_name"),
            styles_file: ini_get_setting(doc, "styles_file"),
        },
    )
}

/// The settings a missing or unparsable file degrades to.
pub open spec fn is_synthesized_defaults(s: StoredSettings) -> bool {
    &&& opt_string_view(s.default_width) == Some(default_width_text())
    &&& opt_string_view(s.default_height) == Some(default_height_text())
    &&& opt_string_view(s.icon_name) == Some(default_icon_text())
    &&& s.styles_file is None
}

/// The synthesized default settings: width 680, height 364, the
/// "computer" icon, and no stylesheet path.
pub fn synthesized_defaults() -> (s: StoredSettings)
    ensures
        is_synthesized_defaults(s),
{
    StoredSettings {
        default_width: Some(String::from_str("680")),
        default_height: Some(String::from_str("364")),
        icon_name: Some(String::from_str("computer")),
        styles_file: None,
    }
}

/// What loading the persisted settings produced.
pub enum SettingsOutcome {
    /// Settings to run with, stored or synthesized.
    Available(StoredSettings),
    /// The file parsed but holds no `[Settings]` section: this activation
    /// is aborted; the process is not crashed.
    MissingSection,
}

/// Turns the outcome of parsing the settings file into the settings the
/// session runs with, whatever the parser returned: a parse failure
/// degrades to the synthesized defaults, a parsed document without a
/// `[Settings]` section aborts the activation, and anything else yields
/// exactly the section's stored values.
pub fn settings_from_parse(parsed: Result<ini::Ini, ini::ParseError>) -> (r: SettingsOutcome)
    ensures
        match parsed {
            Err(_) => r matches SettingsOutcome::Available(s) && is_synthesized_defaults(s),
            Ok(doc) => match r {
                SettingsOutcome::MissingSection => !has_settings_section(doc),
                SettingsOutcome::Available(s) => has_settings_section(doc) && opt_string_view(
                    s.default_width,
                ) == entry_view(doc, width_key()) && opt_string_view(s.default_height)
                    == entry_view(doc, height_key()) && opt_string_view(s.icon_name) == entry_view(
                    doc,
                    icon_key(),
                ) && opt_string_view(s.styles_file) == entry_view(doc, styles_key()),
            },
        },
{
    match parsed {
        Err(_) => SettingsOutcome::Available(synthesized_defaults()),
        Ok(doc) => match read_settings(&doc) {
            None => SettingsOutcome::MissingSection,
            Some(s) => SettingsOutcome::Available(s),
        },
    }
}

/// What loading the settings file produced, with the diagnostic to log
/// when an unparsable file was degraded to the defaults.
pub struct LoadedSettings {
    /// The settings the session runs with, or the aborted activation.
    pub outcome: SettingsOutcome,
    /// Why the file's text was thrown away, when it was.
    pub parse_diagnostic: Option<String>,
}

/// Loads the settings from the file's text: a missing file (`None`) and
/// an unparsable one both degrade to the synthesized defaults — the
/// latter with a diagnostic present — and a parsed file without a
/// `[Settings]` section aborts the activation; a parsed file with one
/// yields exactly the section's stored values.
pub fn load_settings(text: Option<&str>) -> (r: LoadedSettings)
    ensures
        match text {
            None => (r.outcome matches SettingsOutcome::Available(s) && is_synthesized_defaults(s))
                && r.parse_diagnostic is None,
            Some(t) => {
                &&& !parse_accepts(t@) ==> (r.outcome matches SettingsOutcome::Available(s)
                    && is_synthesized_defaults(s)) && r.parse_diagnostic is Some
                &&& parse_accepts(t@) && !parsed_has_section(t@) ==> (r.outcome is MissingSection
                    && r.parse_diagnostic is None)
                &&& parse_accepts(t@) && parsed_has_section(t@) ==> (r.outcome matches SettingsOutcome::Available(
                    s,
                ) && opt_string_view(s.default_width) == entries_lookup(
                    parsed_settings(t@),
                    width_key(),
                ) && opt_string_view(s.default_height) == entries_lookup(
                    parsed_settings(t@),
                    height_key(),
                ) && opt_string_view(s.icon_name) == entries_lookup(parsed_settings(t@), icon_key())
                    && opt_string_view(s.styles_file) == entries_lookup(
                    parsed_settings(t@),
                    styles_key(),
                )) && r.parse_diagnostic is None
            },
        },
{
    match text {
        None => LoadedSettings {
            outcome: SettingsOutcome::Available(synthesized_defaults()),
            parse_diagnostic: None,
        },
        Some(t) => match ini_parse(t) {
            Err(e) => {
                let diagnostic = parse_error_message(&e);
                LoadedSettings {
                    outcome: settings_from_parse(Err(e)),
                    parse_diagnostic: Some(diagnostic),
                }
            },
            Ok(doc) => LoadedSettings {
                outcome: settings_from_parse(Ok(doc)),
                parse_diagnostic: None,
            },
        },
    }
}

/// The `[Settings]` entries every freshly initialized file holds, given
/// the stylesheet path recorded beside it.
pub open spec fn initial_entries(styles_file: Seq<char>) -> Map<Seq<char>, Seq<char>> {
    no_entries().insert(width_key(), default_width_text()).insert(
        height_key(),
        default_height_text(),
    ).insert(icon_key(), default_icon_text()).insert(styles_key(), styles_file)
}

/// Builds the document a freshly initialized settings file holds: the
/// general `encoding=utf-8` entry and the synthesized `[Settings]`
/// values, with the given stylesheet path recorded.
pub fn build_initial_settings_doc(styles_file: &str) -> (doc: ini::Ini)
    ensures
        has_settings_section(doc),
        settings_entries(doc) == initial_entries(styles_file@),
{
    let mut doc = ini_new();
    ini_set_general(&mut doc, "encoding", "utf-8");
    ini_set_setting(&mut doc, "default_width", "680");
    ini_set_setting(&mut doc, "default_height", "364");
    ini_set_setting(&mut doc, "icon_name", "computer");
    ini_set_setting(&mut doc, "styles_file", styles_file);
    doc
}

/// The text a freshly initialized settings file holds: the rendering of a
/// document that carries exactly the synthesized `[Settings]` values and
/// the given stylesheet path.
pub fn initial_settings_text(styles_file: &str) -> (text: String)
    ensures
        (exists|doc: ini::Ini|
            has_settings_section(doc) && settings_entries(doc) == initial_entries(styles_file@)
                && text@ == rendered_of(doc)),
{
    let doc = build_initial_settings_doc(styles_file);
    let text = ini_render(&doc);
    proof {
        assert(has_settings_section(doc) && settings_entries(doc) == initial_entries(styles_file@)
            && text@ == rendered_of(doc));
    }
    text
}

/// The stylesheet written beside a freshly initialized settings file:
/// a transparent scroll container and a slightly translucent monospace
/// terminal surface.
pub open spec fn default_style_text() -> Seq<char> {
    "
.scrolled-window {
    /* background-image: url(\\\".config/termint/background.jpg\\\"); */
    background-size: cover;
    background-repeat: no-repeat;
    background-position: center;
    background-color: rgba(255, 255, 255, 0);
}
.terminal {
    opacity: 0.92;
    font-size: 12px;
    font-family: monospace;
}"@
}

/// The default stylesheet, used both as the content of a freshly written
/// stylesheet file and directly when the settings name no stylesheet.
pub fn default_style() -> (r: String)
    ensures
        r@ == default_style_text(),
{
    String::from_str(
        "
.scrolled-window {
    /* background-image: url(\\\".config/termint/background.jpg\\\"); */
    background-size: cover;
    background-repeat: no-repeat;
    background-position: center;
    background-color: rgba(255, 255, 255, 0);
}
.terminal {
    opacity: 0.92;
    font-size: 12px;
    font-family: monospace;
}",
    )
}

/// Where the default stylesheet lives inside a configuration directory.
pub fn styles_file_path(config_dir: &str) -> (r: String)
    ensures
        r@ == config_dir@ + "/"@ + "styles.css"@,
{
    crate::config::join_path(config_dir, "styles.css")
}

/// What a probe of the configuration directory observed on disk.
#[derive(Debug, PartialEq, Eq, Clone, Copy)]
pub struct DirProbe {
    /// The configuration directory exists.
    pub dir_exists: bool,
    /// The settings file exists inside it.
    pub settings_file_exists: bool,
    /// The stylesheet file exists inside it.
    pub styles_file_exists: bool,
}

/// What initialization must create on disk, as one complete unit.
#[derive(Debug, PartialEq, Eq, Clone, Copy)]
pub struct InitPlan {
    /// Create the configuration directory recursively.
    pub create_dir: bool,
    /// Write the default stylesheet file.
    pub write_styles_file: bool,
    /// Write the freshly built settings file.
    pub write_settings_file: bool,
}

/// The plan initialization follows: when requested, create what is
/// missing; the stylesheet is only written together with a fresh settings
/// file, and never over an existing one.
pub open spec fn init_plan(requested: bool, probe: DirProbe) -> InitPlan {
    InitPlan {
        create_dir: requested && !probe.dir_exists,
        write_styles_file: requested && !probe.settings_file_exists && !probe.styles_file_exists,
        write_settings_file: requested && !probe.settings_file_exists,
    }
}

/// Decides what initialization must create, given what is on disk.
pub fn plan_initialization(requested: bool, probe: &DirProbe) -> (p: InitPlan)
    ensures
        p == init_plan(requested, *probe),
{
    InitPlan {
        create_dir: requested && !probe.dir_exists,
        write_styles_file: requested && !probe.settings_file_exists && !probe.styles_file_exists,
        write_settings_file: requested && !probe.settings_file_exists,
    }
}

/// What the directory looks like after a plan was carried out.
pub open spec fn after_initialization(probe: DirProbe, p: InitPlan) -> DirProbe {
    DirProbe {
        dir_exists: probe.dir_exists || p.create_dir,
        settings_file_exists: probe.settings_file_exists || p.write_settings_file,
        styles_file_exists: probe.styles_file_exists || p.write_styles_file,
    }
}

/// Initialization is idempotent: one requested run leaves the directory
/// and the settings file in place, and a second run right after plans
/// nothing at all — no duplication, no error.
pub proof fn lemma_initialization_idempotent(probe: DirProbe)
    ensures
        after_initialization(probe, init_plan(true, probe)).dir_exists,
        after_initialization(probe, init_plan(true, probe)).settings_file_exists,
        init_plan(true, after_initialization(probe, init_plan(true, probe))) == (InitPlan {
            create_dir: false,
            write_styles_file: false,
            write_settings_file: false,
        }),
{
}

/// From a clean slate, one requested initialization creates the
/// directory, exactly one settings file and exactly one stylesheet file.
pub proof fn lemma_initialization_from_nothing()
    ensures
        after_initialization(
            (DirProbe { dir_exists: false, settings_file_exists: false, styles_file_exists: false }),
            init_plan(
                true,
                DirProbe {
                    dir_exists: false,
                    settings_file_exists: false,
                    styles_file_exists: false,
                },
            ),
        ) == (DirProbe { dir_exists: true, settings_file_exists: true, styles_file_exists: true }),
{
}

/// The synthesized default settings resolve to exactly width 680, height
/// 364 and the "computer" icon: a missing or unparsable settings file can
/// never yield anything else.
pub proof fn lemma_defaults_resolve(s: StoredSettings)
    requires
        is_synthesized_defaults(s),
    ensures
        resolved_dimension(0, opt_string_view(s.default_width), crate::DEFAULT_WIDTH) == 680,
        resolved_dimension(0, opt_string_view(s.default_height), crate::DEFAULT_HEIGHT) == 364,
        opt_string_view(s.icon_name) == Some("computer"@),
{
    reveal_strlit("680");
    reveal_strlit("364");
    let w = default_width_text();
    let h = default_height_text();
    assert(w[0] == '6' && w[1] == '8' && w[2] == '0');
    assert(h[0] == '3' && h[1] == '6' && h[2] == '4');
    crate::numbers::lemma_decimal_value_three(w);
    crate::numbers::lemma_decimal_value_three(h);
    assert(all_decimal_digits(w)) by {
        assert(is_decimal_digit(w[0]) && is_decimal_digit(w[1]) && is_decimal_digit(w[2]));
    }
    assert(all_decimal_digits(h)) by {
        assert(is_decimal_digit(h[0]) && is_decimal_digit(h[1]) && is_decimal_digit(h[2]));
    }
    assert(decimal_value(w) == 680 && decimal_value(h) == 364);
    assert(parsed_u32(w) == Some(680u32) && parsed_u32(h) == Some(364u32));
}

} // verus!
