//! The application-wide settings that the process store is seeded with.

use vstd::prelude::*;
use crate::subsystems::events::{random_safe_id, url_safe_char};
use crate::utils::cryptography::hashing::{hash_str, spec_hash_str};
use crate::utils::time::{sql_text_seconds, sqlstr_to_local, try_sqlstr_to_local};

verus! {

/// The bytes of an unsigned integer in little-endian order, `n` bytes long.
pub open spec fn le_bytes(x: nat, n: nat) -> Seq<u8>
    decreases n,
{
    if n == 0 {
        Seq::empty()
    } else {
        seq![(x % 256) as u8] + le_bytes(x / 256, (n - 1) as nat)
    }
}

/// The variable-length encoding of a length in bincode's standard
/// configuration: up to 250 a single byte; otherwise a marker byte (251, 252
/// or 253) followed by the value in 2, 4 or 8 little-endian bytes.
pub open spec fn bincode_varint(len: nat) -> Seq<u8> {
    if len <= 250 {
        seq![len as u8]
    } else if len <= 0xFFFF {
        seq![251u8] + le_bytes(len, 2)
    } else if len <= 0xFFFF_FFFF {
        seq![252u8] + le_bytes(len, 4)
    } else {
        seq![253u8] + le_bytes(len, 8)
    }
}

/// A text encoded by bincode's standard configuration: the length of its
/// UTF-8 bytes, then the bytes.
pub open spec fn bincode_text(s: Seq<char>) -> Seq<u8> {
    bincode_varint(vstd::utf8::encode_utf8(s).len()) + vstd::utf8::encode_utf8(s)
}

/// The error of bincode's encoders.
#[verifier::external_type_specification]
#[verifier::external_body]
pub struct ExEncodeError(bincode::error::EncodeError);

/// Trusted: `bincode::encode_to_vec` of a `&str` with
/// `bincode::config::standard()`. A string is encoded as its byte slice:
/// the length as a variable-length integer, then the bytes, written into a
/// vector, which cannot fail.
#[verifier::external_body]
fn encode_text(s: &str) -> (r: Result<Vec<u8>, bincode::error::EncodeError>)
    ensures
        r is Ok,
        r matches Ok(v) ==> v@ == bincode_text(s@),
{
    bincode::encode_to_vec(s, bincode::config::standard())
}

/// An encoded setting value.
fn encoded(s: &str) -> (r: Option<Vec<u8>>)
    ensures
        r matches Some(v) && v@ == bincode_text(s@),
{
    match encode_text(s) {
        Ok(v) => Some(v),
        Err(_) => {
            assert(false);
            None
        },
    }
}

/// The light or dark variant of the interface.
#[derive(Debug, Clone, Copy, PartialEq, Eq, Structural)]
pub enum ColorScheme {
    Dark,
    Light,
    Unspecified,
}

/// The theme variant for the system's colour scheme: `dark` for a dark
/// scheme, `light` otherwise.
pub fn choose_day_night(scheme: ColorScheme) -> (r: &'static str)
    ensures
        r@ == match scheme {
            ColorScheme::Dark => "dark"@,
            _ => "light"@,
        },
{
    match scheme {
        ColorScheme::Dark => "dark",
        ColorScheme::Light => "light",
        ColorScheme::Unspecified => "light",
    }
}

/// A row of the settings table: the setting's id, its encoded value (none
/// for a flag, whose state is the `enabled` column) and whether it is
/// enabled.
#[derive(Debug)]
pub struct SettingRow {
    pub id: String,
    pub value: Option<Vec<u8>>,
    pub enabled: bool,
}

/// A settings row as plain values.
pub open spec fn row_view(r: SettingRow) -> (Seq<char>, Option<Seq<u8>>, bool) {
    (
        r.id@,
        match r.value {
            Some(v) => Some(v@),
            None => None,
        },
        r.enabled,
    )
}

/// The settings rows as plain values.
pub open spec fn rows_view(rows: Seq<SettingRow>) -> Seq<(Seq<char>, Option<Seq<u8>>, bool)> {
    rows.map_values(|r: SettingRow| row_view(r))
}

/// A flag row: no value.
pub open spec fn flag(id: Seq<char>, enabled: bool) -> (Seq<char>, Option<Seq<u8>>, bool) {
    (id, None, enabled)
}

/// A text row: the encoded text.
pub open spec fn text_setting(id: Seq<char>, value: Seq<char>, enabled: bool) -> (
    Seq<char>,
    Option<Seq<u8>>,
    bool,
) {
    (id, Some(bincode_text(value)), enabled)
}

/// The settings the store is seeded with, given the current locale and the
/// theme variant for the system's colour scheme.
pub open spec fn spec_default_settings(locale: Seq<char>, variant: Seq<char>) -> Seq<
    (Seq<char>, Option<Seq<u8>>, bool),
> {
    seq![
        flag("runtime.daemon.enable"@, true),
        flag("workspace.load_last"@, false),
        flag("rpc.enabled"@, true),
        text_setting("rpc.client_id"@, ""@, true),
        flag("rpc.enable_idle"@, true),
        flag("rpc.show_current_workspace"@, true),
        flag("rpc.show_current_file"@, true),
        text_setting("language.locale"@, locale, true),
        text_setting("appearance.font.primary"@, "Roboto"@, true),
        text_setting("appearance.font.monospace"@, "Roboto Mono"@, true),
        flag("appearance.font.dyslexic.enable"@, false),
        text_setting("appearance.font.dyslexic.primary"@, "OpenDyslexic"@, true),
        text_setting("appearance.font.dyslexic.monospace"@, "OpenDyslexic Mono"@, true),
        text_setting("appearance.theme.name"@, "Noot"@, true),
        text_setting("appearance.theme.variant"@, variant, true),
        flag("appearance.theme.adaptive_variance"@, false),
        text_setting("appearance.theme.adaptive_variant_day"@, "light"@, false),
        flag("appearance.tts.enable"@, true),
        text_setting("appearance.tts.provider"@, "google"@, true),
    ]
}

/// The dyslexia-friendly font starts off: whatever the locale and theme
/// variant, the seeded settings hold a row for
/// `appearance.font.dyslexic.enable`, and every row with that id is a
/// disabled flag with no value.
pub proof fn lemma_dyslexia_font_starts_off(locale: Seq<char>, variant: Seq<char>)
    ensures
        exists|i: int|
            0 <= i < spec_default_settings(locale, variant).len()
                && (#[trigger] spec_default_settings(locale, variant)[i]).0
                == "appearance.font.dyslexic.enable"@,
        forall|i: int|
            0 <= i < spec_default_settings(locale, variant).len()
                && (#[trigger] spec_default_settings(locale, variant)[i]).0
                == "appearance.font.dyslexic.enable"@ ==> {
                &&& spec_default_settings(locale, variant)[i].1 is None
                &&& !spec_default_settings(locale, variant)[i].2
            },
{
    reveal_strlit("runtime.daemon.enable");
    reveal_strlit("workspace.load_last");
    reveal_strlit("rpc.enabled");
    reveal_strlit("rpc.client_id");
    reveal_strlit("rpc.enable_idle");
    reveal_strlit("rpc.show_current_workspace");
    reveal_strlit("rpc.show_current_file");
    reveal_strlit("language.locale");
    reveal_strlit("appearance.font.primary");
    reveal_strlit("appearance.font.monospace");
    reveal_strlit("appearance.font.dyslexic.enable");
    reveal_strlit("appearance.font.dyslexic.primary");
    reveal_strlit("appearance.font.dyslexic.monospace");
    reveal_strlit("appearance.theme.name");
    reveal_strlit("appearance.theme.variant");
    reveal_strlit("appearance.theme.adaptive_variance");
    reveal_strlit("appearance.theme.adaptive_variant_day");
    reveal_strlit("appearance.tts.enable");
    reveal_strlit("appearance.tts.provider");
    let rows = spec_default_settings(locale, variant);
    assert(rows[10].0 == "appearance.font.dyslexic.enable"@);
    assert forall|i: int|
        0 <= i < rows.len() && (#[trigger] rows[i]).0 == "appearance.font.dyslexic.enable"@ implies i == 10 by {
        assert(rows[i].0.len() == 31);
    }
}

fn push_flag(rows: &mut Vec<SettingRow>, id: &str, enabled: bool)
    ensures
        rows_view(final(rows)@) == rows_view(old(rows)@).push(flag(id@, enabled)),
{
    let ghost before = rows@;
    rows.push(SettingRow { id: String::from_str(id), value: None, enabled });
    assert(rows_view(rows@) =~= rows_view(before).push(flag(id@, enabled)));
}

fn push_text(rows: &mut Vec<SettingRow>, id: &str, value: &str, enabled: bool)
    ensures
        rows_view(final(rows)@) == rows_view(old(rows)@).push(text_setting(id@, value@, enabled)),
{
    let ghost before = rows@;
    rows.push(SettingRow { id: String::from_str(id), value: encoded(value), enabled });
    assert(rows_view(rows@) =~= rows_view(before).push(text_setting(id@, value@, enabled)));
}

/// The rows the settings table is seeded with (each inserted unless the
/// setting already exists): the runtime, presence, language, font, theme and
/// speech settings, text values encoded with bincode.
pub fn default_settings(locale: &str, theme_variant: &str) -> (r: Vec<SettingRow>)
    ensures
        rows_view(r@) == spec_default_settings(locale@, theme_variant@),
{
    let mut rows: Vec<SettingRow> = Vec::new();
    push_flag(&mut rows, "runtime.daemon.enable", true);
    push_flag(&mut rows, "workspace.load_last", false);
    push_flag(&mut rows, "rpc.enabled", true);
    push_text(&mut rows, "rpc.client_id", "", true);
    push_flag(&mut rows, "rpc.enable_idle", true);
    push_flag(&mut rows, "rpc.show_current_workspace", true);
    push_flag(&mut rows, "rpc.show_current_file", true);
    push_text(&mut rows, "language.locale", locale, true);
    push_text(&mut rows, "appearance.font.primary", "Roboto", true);
    push_text(&mut rows, "appearance.font.monospace", "Roboto Mono", true);
    push_flag(&mut rows, "appearance.font.dyslexic.enable", false);
    push_text(&mut rows, "appearance.font.dyslexic.primary", "OpenDyslexic", true);
    push_text(&mut rows, "appearance.font.dyslexic.monospace", "OpenDyslexic Mono", true);
    push_text(&mut rows, "appearance.theme.name", "Noot", true);
    push_text(&mut rows, "appearance.theme.variant", theme_variant, true);
    push_flag(&mut rows, "appearance.theme.adaptive_variance", false);
    push_text(&mut rows, "appearance.theme.adaptive_variant_day", "light", false);
    push_flag(&mut rows, "appearance.tts.enable", true);
    push_text(&mut rows, "appearance.tts.provider", "google", true);
    assert(rows_view(rows@) =~= spec_default_settings(locale@, theme_variant@));
    rows
}

/// Trusted: `bincode::encode_to_vec` of a `u32` with
/// `bincode::config::standard()`: the value as a variable-length integer.
/// This is also how bincode's derived `Encode` writes a field-less enum
/// value: its variant index as a `u32`.
#[verifier::external_body]
fn encode_index(index: u32) -> (r: Result<Vec<u8>, bincode::error::EncodeError>)
    ensures
        r is Ok,
        r matches Ok(v) ==> v@ == bincode_varint(index as nat),
{
    bincode::encode_to_vec(index, bincode::config::standard())
}

fn push_index_setting(rows: &mut Vec<SettingRow>, id: &str, index: u32, enabled: bool)
    ensures
        rows_view(final(rows)@) == rows_view(old(rows)@).push(
            (id@, Some(bincode_varint(index as nat)), enabled),
        ),
{
    let value = match encode_index(index) {
        Ok(v) => v,
        Err(_) => {
            assert(false);
            Vec::new()
        },
    };
    let ghost before = rows@;
    rows.push(SettingRow { id: String::from_str(id), value: Some(value), enabled });
    assert(rows_view(rows@) =~= rows_view(before).push(
        (id@, Some(bincode_varint(index as nat)), enabled),
    ));
}

/// The settings a new workspace's store is given: plugins off and unpacked
/// plugins refused; assets cached as blobs (variant 1 of the caching
/// strategy); all remote data fetched (variant 2 of the remote data
/// strategy), a setting that starts disabled.
pub open spec fn spec_workspace_settings() -> Seq<(Seq<char>, Option<Seq<u8>>, bool)> {
    seq![
        flag("plugins.enable"@, false),
        flag("plugins.allow-unpacked"@, false),
        ("assets.cache-strategy"@, Some(bincode_varint(1)), true),
        ("assets.fetch-remote"@, Some(bincode_varint(2)), false),
    ]
}

/// The settings a new workspace's store is given (see
/// `spec_workspace_settings`), enum values encoded as bincode does.
pub fn workspace_settings() -> (r: Vec<SettingRow>)
    ensures
        rows_view(r@) == spec_workspace_settings(),
{
    let mut rows: Vec<SettingRow> = Vec::new();
    push_flag(&mut rows, "plugins.enable", false);
    push_flag(&mut rows, "plugins.allow-unpacked", false);
    push_index_setting(&mut rows, "assets.cache-strategy", 1, true);
    push_index_setting(&mut rows, "assets.fetch-remote", 2, false);
    assert(rows_view(rows@) =~= spec_workspace_settings());
    rows
}

/// A workspace known to the process store: a short id, the hash of the id,
/// a name, the directory it lives in, and when it was last opened (seconds
/// since the Unix epoch).
#[derive(Debug, Clone)]
pub struct Workspace {
    pub id: String,
    pub long_id: String,
    pub name: String,
    pub disk_path: String,
    pub last_accessed: i64,
}

/// The record of a new workspace: a fresh random 5-character id of the
/// URL-safe alphabet, the hash of the id as its long id, the given name and
/// directory, and the time it is created at.
pub fn new_workspace(name: String, path: String, now: i64) -> (r: Workspace)
    ensures
        r.id@.len() == 5,
        forall|i: int| 0 <= i < 5 ==> url_safe_char(#[trigger] r.id@[i]),
        r.long_id@ == spec_hash_str(r.id@),
        r.name == name,
        r.disk_path == path,
        r.last_accessed == now,
{
    let id = random_safe_id(5);
    let long_id = hash_str(id.as_str());
    Workspace { id, long_id, name, disk_path: path, last_accessed: now }
}

/// The workspace a row of the workspaces table describes: its id, name,
/// directory and the stored text of its last access (read as UTC). The
/// long id is read from the id column as well.
pub fn workspace_from_row(id: String, name: String, disk_path: String, last_accessed: &str) -> (r: Workspace)
    requires
        sql_text_seconds(last_accessed@) is Some,
    ensures
        r.id == id,
        r.long_id@ == id@,
        r.name == name,
        r.disk_path == disk_path,
        sql_text_seconds(last_accessed@) == Some(r.last_accessed),
{
    let long_id = id.clone();
    Workspace { id, long_id, name, disk_path, last_accessed: sqlstr_to_local(last_accessed) }
}

/// The workspace a row describes, or `None` when its last access does not
/// read as a stored time.
pub fn try_workspace_from_row(id: String, name: String, disk_path: String, last_accessed: &str) -> (r: Option<Workspace>)
    ensures
        match r {
            Some(w) => {
                &&& w.id == id
                &&& w.long_id@ == id@
                &&& w.name == name
                &&& w.disk_path == disk_path
                &&& sql_text_seconds(last_accessed@) == Some(w.last_accessed)
            },
            None => sql_text_seconds(last_accessed@) is None,
        },
{
    match try_sqlstr_to_local(last_accessed) {
        Some(_) => Some(workspace_from_row(id, name, disk_path, last_accessed)),
        None => None,
    }
}

} // verus!
