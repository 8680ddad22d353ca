//! Which context-menu action, if any, a file's sync state offers.
//!
//! A fully synced file offers "free the local space"; a cloud-only file
//! offers "keep a local copy"; everything else offers nothing.  Only local
//! `file://` URIs whose path percent-decodes to valid UTF-8 are considered.

use vstd::prelude::*;

use crate::status::SyncStatus;
use crate::uri::is_file_uri;
use crate::uri::spec_is_file_uri;
use crate::uri::uri_local_path;

verus! {

/// The two state-changing actions the menu can offer.
#[derive(Debug, Clone, Copy, PartialEq, Eq, Structural)]
pub enum MenuAction {
    /// Drop the local copy, keep the file in the cloud.
    FreeSpace,
    /// Download the file and keep a local copy.
    KeepLocal,
}

/// What `percent_decode_utf8` returns: the string with each `%XY` escape
/// replaced by the byte `XY`, read back as UTF-8; `None` exactly when those
/// bytes are not valid UTF-8.
pub uninterp spec fn percent_decoded(s: Seq<char>) -> Option<Seq<char>>;

/// Relies on `percent_encoding::percent_decode_str` and
/// `PercentDecode::decode_utf8`: percent-decoding replaces each `%` followed
/// by two hex digits with the named byte and passes every other byte through,
/// and decoding fails exactly when the result is not valid UTF-8.  Both are
/// pure functions of the input, named here by [`percent_decoded`].
#[verifier::external_body]
pub(crate) fn percent_decode_utf8(s: &str) -> (r: Option<String>)
    ensures
        match r {
            Some(t) => percent_decoded(s@) == Some(t@) && ((forall|i: int|
                0 <= i < s@.len() ==> s@[i] != '%') ==> t@ == s@),
            None => percent_decoded(s@) is None && (exists|i: int|
                0 <= i < s@.len() && s@[i] == '%'),
        },
{
    match percent_encoding::percent_decode_str(s).decode_utf8() {
        Ok(t) => Some(t.into_owned()),
        Err(_) => None,
    }
}

/// The action a sync state offers.
pub open spec fn spec_menu_action(status: SyncStatus) -> Option<MenuAction> {
    match status {
        SyncStatus::Synced => Some(MenuAction::FreeSpace),
        SyncStatus::CloudOnly => Some(MenuAction::KeepLocal),
        _ => None,
    }
}

/// Computes [`spec_menu_action`] in executable code.
pub fn menu_action_for(status: SyncStatus) -> (r: Option<MenuAction>)
    ensures
        r == spec_menu_action(status),
{
    match status {
        SyncStatus::Synced => Some(MenuAction::FreeSpace),
        SyncStatus::CloudOnly => Some(MenuAction::KeepLocal),
        _ => None,
    }
}

/// Whether a URI may get a menu at all: a `file://` URI whose path
/// percent-decodes to valid UTF-8.
pub open spec fn spec_menu_uri_ok(uri: Seq<char>) -> bool {
    spec_is_file_uri(uri) && percent_decoded(uri.skip(7)) is Some
}

/// Checks [`spec_menu_uri_ok`] in executable code.
pub fn menu_uri_ok(uri: &str) -> (r: bool)
    ensures
        r == spec_menu_uri_ok(uri@),
{
    if !is_file_uri(uri) {
        return false;
    }
    let path = uri_local_path(uri);
    percent_decode_utf8(path).is_some()
}

/// The action the menu offers for a URI in a given sync state.
pub open spec fn spec_select_menu_action(uri: Seq<char>, status: Option<SyncStatus>) -> Option<
    MenuAction,
> {
    if !spec_menu_uri_ok(uri) {
        None
    } else {
        match status {
            Some(s) => spec_menu_action(s),
            None => None,
        }
    }
}

/// Decides the menu for one selected file: nothing for a URI outside the
/// local `file://` space or with an undecodable path, else exactly what the
/// sync state offers.  A `status` of `None` stands for a failed status query
/// and offers nothing.
pub fn select_menu_action(uri: &str, status: Option<SyncStatus>) -> (r: Option<MenuAction>)
    ensures
        r == spec_select_menu_action(uri@, status),
{
    if !menu_uri_ok(uri) {
        return None;
    }
    match status {
        Some(s) => menu_action_for(s),
        None => None,
    }
}

/// The internal name of a menu item.
pub fn menu_item_name(a: MenuAction) -> (r: &'static str)
    ensures
        a == MenuAction::FreeSpace ==> r@ == "gdrivexp::free_space"@,
        a == MenuAction::KeepLocal ==> r@ == "gdrivexp::keep_local"@,
{
    match a {
        MenuAction::FreeSpace => "gdrivexp::free_space",
        MenuAction::KeepLocal => "gdrivexp::keep_local",
    }
}

/// The label a menu item shows.
pub fn menu_item_label(a: MenuAction) -> (r: &'static str)
    ensures
        a == MenuAction::FreeSpace ==> r@ == "Liberar espacio"@,
        a == MenuAction::KeepLocal ==> r@ == "Mantener siempre local"@,
{
    match a {
        MenuAction::FreeSpace => "Liberar espacio",
        MenuAction::KeepLocal => "Mantener siempre local",
    }
}

/// The tooltip a menu item shows.
pub fn menu_item_tip(a: MenuAction) -> (r: &'static str)
    ensures
        a == MenuAction::FreeSpace ==> r@ == "Eliminar copia local, mantener en la nube"@,
        a == MenuAction::KeepLocal ==> r@ == "Descargar y mantener copia local"@,
{
    match a {
        MenuAction::FreeSpace => "Eliminar copia local, mantener en la nube",
        MenuAction::KeepLocal => "Descargar y mantener copia local",
    }
}

/// The icon a menu item shows.
pub fn menu_item_icon(a: MenuAction) -> (r: &'static str)
    ensures
        a == MenuAction::FreeSpace ==> r@ == "weather-few-clouds-symbolic"@,
        a == MenuAction::KeepLocal ==> r@ == "folder-download-symbolic"@,
{
    match a {
        MenuAction::FreeSpace => "weather-few-clouds-symbolic",
        MenuAction::KeepLocal => "folder-download-symbolic",
    }
}

} // verus!
