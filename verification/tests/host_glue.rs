//! Tests of the host-facing decisions: emblems, context-menu actions, the
//! framing helpers, and the per-user endpoint path.

use gdrivexp_bridge::endpoint::{format_u32, socket_path_for_uid};
use gdrivexp_bridge::frame::{frame_payload, u32_from_be, u32_to_be};
use gdrivexp_bridge::menu::{
    menu_action_for, menu_item_icon, menu_item_label, menu_item_name, menu_item_tip, menu_uri_ok,
    select_menu_action, MenuAction,
};
use gdrivexp_bridge::provider::{emblems_for, plan_file_update, NautilusOperationResult};
use gdrivexp_bridge::status::{FileAvailability, FileStatusData, SyncStatus};
use gdrivexp_bridge::uri::{is_file_uri, uri_local_path};

fn snap(status: SyncStatus, shared: bool) -> FileStatusData {
    FileStatusData { status, availability: FileAvailability::NotTracked, is_shared: shared }
}

#[test]
fn emblem_per_status() {
    assert_eq!(emblems_for(&snap(SyncStatus::Synced, false)), vec!["emblem-gdrivexp-synced"]);
    assert_eq!(emblems_for(&snap(SyncStatus::CloudOnly, false)), vec!["emblem-gdrivexp-cloud"]);
    assert_eq!(emblems_for(&snap(SyncStatus::LocalOnly, false)), vec!["emblem-gdrivexp-local"]);
    assert_eq!(emblems_for(&snap(SyncStatus::Error, false)), vec!["emblem-gdrivexp-error"]);
    assert_eq!(emblems_for(&snap(SyncStatus::Unknown, false)), Vec::<&str>::new());
}

#[test]
fn shared_emblem_added_first() {
    assert_eq!(
        emblems_for(&snap(SyncStatus::Synced, true)),
        vec!["emblem-shared", "emblem-gdrivexp-synced"]
    );
    assert_eq!(emblems_for(&snap(SyncStatus::Unknown, true)), vec!["emblem-shared"]);
}

#[test]
fn update_ignores_non_file_uris() {
    let (emblems, result) = plan_file_update("sftp://host/a.txt", &snap(SyncStatus::Synced, true));
    assert!(emblems.is_empty());
    assert_eq!(result, NautilusOperationResult::Complete);
    let (emblems, result) =
        plan_file_update("file:///home/u/a.txt", &snap(SyncStatus::Synced, false));
    assert_eq!(emblems, vec!["emblem-gdrivexp-synced"]);
    assert_eq!(result, NautilusOperationResult::Complete);
}

#[test]
fn file_uri_recognition() {
    assert!(is_file_uri("file:///home/u/a.txt"));
    assert!(!is_file_uri("https://example.org/a.txt"));
    assert!(!is_file_uri("file:/"));
    assert!(!is_file_uri(""));
    assert_eq!(uri_local_path("file:///home/u/a.txt"), "/home/u/a.txt");
}

#[test]
fn menu_action_per_status() {
    assert_eq!(menu_action_for(SyncStatus::Synced), Some(MenuAction::FreeSpace));
    assert_eq!(menu_action_for(SyncStatus::CloudOnly), Some(MenuAction::KeepLocal));
    assert_eq!(menu_action_for(SyncStatus::LocalOnly), None);
    assert_eq!(menu_action_for(SyncStatus::Error), None);
    assert_eq!(menu_action_for(SyncStatus::Unknown), None);
}

#[test]
fn menu_selection_full_path() {
    let uri = "file:///home/u/a.txt";
    assert_eq!(select_menu_action(uri, Some(SyncStatus::Synced)), Some(MenuAction::FreeSpace));
    assert_eq!(select_menu_action(uri, Some(SyncStatus::CloudOnly)), Some(MenuAction::KeepLocal));
    assert_eq!(select_menu_action(uri, Some(SyncStatus::LocalOnly)), None);
    assert_eq!(select_menu_action(uri, None), None);
    assert_eq!(select_menu_action("https://example.org/a", Some(SyncStatus::Synced)), None);
}

#[test]
fn menu_handles_percent_encoded_paths() {
    // A percent-encoded space decodes fine ...
    assert!(menu_uri_ok("file:///home/u/a%20b.txt"));
    assert_eq!(
        select_menu_action("file:///home/u/a%20b.txt", Some(SyncStatus::Synced)),
        Some(MenuAction::FreeSpace)
    );
    // ... but a lone 0xFF byte is not UTF-8, so the file gets no menu even
    // when its state would offer one.
    assert!(!menu_uri_ok("file:///home/u/a%FF"));
    assert_eq!(select_menu_action("file:///home/u/a%FF", Some(SyncStatus::Synced)), None);
}

#[test]
fn menu_item_texts() {
    assert_eq!(menu_item_name(MenuAction::FreeSpace), "gdrivexp::free_space");
    assert_eq!(menu_item_label(MenuAction::FreeSpace), "Liberar espacio");
    assert_eq!(menu_item_tip(MenuAction::FreeSpace), "Eliminar copia local, mantener en la nube");
    assert_eq!(menu_item_icon(MenuAction::FreeSpace), "weather-few-clouds-symbolic");
    assert_eq!(menu_item_name(MenuAction::KeepLocal), "gdrivexp::keep_local");
    assert_eq!(menu_item_label(MenuAction::KeepLocal), "Mantener siempre local");
    assert_eq!(menu_item_tip(MenuAction::KeepLocal), "Descargar y mantener copia local");
    assert_eq!(menu_item_icon(MenuAction::KeepLocal), "folder-download-symbolic");
}

#[test]
fn big_endian_length_prefix() {
    assert_eq!(u32_to_be(0), vec![0, 0, 0, 0]);
    assert_eq!(u32_to_be(4096), vec![0, 0, 16, 0]);
    assert_eq!(u32_to_be(0x01020304), vec![1, 2, 3, 4]);
    assert_eq!(u32_from_be(&[1, 2, 3, 4]), 0x01020304);
    assert_eq!(u32_from_be(&[0xff, 0xff, 0xff, 0xff]), u32::MAX);
}

#[test]
fn framing_prepends_length() {
    let payload = vec![7u8, 8, 9];
    assert_eq!(frame_payload(&payload), vec![0, 0, 0, 3, 7, 8, 9]);
    let empty: Vec<u8> = Vec::new();
    assert_eq!(frame_payload(&empty), vec![0, 0, 0, 0]);
}

#[test]
fn decimal_formatting() {
    assert_eq!(format_u32(0), b"0".to_vec());
    assert_eq!(format_u32(7), b"7".to_vec());
    assert_eq!(format_u32(1000), b"1000".to_vec());
    assert_eq!(format_u32(u32::MAX), b"4294967295".to_vec());
}

#[test]
fn socket_path_per_user() {
    assert_eq!(socket_path_for_uid(1000), b"/run/user/1000/gdrivexp.sock".to_vec());
    assert_eq!(socket_path_for_uid(0), b"/run/user/0/gdrivexp.sock".to_vec());
}
