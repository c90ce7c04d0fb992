//! Facts about the message catalogs that the default configuration relies on: each
//! built-in category key has the expected name in each language, and those names differ.
use vstd::prelude::*;
use crate::config::{default_rules, rules_names_distinct};
use crate::i18n::{chinese_text, english_text, Language};

verus! {

proof fn lemma_en_images()
    ensures
        english_text("category_images"@) == Some("Images"@),
{
    reveal_strlit("category_images");
    reveal_strlit("trial_ended");
    assert("category_images"@.len() != "trial_ended"@.len());
    reveal_strlit("init_failed");
    assert("category_images"@.len() != "init_failed"@.len());
    reveal_strlit("organize_failed");
    assert("category_images"@[0] != "organize_failed"@[0]);
    reveal_strlit("monitoring_start_failed");
    assert("category_images"@.len() != "monitoring_start_failed"@.len());
    reveal_strlit("load_config_failed");
    assert("category_images"@.len() != "load_config_failed"@.len());
    reveal_strlit("save_config_failed");
    assert("category_images"@.len() != "save_config_failed"@.len());
    reveal_strlit("folder_selection_cancelled");
    assert("category_images"@.len() != "folder_selection_cancelled"@.len());
    reveal_strlit("downloads_folder_not_found");
    assert("category_images"@.len() != "downloads_folder_not_found"@.len());
    reveal_strlit("config_saved");
    assert("category_images"@.len() != "config_saved"@.len());
    reveal_strlit("files_organized");
    assert("category_images"@[0] != "files_organized"@[0]);
    reveal_strlit("monitoring_stopped_title");
    assert("category_images"@.len() != "monitoring_stopped_title"@.len());
    reveal_strlit("monitoring_stopped_body");
    assert("category_images"@.len() != "monitoring_stopped_body"@.len());
    reveal_strlit("monitoring_started_title");
    assert("category_images"@.len() != "monitoring_started_title"@.len());
    reveal_strlit("monitoring_started_body");
    assert("category_images"@.len() != "monitoring_started_body"@.len());
    reveal_strlit("enable_autostart_failed");
    assert("category_images"@.len() != "enable_autostart_failed"@.len());
    reveal_strlit("disable_autostart_failed");
    assert("category_images"@.len() != "disable_autostart_failed"@.len());
    reveal_strlit("settings_saved");
    assert("category_images"@.len() != "settings_saved"@.len());
    reveal_strlit("save_settings_failed");
    assert("category_images"@.len() != "save_settings_failed"@.len());
    reveal_strlit("setting_updated");
    assert("category_images"@[0] != "setting_updated"@[0]);
    reveal_strlit("show_window");
    assert("category_images"@.len() != "show_window"@.len());
    reveal_strlit("hide_window");
    assert("category_images"@.len() != "hide_window"@.len());
    reveal_strlit("quit");
    assert("category_images"@.len() != "quit"@.len());
    reveal_strlit("fetch_packages_failed");
    assert("category_images"@.len() != "fetch_packages_failed"@.len());
    reveal_strlit("payment_disabled");
    assert("category_images"@.len() != "payment_disabled"@.len());
    reveal_strlit("apple_purchase_init_failed");
    assert("category_images"@.len() != "apple_purchase_init_failed"@.len());
    reveal_strlit("apple_purchase_start_failed");
    assert("category_images"@.len() != "apple_purchase_start_failed"@.len());
    reveal_strlit("apple_purchase_started");
    assert("category_images"@.len() != "apple_purchase_started"@.len());
    reveal_strlit("apple_purchase_macos_only");
    assert("category_images"@.len() != "apple_purchase_macos_only"@.len());
    reveal_strlit("apple_receipt_verify_success");
    assert("category_images"@.len() != "apple_receipt_verify_success"@.len());
    reveal_strlit("apple_receipt_verify_success_title");
    assert("category_images"@.len() != "apple_receipt_verify_success_title"@.len());
    reveal_strlit("apple_receipt_verify_failed");
    assert("category_images"@.len() != "apple_receipt_verify_failed"@.len());
    reveal_strlit("main_window_not_found");
    assert("category_images"@.len() != "main_window_not_found"@.len());
    reveal_strlit("config_file_description");
    assert("category_images"@.len() != "config_file_description"@.len());
}

proof fn lemma_en_documents()
    ensures
        english_text("category_documents"@) == Some("Documents"@),
{
    reveal_strlit("category_documents");
    reveal_strlit("trial_ended");
    assert("category_documents"@.len() != "trial_ended"@.len());
    reveal_strlit("init_failed");
    assert("category_documents"@.len() != "init_failed"@.len());
    reveal_strlit("organize_failed");
    assert("category_documents"@.len() != "organize_failed"@.len());
    reveal_strlit("monitoring_start_failed");
    assert("category_documents"@.len() != "monitoring_start_failed"@.len());
    reveal_strlit("load_config_failed");
    assert("category_documents"@[0] != "load_config_failed"@[0]);
    reveal_strlit("save_config_failed");
    assert("category_documents"@[0] != "save_config_failed"@[0]);
    reveal_strlit("folder_selection_cancelled");
    assert("category_documents"@.len() != "folder_selection_cancelled"@.len());
    reveal_strlit("downloads_folder_not_found");
    assert("category_documents"@.len() != "downloads_folder_not_found"@.len());
    reveal_strlit("config_saved");
    assert("category_documents"@.len() != "config_saved"@.len());
    reveal_strlit("files_organized");
    assert("category_documents"@.len() != "files_organized"@.len());
    reveal_strlit("monitoring_stopped_title");
    assert("category_documents"@.len() != "monitoring_stopped_title"@.len());
    reveal_strlit("monitoring_stopped_body");
    assert("category_documents"@.len() != "monitoring_stopped_body"@.len());
    reveal_strlit("monitoring_started_title");
    assert("category_documents"@.len() != "monitoring_started_title"@.len());
    reveal_strlit("monitoring_started_body");
    assert("category_documents"@.len() != "monitoring_started_body"@.len());
    reveal_strlit("enable_autostart_failed");
    assert("category_documents"@.len() != "enable_autostart_failed"@.len());
    reveal_strlit("disable_autostart_failed");
    assert("category_documents"@.len() != "disable_autostart_failed"@.len());
    reveal_strlit("settings_saved");
    assert("category_documents"@.len() != "settings_saved"@.len());
    reveal_strlit("save_settings_failed");
    assert("category_documents"@.len() != "save_settings_failed"@.len());
    reveal_strlit("setting_updated");
    assert("category_documents"@.len() != "setting_updated"@.len());
    reveal_strlit("show_window");
    assert("category_documents"@.len() != "show_window"@.len());
    reveal_strlit("hide_window");
    assert("category_documents"@.len() != "hide_window"@.len());
    reveal_strlit("quit");
    assert("category_documents"@.len() != "quit"@.len());
    reveal_strlit("fetch_packages_failed");
    assert("category_documents"@.len() != "fetch_packages_failed"@.len());
    reveal_strlit("payment_disabled");
    assert("category_documents"@.len() != "payment_disabled"@.len());
    reveal_strlit("apple_purchase_init_failed");
    assert("category_documents"@.len() != "apple_purchase_init_failed"@.len());
    reveal_strlit("apple_purchase_start_failed");
    assert("category_documents"@.len() != "apple_purchase_start_failed"@.len());
    reveal_strlit("apple_purchase_started");
    assert("category_documents"@.len() != "apple_purchase_started"@.len());
    reveal_strlit("apple_purchase_macos_only");
    assert("category_documents"@.len() != "apple_purchase_macos_only"@.len());
    reveal_strlit("apple_receipt_verify_success");
    assert("category_documents"@.len() != "apple_receipt_verify_success"@.len());
    reveal_strlit("apple_receipt_verify_success_title");
    assert("category_documents"@.len() != "apple_receipt_verify_success_title"@.len());
    reveal_strlit("apple_receipt_verify_failed");
    assert("category_documents"@.len() != "apple_receipt_verify_failed"@.len());
    reveal_strlit("main_window_not_found");
    assert("category_documents"@.len() != "main_window_not_found"@.len());
    reveal_strlit("config_file_description");
    assert("category_documents"@.len() != "config_file_description"@.len());
    reveal_strlit("category_images");
    assert("category_documents"@.len() != "category_images"@.len());
}

proof fn lemma_en_spreadsheets()
    ensures
        english_text("category_spreadsheets"@) == Some("Spreadsheets"@),
{
    reveal_strlit("category_spreadsheets");
    reveal_strlit("trial_ended");
    assert("category_spreadsheets"@.len() != "trial_ended"@.len());
    reveal_strlit("init_failed");
    assert("category_spreadsheets"@.len() != "init_failed"@.len());
    reveal_strlit("organize_failed");
    assert("category_spreadsheets"@.len() != "organize_failed"@.len());
    reveal_strlit("monitoring_start_failed");
    assert("category_spreadsheets"@.len() != "monitoring_start_failed"@.len());
    reveal_strlit("load_config_failed");
    assert("category_spreadsheets"@.len() != "load_config_failed"@.len());
    reveal_strlit("save_config_failed");
    assert("category_spreadsheets"@.len() != "save_config_failed"@.len());
    reveal_strlit("folder_selection_cancelled");
    assert("category_spreadsheets"@.len() != "folder_selection_cancelled"@.len());
    reveal_strlit("downloads_folder_not_found");
    assert("category_spreadsheets"@.len() != "downloads_folder_not_found"@.len());
    reveal_strlit("config_saved");
    assert("category_spreadsheets"@.len() != "config_saved"@.len());
    reveal_strlit("files_organized");
    assert("category_spreadsheets"@.len() != "files_organized"@.len());
    reveal_strlit("monitoring_stopped_title");
    assert("category_spreadsheets"@.len() != "monitoring_stopped_title"@.len());
    reveal_strlit("monitoring_stopped_body");
    assert("category_spreadsheets"@.len() != "monitoring_stopped_body"@.len());
    reveal_strlit("monitoring_started_title");
    assert("category_spreadsheets"@.len() != "monitoring_started_title"@.len());
    reveal_strlit("monitoring_started_body");
    assert("category_spreadsheets"@.len() != "monitoring_started_body"@.len());
    reveal_strlit("enable_autostart_failed");
    assert("category_spreadsheets"@.len() != "enable_autostart_failed"@.len());
    reveal_strlit("disable_autostart_failed");
    assert("category_spreadsheets"@.len() != "disable_autostart_failed"@.len());
    reveal_strlit("settings_saved");
    assert("category_spreadsheets"@.len() != "settings_saved"@.len());
    reveal_strlit("save_settings_failed");
    assert("category_spreadsheets"@.len() != "save_settings_failed"@.len());
    reveal_strlit("setting_updated");
    assert("category_spreadsheets"@.len() != "setting_updated"@.len());
    reveal_strlit("show_window");
    assert("category_spreadsheets"@.len() != "show_window"@.len());
    reveal_strlit("hide_window");
    assert("category_spreadsheets"@.len() != "hide_window"@.len());
    reveal_strlit("quit");
    assert("category_spreadsheets"@.len() != "quit"@.len());
    reveal_strlit("fetch_packages_failed");
    assert("category_spreadsheets"@[0] != "fetch_packages_failed"@[0]);
    reveal_strlit("payment_disabled");
    assert("category_spreadsheets"@.len() != "payment_disabled"@.len());
    reveal_strlit("apple_purchase_init_failed");
    assert("category_spreadsheets"@.len() != "apple_purchase_init_failed"@.len());
    reveal_strlit("apple_purchase_start_failed");
    assert("category_spreadsheets"@.len() != "apple_purchase_start_failed"@.len());
    reveal_strlit("apple_purchase_started");
    assert("category_spreadsheets"@.len() != "apple_purchase_started"@.len());
    reveal_strlit("apple_purchase_macos_only");
    assert("category_spreadsheets"@.len() != "apple_purchase_macos_only"@.len());
    reveal_strlit("apple_receipt_verify_success");
    assert("category_spreadsheets"@.len() != "apple_receipt_verify_success"@.len());
    reveal_strlit("apple_receipt_verify_success_title");
    assert("category_spreadsheets"@.len() != "apple_receipt_verify_success_title"@.len());
    reveal_strlit("apple_receipt_verify_failed");
    assert("category_spreadsheets"@.len() != "apple_receipt_verify_failed"@.len());
    reveal_strlit("main_window_not_found");
    assert("category_spreadsheets"@[0] != "main_window_not_found"@[0]);
    reveal_strlit("config_file_description");
    assert("category_spreadsheets"@.len() != "config_file_description"@.len());
    reveal_strlit("category_images");
    assert("category_spreadsheets"@.len() != "category_images"@.len());
    reveal_strlit("category_documents");
    assert("category_spreadsheets"@.len() != "category_documents"@.len());
}

proof fn lemma_en_presentations()
    ensures
        english_text("category_presentations"@) == Some("Presentations"@),
{
    reveal_strlit("category_presentations");
    reveal_strlit("trial_ended");
    assert("category_presentations"@.len() != "trial_ended"@.len());
    reveal_strlit("init_failed");
    assert("category_presentations"@.len() != "init_failed"@.len());
    reveal_strlit("organize_failed");
    assert("category_presentations"@.len() != "organize_failed"@.len());
    reveal_strlit("monitoring_start_failed");
    assert("category_presentations"@.len() != "monitoring_start_failed"@.len());
    reveal_strlit("load_config_failed");
    assert("category_presentations"@.len() != "load_config_failed"@.len());
    reveal_strlit("save_config_failed");
    assert("category_presentations"@.len() != "save_config_failed"@.len());
    reveal_strlit("folder_selection_cancelled");
    assert("category_presentations"@.len() != "folder_selection_cancelled"@.len());
    reveal_strlit("downloads_folder_not_found");
    assert("category_presentations"@.len() != "downloads_folder_not_found"@.len());
    reveal_strlit("config_saved");
    assert("category_presentations"@.len() != "config_saved"@.len());
    reveal_strlit("files_organized");
    assert("category_presentations"@.len() != "files_organized"@.len());
    reveal_strlit("monitoring_stopped_title");
    assert("category_presentations"@.len() != "monitoring_stopped_title"@.len());
    reveal_strlit("monitoring_stopped_body");
    assert("category_presentations"@.len() != "monitoring_stopped_body"@.len());
    reveal_strlit("monitoring_started_title");
    assert("category_presentations"@.len() != "monitoring_started_title"@.len());
    reveal_strlit("monitoring_started_body");
    assert("category_presentations"@.len() != "monitoring_started_body"@.len());
    reveal_strlit("enable_autostart_failed");
    assert("category_presentations"@.len() != "enable_autostart_failed"@.len());
    reveal_strlit("disable_autostart_failed");
    assert("category_presentations"@.len() != "disable_autostart_failed"@.len());
    reveal_strlit("settings_saved");
    assert("category_presentations"@.len() != "settings_saved"@.len());
    reveal_strlit("save_settings_failed");
    assert("category_presentations"@.len() != "save_settings_failed"@.len());
    reveal_strlit("setting_updated");
    assert("category_presentations"@.len() != "setting_updated"@.len());
    reveal_strlit("show_window");
    assert("category_presentations"@.len() != "show_window"@.len());
    reveal_strlit("hide_window");
    assert("category_presentations"@.len() != "hide_window"@.len());
    reveal_strlit("quit");
    assert("category_presentations"@.len() != "quit"@.len());
    reveal_strlit("fetch_packages_failed");
    assert("category_presentations"@.len() != "fetch_packages_failed"@.len());
    reveal_strlit("payment_disabled");
    assert("category_presentations"@.len() != "payment_disabled"@.len());
    reveal_strlit("apple_purchase_init_failed");
    assert("category_presentations"@.len() != "apple_purchase_init_failed"@.len());
    reveal_strlit("apple_purchase_start_failed");
    assert("category_presentations"@.len() != "apple_purchase_start_failed"@.len());
    reveal_strlit("apple_purchase_started");
    assert("category_presentations"@[0] != "apple_purchase_started"@[0]);
    reveal_strlit("apple_purchase_macos_only");
    assert("category_presentations"@.len() != "apple_purchase_macos_only"@.len());
    reveal_strlit("apple_receipt_verify_success");
    assert("category_presentations"@.len() != "apple_receipt_verify_success"@.len());
    reveal_strlit("apple_receipt_verify_success_title");
    assert("category_presentations"@.len() != "apple_receipt_verify_success_title"@.len());
    reveal_strlit("apple_receipt_verify_failed");
    assert("category_presentations"@.len() != "apple_receipt_verify_failed"@.len());
    reveal_strlit("main_window_not_found");
    assert("category_presentations"@.len() != "main_window_not_found"@.len());
    reveal_strlit("config_file_description");
    assert("category_presentations"@.len() != "config_file_description"@.len());
    reveal_strlit("category_images");
    assert("category_presentations"@.len() != "category_images"@.len());
    reveal_strlit("category_documents");
    assert("category_presentations"@.len() != "category_documents"@.len());
    reveal_strlit("category_spreadsheets");
    assert("category_presentations"@.len() != "category_spreadsheets"@.len());
}

proof fn lemma_en_audio()
    ensures
        english_text("category_audio"@) == Some("Audio"@),
{
    reveal_strlit("category_audio");
    reveal_strlit("trial_ended");
    assert("category_audio"@.len() != "trial_ended"@.len());
    reveal_strlit("init_failed");
    assert("category_audio"@.len() != "init_failed"@.len());
    reveal_strlit("organize_failed");
    assert("category_audio"@.len() != "organize_failed"@.len());
    reveal_strlit("monitoring_start_failed");
    assert("category_audio"@.len() != "monitoring_start_failed"@.len());
    reveal_strlit("load_config_failed");
    assert("category_audio"@.len() != "load_config_failed"@.len());
    reveal_strlit("save_config_failed");
    assert("category_audio"@.len() != "save_config_failed"@.len());
    reveal_strlit("folder_selection_cancelled");
    assert("category_audio"@.len() != "folder_selection_cancelled"@.len());
    reveal_strlit("downloads_folder_not_found");
    assert("category_audio"@.len() != "downloads_folder_not_found"@.len());
    reveal_strlit("config_saved");
    assert("category_audio"@.len() != "config_saved"@.len());
    reveal_strlit("files_organized");
    assert("category_audio"@.len() != "files_organized"@.len());
    reveal_strlit("monitoring_stopped_title");
    assert("category_audio"@.len() != "monitoring_stopped_title"@.len());
    reveal_strlit("monitoring_stopped_body");
    assert("category_audio"@.len() != "monitoring_stopped_body"@.len());
    reveal_strlit("monitoring_started_title");
    assert("category_audio"@.len() != "monitoring_started_title"@.len());
    reveal_strlit("monitoring_started_body");
    assert("category_audio"@.len() != "monitoring_started_body"@.len());
    reveal_strlit("enable_autostart_failed");
    assert("category_audio"@.len() != "enable_autostart_failed"@.len());
    reveal_strlit("disable_autostart_failed");
    assert("category_audio"@.len() != "disable_autostart_failed"@.len());
    reveal_strlit("settings_saved");
    assert("category_audio"@[0] != "settings_saved"@[0]);
    reveal_strlit("save_settings_failed");
    assert("category_audio"@.len() != "save_settings_failed"@.len());
    reveal_strlit("setting_updated");
    assert("category_audio"@.len() != "setting_updated"@.len());
    reveal_strlit("show_window");
    assert("category_audio"@.len() != "show_window"@.len());
    reveal_strlit("hide_window");
    assert("category_audio"@.len() != "hide_window"@.len());
    reveal_strlit("quit");
    assert("category_audio"@.len() != "quit"@.len());
    reveal_strlit("fetch_packages_failed");
    assert("category_audio"@.len() != "fetch_packages_failed"@.len());
    reveal_strlit("payment_disabled");
    assert("category_audio"@.len() != "payment_disabled"@.len());
    reveal_strlit("apple_purchase_init_failed");
    assert("category_audio"@.len() != "apple_purchase_init_failed"@.len());
    reveal_strlit("apple_purchase_start_failed");
    assert("category_audio"@.len() != "apple_purchase_start_failed"@.len());
    reveal_strlit("apple_purchase_started");
    assert("category_audio"@.len() != "apple_purchase_started"@.len());
    reveal_strlit("apple_purchase_macos_only");
    assert("category_audio"@.len() != "apple_purchase_macos_only"@.len());
    reveal_strlit("apple_receipt_verify_success");
    assert("category_audio"@.len() != "apple_receipt_verify_success"@.len());
    reveal_strlit("apple_receipt_verify_success_title");
    assert("category_audio"@.len() != "apple_receipt_verify_success_title"@.len());
    reveal_strlit("apple_receipt_verify_failed");
    assert("category_audio"@.len() != "apple_receipt_verify_failed"@.len());
    reveal_strlit("main_window_not_found");
    assert("category_audio"@.len() != "main_window_not_found"@.len());
    reveal_strlit("config_file_description");
    assert("category_audio"@.len() != "config_file_description"@.len());
    reveal_strlit("category_images");
    assert("category_audio"@.len() != "category_images"@.len());
    reveal_strlit("category_documents");
    assert("category_audio"@.len() != "category_documents"@.len());
    reveal_strlit("category_spreadsheets");
    assert("category_audio"@.len() != "category_spreadsheets"@.len());
    reveal_strlit("category_presentations");
    assert("category_audio"@.len() != "category_presentations"@.len());
}

proof fn lemma_en_video()
    ensures
        english_text("category_video"@) == Some("Video"@),
{
    reveal_strlit("category_video");
    reveal_strlit("trial_ended");
    assert("category_video"@.len() != "trial_ended"@.len());
    reveal_strlit("init_failed");
    assert("category_video"@.len() != "init_failed"@.len());
    reveal_strlit("organize_failed");
    assert("category_video"@.len() != "organize_failed"@.len());
    reveal_strlit("monitoring_start_failed");
    assert("category_video"@.len() != "monitoring_start_failed"@.len());
    reveal_strlit("load_config_failed");
    assert("category_video"@.len() != "load_config_failed"@.len());
    reveal_strlit("save_config_failed");
    assert("category_video"@.len() != "save_config_failed"@.len());
    reveal_strlit("folder_selection_cancelled");
    assert("category_video"@.len() != "folder_selection_cancelled"@.len());
    reveal_strlit("downloads_folder_not_found");
    assert("category_video"@.len() != "downloads_folder_not_found"@.len());
    reveal_strlit("config_saved");
    assert("category_video"@.len() != "config_saved"@.len());
    reveal_strlit("files_organized");
    assert("category_video"@.len() != "files_organized"@.len());
    reveal_strlit("monitoring_stopped_title");
    assert("category_video"@.len() != "monitoring_stopped_title"@.len());
    reveal_strlit("monitoring_stopped_body");
    assert("category_video"@.len() != "monitoring_stopped_body"@.len());
    reveal_strlit("monitoring_started_title");
    assert("category_video"@.len() != "monitoring_started_title"@.len());
    reveal_strlit("monitoring_started_body");
    assert("category_video"@.len() != "monitoring_started_body"@.len());
    reveal_strlit("enable_autostart_failed");
    assert("category_video"@.len() != "enable_autostart_failed"@.len());
    reveal_strlit("disable_autostart_failed");
    assert("category_video"@.len() != "disable_autostart_failed"@.len());
    reveal_strlit("settings_saved");
    assert("category_video"@[0] != "settings_saved"@[0]);
    reveal_strlit("save_settings_failed");
    assert("category_video"@.len() != "save_settings_failed"@.len());
    reveal_strlit("setting_updated");
    assert("category_video"@.len() != "setting_updated"@.len());
    reveal_strlit("show_window");
    assert("category_video"@.len() != "show_window"@.len());
    reveal_strlit("hide_window");
    assert("category_video"@.len() != "hide_window"@.len());
    reveal_strlit("quit");
    assert("category_video"@.len() != "quit"@.len());
    reveal_strlit("fetch_packages_failed");
    assert("category_video"@.len() != "fetch_packages_failed"@.len());
    reveal_strlit("payment_disabled");
    assert("category_video"@.len() != "payment_disabled"@.len());
    reveal_strlit("apple_purchase_init_failed");
    assert("category_video"@.len() != "apple_purchase_init_failed"@.len());
    reveal_strlit("apple_purchase_start_failed");
    assert("category_video"@.len() != "apple_purchase_start_failed"@.len());
    reveal_strlit("apple_purchase_started");
    assert("category_video"@.len() != "apple_purchase_started"@.len());
    reveal_strlit("apple_purchase_macos_only");
    assert("category_video"@.len() != "apple_purchase_macos_only"@.len());
    reveal_strlit("apple_receipt_verify_success");
    assert("category_video"@.len() != "apple_receipt_verify_success"@.len());
    reveal_strlit("apple_receipt_verify_success_title");
    assert("category_video"@.len() != "apple_receipt_verify_success_title"@.len());
    reveal_strlit("apple_receipt_verify_failed");
    assert("category_video"@.len() != "apple_receipt_verify_failed"@.len());
    reveal_strlit("main_window_not_found");
    assert("category_video"@.len() != "main_window_not_found"@.len());
    reveal_strlit("config_file_description");
    assert("category_video"@.len() != "config_file_description"@.len());
    reveal_strlit("category_images");
    assert("category_video"@.len() != "category_images"@.len());
    reveal_strlit("category_documents");
    assert("category_video"@.len() != "category_documents"@.len());
    reveal_strlit("category_spreadsheets");
    assert("category_video"@.len() != "category_spreadsheets"@.len());
    reveal_strlit("category_presentations");
    assert("category_video"@.len() != "category_presentations"@.len());
    reveal_strlit("category_audio");
    assert("category_video"@[9] != "category_audio"@[9]);
}

proof fn lemma_en_archives()
    ensures
        english_text("category_archives"@) == Some("Archives"@),
{
    reveal_strlit("category_archives");
    reveal_strlit("trial_ended");
    assert("category_archives"@.len() != "trial_ended"@.len());
    reveal_strlit("init_failed");
    assert("category_archives"@.len() != "init_failed"@.len());
    reveal_strlit("organize_failed");
    assert("category_archives"@.len() != "organize_failed"@.len());
    reveal_strlit("monitoring_start_failed");
    assert("category_archives"@.len() != "monitoring_start_failed"@.len());
    reveal_strlit("load_config_failed");
    assert("category_archives"@.len() != "load_config_failed"@.len());
    reveal_strlit("save_config_failed");
    assert("category_archives"@.len() != "save_config_failed"@.len());
    reveal_strlit("folder_selection_cancelled");
    assert("category_archives"@.len() != "folder_selection_cancelled"@.len());
    reveal_strlit("downloads_folder_not_found");
    assert("category_archives"@.len() != "downloads_folder_not_found"@.len());
    reveal_strlit("config_saved");
    assert("category_archives"@.len() != "config_saved"@.len());
    reveal_strlit("files_organized");
    assert("category_archives"@.len() != "files_organized"@.len());
    reveal_strlit("monitoring_stopped_title");
    assert("category_archives"@.len() != "monitoring_stopped_title"@.len());
    reveal_strlit("monitoring_stopped_body");
    assert("category_archives"@.len() != "monitoring_stopped_body"@.len());
    reveal_strlit("monitoring_started_title");
    assert("category_archives"@.len() != "monitoring_started_title"@.len());
    reveal_strlit("monitoring_started_body");
    assert("category_archives"@.len() != "monitoring_started_body"@.len());
    reveal_strlit("enable_autostart_failed");
    assert("category_archives"@.len() != "enable_autostart_failed"@.len());
    reveal_strlit("disable_autostart_failed");
    assert("category_archives"@.len() != "disable_autostart_failed"@.len());
    reveal_strlit("settings_saved");
    assert("category_archives"@.len() != "settings_saved"@.len());
    reveal_strlit("save_settings_failed");
    assert("category_archives"@.len() != "save_settings_failed"@.len());
    reveal_strlit("setting_updated");
    assert("category_archives"@.len() != "setting_updated"@.len());
    reveal_strlit("show_window");
    assert("category_archives"@.len() != "show_window"@.len());
    reveal_strlit("hide_window");
    assert("category_archives"@.len() != "hide_window"@.len());
    reveal_strlit("quit");
    assert("category_archives"@.len() != "quit"@.len());
    reveal_strlit("fetch_packages_failed");
    assert("category_archives"@.len() != "fetch_packages_failed"@.len());
    reveal_strlit("payment_disabled");
    assert("category_archives"@.len() != "payment_disabled"@.len());
    reveal_strlit("apple_purchase_init_failed");
    assert("category_archives"@.len() != "apple_purchase_init_failed"@.len());
    reveal_strlit("apple_purchase_start_failed");
    assert("category_archives"@.len() != "apple_purchase_start_failed"@.len());
    reveal_strlit("apple_purchase_started");
    assert("category_archives"@.len() != "apple_purchase_started"@.len());
    reveal_strlit("apple_purchase_macos_only");
    assert("category_archives"@.len() != "apple_purchase_macos_only"@.len());
    reveal_strlit("apple_receipt_verify_success");
    assert("category_archives"@.len() != "apple_receipt_verify_success"@.len());
    reveal_strlit("apple_receipt_verify_success_title");
    assert("category_archives"@.len() != "apple_receipt_verify_success_title"@.len());
    reveal_strlit("apple_receipt_verify_failed");
    assert("category_archives"@.len() != "apple_receipt_verify_failed"@.len());
    reveal_strlit("main_window_not_found");
    assert("category_archives"@.len() != "main_window_not_found"@.len());
    reveal_strlit("config_file_description");
    assert("category_archives"@.len() != "config_file_description"@.len());
    reveal_strlit("category_images");
    assert("category_archives"@.len() != "category_images"@.len());
    reveal_strlit("category_documents");
    assert("category_archives"@.len() != "category_documents"@.len());
    reveal_strlit("category_spreadsheets");
    assert("category_archives"@.len() != "category_spreadsheets"@.len());
    reveal_strlit("category_presentations");
    assert("category_archives"@.len() != "category_presentations"@.len());
    reveal_strlit("category_audio");
    assert("category_archives"@.len() != "category_audio"@.len());
    reveal_strlit("category_video");
    assert("category_archives"@.len() != "category_video"@.len());
}

proof fn lemma_en_programs()
    ensures
        english_text("category_programs"@) == Some("Programs"@),
{
    reveal_strlit("category_programs");
    reveal_strlit("trial_ended");
    assert("category_programs"@.len() != "trial_ended"@.len());
    reveal_strlit("init_failed");
    assert("category_programs"@.len() != "init_failed"@.len());
    reveal_strlit("organize_failed");
    assert("category_programs"@.len() != "organize_failed"@.len());
    reveal_strlit("monitoring_start_failed");
    assert("category_programs"@.len() != "monitoring_start_failed"@.len());
    reveal_strlit("load_config_failed");
    assert("category_programs"@.len() != "load_config_failed"@.len());
    reveal_strlit("save_config_failed");
    assert("category_programs"@.len() != "save_config_failed"@.len());
    reveal_strlit("folder_selection_cancelled");
    assert("category_programs"@.len() != "folder_selection_cancelled"@.len());
    reveal_strlit("downloads_folder_not_found");
    assert("category_programs"@.len() != "downloads_folder_not_found"@.len());
    reveal_strlit("config_saved");
    assert("category_programs"@.len() != "config_saved"@.len());
    reveal_strlit("files_organized");
    assert("category_programs"@.len() != "files_organized"@.len());
    reveal_strlit("monitoring_stopped_title");
    assert("category_programs"@.len() != "monitoring_stopped_title"@.len());
    reveal_strlit("monitoring_stopped_body");
    assert("category_programs"@.len() != "monitoring_stopped_body"@.len());
    reveal_strlit("monitoring_started_title");
    assert("category_programs"@.len() != "monitoring_started_title"@.len());
    reveal_strlit("monitoring_started_body");
    assert("category_programs"@.len() != "monitoring_started_body"@.len());
    reveal_strlit("enable_autostart_failed");
    assert("category_programs"@.len() != "enable_autostart_failed"@.len());
    reveal_strlit("disable_autostart_failed");
    assert("category_programs"@.len() != "disable_autostart_failed"@.len());
    reveal_strlit("settings_saved");
    assert("category_programs"@.len() != "settings_saved"@.len());
    reveal_strlit("save_settings_failed");
    assert("category_programs"@.len() != "save_settings_failed"@.len());
    reveal_strlit("setting_updated");
    assert("category_programs"@.len() != "setting_updated"@.len());
    reveal_strlit("show_window");
    assert("category_programs"@.len() != "show_window"@.len());
    reveal_strlit("hide_window");
    assert("category_programs"@.len() != "hide_window"@.len());
    reveal_strlit("quit");
    assert("category_programs"@.len() != "quit"@.len());
    reveal_strlit("fetch_packages_failed");
    assert("category_programs"@.len() != "fetch_packages_failed"@.len());
    reveal_strlit("payment_disabled");
    assert("category_programs"@.len() != "payment_disabled"@.len());
    reveal_strlit("apple_purchase_init_failed");
    assert("category_programs"@.len() != "apple_purchase_init_failed"@.len());
    reveal_strlit("apple_purchase_start_failed");
    assert("category_programs"@.len() != "apple_purchase_start_failed"@.len());
    reveal_strlit("apple_purchase_started");
    assert("category_programs"@.len() != "apple_purchase_started"@.len());
    reveal_strlit("apple_purchase_macos_only");
    assert("category_programs"@.len() != "apple_purchase_macos_only"@.len());
    reveal_strlit("apple_receipt_verify_success");
    assert("category_programs"@.len() != "apple_receipt_verify_success"@.len());
    reveal_strlit("apple_receipt_verify_success_title");
    assert("category_programs"@.len() != "apple_receipt_verify_success_title"@.len());
    reveal_strlit("apple_receipt_verify_failed");
    assert("category_programs"@.len() != "apple_receipt_verify_failed"@.len());
    reveal_strlit("main_window_not_found");
    assert("category_programs"@.len() != "main_window_not_found"@.len());
    reveal_strlit("config_file_description");
    assert("category_programs"@.len() != "config_file_description"@.len());
    reveal_strlit("category_images");
    assert("category_programs"@.len() != "category_images"@.len());
    reveal_strlit("category_documents");
    assert("category_programs"@.len() != "category_documents"@.len());
    reveal_strlit("category_spreadsheets");
    assert("category_programs"@.len() != "category_spreadsheets"@.len());
    reveal_strlit("category_presentations");
    assert("category_programs"@.len() != "category_presentations"@.len());
    reveal_strlit("category_audio");
    assert("category_programs"@.len() != "category_audio"@.len());
    reveal_strlit("category_video");
    assert("category_programs"@.len() != "category_video"@.len());
    reveal_strlit("category_archives");
    assert("category_programs"@[9] != "category_archives"@[9]);
}

proof fn lemma_en_code()
    ensures
        english_text("category_code"@) == Some("Code"@),
{
    reveal_strlit("category_code");
    reveal_strlit("trial_ended");
    assert("category_code"@.len() != "trial_ended"@.len());
    reveal_strlit("init_failed");
    assert("category_code"@.len() != "init_failed"@.len());
    reveal_strlit("organize_failed");
    assert("category_code"@.len() != "organize_failed"@.len());
    reveal_strlit("monitoring_start_failed");
    assert("category_code"@.len() != "monitoring_start_failed"@.len());
    reveal_strlit("load_config_failed");
    assert("category_code"@.len() != "load_config_failed"@.len());
    reveal_strlit("save_config_failed");
    assert("category_code"@.len() != "save_config_failed"@.len());
    reveal_strlit("folder_selection_cancelled");
    assert("category_code"@.len() != "folder_selection_cancelled"@.len());
    reveal_strlit("downloads_folder_not_found");
    assert("category_code"@.len() != "downloads_folder_not_found"@.len());
    reveal_strlit("config_saved");
    assert("category_code"@.len() != "config_saved"@.len());
    reveal_strlit("files_organized");
    assert("category_code"@.len() != "files_organized"@.len());
    reveal_strlit("monitoring_stopped_title");
    assert("category_code"@.len() != "monitoring_stopped_title"@.len());
    reveal_strlit("monitoring_stopped_body");
    assert("category_code"@.len() != "monitoring_stopped_body"@.len());
    reveal_strlit("monitoring_started_title");
    assert("category_code"@.len() != "monitoring_started_title"@.len());
    reveal_strlit("monitoring_started_body");
    assert("category_code"@.len() != "monitoring_started_body"@.len());
    reveal_strlit("enable_autostart_failed");
    assert("category_code"@.len() != "enable_autostart_failed"@.len());
    reveal_strlit("disable_autostart_failed");
    assert("category_code"@.len() != "disable_autostart_failed"@.len());
    reveal_strlit("settings_saved");
    assert("category_code"@.len() != "settings_saved"@.len());
    reveal_strlit("save_settings_failed");
    assert("category_code"@.len() != "save_settings_failed"@.len());
    reveal_strlit("setting_updated");
    assert("category_code"@.len() != "setting_updated"@.len());
    reveal_strlit("show_window");
    assert("category_code"@.len() != "show_window"@.len());
    reveal_strlit("hide_window");
    assert("category_code"@.len() != "hide_window"@.len());
    reveal_strlit("quit");
    assert("category_code"@.len() != "quit"@.len());
    reveal_strlit("fetch_packages_failed");
    assert("category_code"@.len() != "fetch_packages_failed"@.len());
    reveal_strlit("payment_disabled");
    assert("category_code"@.len() != "payment_disabled"@.len());
    reveal_strlit("apple_purchase_init_failed");
    assert("category_code"@.len() != "apple_purchase_init_failed"@.len());
    reveal_strlit("apple_purchase_start_failed");
    assert("category_code"@.len() != "apple_purchase_start_failed"@.len());
    reveal_strlit("apple_purchase_started");
    assert("category_code"@.len() != "apple_purchase_started"@.len());
    reveal_strlit("apple_purchase_macos_only");
    assert("category_code"@.len() != "apple_purchase_macos_only"@.len());
    reveal_strlit("apple_receipt_verify_success");
    assert("category_code"@.len() != "apple_receipt_verify_success"@.len());
    reveal_strlit("apple_receipt_verify_success_title");
    assert("category_code"@.len() != "apple_receipt_verify_success_title"@.len());
    reveal_strlit("apple_receipt_verify_failed");
    assert("category_code"@.len() != "apple_receipt_verify_failed"@.len());
    reveal_strlit("main_window_not_found");
    assert("category_code"@.len() != "main_window_not_found"@.len());
    reveal_strlit("config_file_description");
    assert("category_code"@.len() != "config_file_description"@.len());
    reveal_strlit("category_images");
    assert("category_code"@.len() != "category_images"@.len());
    reveal_strlit("category_documents");
    assert("category_code"@.len() != "category_documents"@.len());
    reveal_strlit("category_spreadsheets");
    assert("category_code"@.len() != "category_spreadsheets"@.len());
    reveal_strlit("category_presentations");
    assert("category_code"@.len() != "category_presentations"@.len());
    reveal_strlit("category_audio");
    assert("category_code"@.len() != "category_audio"@.len());
    reveal_strlit("category_video");
    assert("category_code"@.len() != "category_video"@.len());
    reveal_strlit("category_archives");
    assert("category_code"@.len() != "category_archives"@.len());
    reveal_strlit("category_programs");
    assert("category_code"@.len() != "category_programs"@.len());
}

proof fn lemma_en_fonts()
    ensures
        english_text("category_fonts"@) == Some("Fonts"@),
{
    reveal_strlit("category_fonts");
    reveal_strlit("trial_ended");
    assert("category_fonts"@.len() != "trial_ended"@.len());
    reveal_strlit("init_failed");
    assert("category_fonts"@.len() != "init_failed"@.len());
    reveal_strlit("organize_failed");
    assert("category_fonts"@.len() != "organize_failed"@.len());
    reveal_strlit("monitoring_start_failed");
    assert("category_fonts"@.len() != "monitoring_start_failed"@.len());
    reveal_strlit("load_config_failed");
    assert("category_fonts"@.len() != "load_config_failed"@.len());
    reveal_strlit("save_config_failed");
    assert("category_fonts"@.len() != "save_config_failed"@.len());
    reveal_strlit("folder_selection_cancelled");
    assert("category_fonts"@.len() != "folder_selection_cancelled"@.len());
    reveal_strlit("downloads_folder_not_found");
    assert("category_fonts"@.len() != "downloads_folder_not_found"@.len());
    reveal_strlit("config_saved");
    assert("category_fonts"@.len() != "config_saved"@.len());
    reveal_strlit("files_organized");
    assert("category_fonts"@.len() != "files_organized"@.len());
    reveal_strlit("monitoring_stopped_title");
    assert("category_fonts"@.len() != "monitoring_stopped_title"@.len());
    reveal_strlit("monitoring_stopped_body");
    assert("category_fonts"@.len() != "monitoring_stopped_body"@.len());
    reveal_strlit("monitoring_started_title");
    assert("category_fonts"@.len() != "monitoring_started_title"@.len());
    reveal_strlit("monitoring_started_body");
    assert("category_fonts"@.len() != "monitoring_started_body"@.len());
    reveal_strlit("enable_autostart_failed");
    assert("category_fonts"@.len() != "enable_autostart_failed"@.len());
    reveal_strlit("disable_autostart_failed");
    assert("category_fonts"@.len() != "disable_autostart_failed"@.len());
    reveal_strlit("settings_saved");
    assert("category_fonts"@[0] != "settings_saved"@[0]);
    reveal_strlit("save_settings_failed");
    assert("category_fonts"@.len() != "save_settings_failed"@.len());
    reveal_strlit("setting_updated");
    assert("category_fonts"@.len() != "setting_updated"@.len());
    reveal_strlit("show_window");
    assert("category_fonts"@.len() != "show_window"@.len());
    reveal_strlit("hide_window");
    assert("category_fonts"@.len() != "hide_window"@.len());
    reveal_strlit("quit");
    assert("category_fonts"@.len() != "quit"@.len());
    reveal_strlit("fetch_packages_failed");
    assert("category_fonts"@.len() != "fetch_packages_failed"@.len());
    reveal_strlit("payment_disabled");
    assert("category_fonts"@.len() != "payment_disabled"@.len());
    reveal_strlit("apple_purchase_init_failed");
    assert("category_fonts"@.len() != "apple_purchase_init_failed"@.len());
    reveal_strlit("apple_purchase_start_failed");
    assert("category_fonts"@.len() != "apple_purchase_start_failed"@.len());
    reveal_strlit("apple_purchase_started");
    assert("category_fonts"@.len() != "apple_purchase_started"@.len());
    reveal_strlit("apple_purchase_macos_only");
    assert("category_fonts"@.len() != "apple_purchase_macos_only"@.len());
    reveal_strlit("apple_receipt_verify_success");
    assert("category_fonts"@.len() != "apple_receipt_verify_success"@.len());
    reveal_strlit("apple_receipt_verify_success_title");
    assert("category_fonts"@.len() != "apple_receipt_verify_success_title"@.len());
    reveal_strlit("apple_receipt_verify_failed");
    assert("category_fonts"@.len() != "apple_receipt_verify_failed"@.len());
    reveal_strlit("main_window_not_found");
    assert("category_fonts"@.len() != "main_window_not_found"@.len());
    reveal_strlit("config_file_description");
    assert("category_fonts"@.len() != "config_file_description"@.len());
    reveal_strlit("category_images");
    assert("category_fonts"@.len() != "category_images"@.len());
    reveal_strlit("category_documents");
    assert("category_fonts"@.len() != "category_documents"@.len());
    reveal_strlit("category_spreadsheets");
    assert("category_fonts"@.len() != "category_spreadsheets"@.len());
    reveal_strlit("category_presentations");
    assert("category_fonts"@.len() != "category_presentations"@.len());
    reveal_strlit("category_audio");
    assert("category_fonts"@[9] != "category_audio"@[9]);
    reveal_strlit("category_video");
    assert("category_fonts"@[9] != "category_video"@[9]);
    reveal_strlit("category_archives");
    assert("category_fonts"@.len() != "category_archives"@.len());
    reveal_strlit("category_programs");
    assert("category_fonts"@.len() != "category_programs"@.len());
    reveal_strlit("category_code");
    assert("category_fonts"@.len() != "category_code"@.len());
}

proof fn lemma_en_others()
    ensures
        english_text("category_others"@) is None,
{
    reveal_strlit("category_others");
    reveal_strlit("trial_ended");
    assert("category_others"@.len() != "trial_ended"@.len());
    reveal_strlit("init_failed");
    assert("category_others"@.len() != "init_failed"@.len());
    reveal_strlit("organize_failed");
    assert("category_others"@[0] != "organize_failed"@[0]);
    reveal_strlit("monitoring_start_failed");
    assert("category_others"@.len() != "monitoring_start_failed"@.len());
    reveal_strlit("load_config_failed");
    assert("category_others"@.len() != "load_config_failed"@.len());
    reveal_strlit("save_config_failed");
    assert("category_others"@.len() != "save_config_failed"@.len());
    reveal_strlit("folder_selection_cancelled");
    assert("category_others"@.len() != "folder_selection_cancelled"@.len());
    reveal_strlit("downloads_folder_not_found");
    assert("category_others"@.len() != "downloads_folder_not_found"@.len());
    reveal_strlit("config_saved");
    assert("category_others"@.len() != "config_saved"@.len());
    reveal_strlit("files_organized");
    assert("category_others"@[0] != "files_organized"@[0]);
    reveal_strlit("monitoring_stopped_title");
    assert("category_others"@.len() != "monitoring_stopped_title"@.len());
    reveal_strlit("monitoring_stopped_body");
    assert("category_others"@.len() != "monitoring_stopped_body"@.len());
    reveal_strlit("monitoring_started_title");
    assert("category_others"@.len() != "monitoring_started_title"@.len());
    reveal_strlit("monitoring_started_body");
    assert("category_others"@.len() != "monitoring_started_body"@.len());
    reveal_strlit("enable_autostart_failed");
    assert("category_others"@.len() != "enable_autostart_failed"@.len());
    reveal_strlit("disable_autostart_failed");
    assert("category_others"@.len() != "disable_autostart_failed"@.len());
    reveal_strlit("settings_saved");
    assert("category_others"@.len() != "settings_saved"@.len());
    reveal_strlit("save_settings_failed");
    assert("category_others"@.len() != "save_settings_failed"@.len());
    reveal_strlit("setting_updated");
    assert("category_others"@[0] != "setting_updated"@[0]);
    reveal_strlit("show_window");
    assert("category_others"@.len() != "show_window"@.len());
    reveal_strlit("hide_window");
    assert("category_others"@.len() != "hide_window"@.len());
    reveal_strlit("quit");
    assert("category_others"@.len() != "quit"@.len());
    reveal_strlit("fetch_packages_failed");
    assert("category_others"@.len() != "fetch_packages_failed"@.len());
    reveal_strlit("payment_disabled");
    assert("category_others"@.len() != "payment_disabled"@.len());
    reveal_strlit("apple_purchase_init_failed");
    assert("category_others"@.len() != "apple_purchase_init_failed"@.len());
    reveal_strlit("apple_purchase_start_failed");
    assert("category_others"@.len() != "apple_purchase_start_failed"@.len());
    reveal_strlit("apple_purchase_started");
    assert("category_others"@.len() != "apple_purchase_started"@.len());
    reveal_strlit("apple_purchase_macos_only");
    assert("category_others"@.len() != "apple_purchase_macos_only"@.len());
    reveal_strlit("apple_receipt_verify_success");
    assert("category_others"@.len() != "apple_receipt_verify_success"@.len());
    reveal_strlit("apple_receipt_verify_success_title");
    assert("category_others"@.len() != "apple_receipt_verify_success_title"@.len());
    reveal_strlit("apple_receipt_verify_failed");
    assert("category_others"@.len() != "apple_receipt_verify_failed"@.len());
    reveal_strlit("main_window_not_found");
    assert("category_others"@.len() != "main_window_not_found"@.len());
    reveal_strlit("config_file_description");
    assert("category_others"@.len() != "config_file_description"@.len());
    reveal_strlit("category_images");
    assert("category_others"@[9] != "category_images"@[9]);
    reveal_strlit("category_documents");
    assert("category_others"@.len() != "category_documents"@.len());
    reveal_strlit("category_spreadsheets");
    assert("category_others"@.len() != "category_spreadsheets"@.len());
    reveal_strlit("category_presentations");
    assert("category_others"@.len() != "category_presentations"@.len());
    reveal_strlit("category_audio");
    assert("category_others"@.len() != "category_audio"@.len());
    reveal_strlit("category_video");
    assert("category_others"@.len() != "category_video"@.len());
    reveal_strlit("category_archives");
    assert("category_others"@.len() != "category_archives"@.len());
    reveal_strlit("category_programs");
    assert("category_others"@.len() != "category_programs"@.len());
    reveal_strlit("category_code");
    assert("category_others"@.len() != "category_code"@.len());
    reveal_strlit("category_fonts");
    assert("category_others"@.len() != "category_fonts"@.len());
    reveal_strlit("invalid_subscription_plan");
    assert("category_others"@.len() != "invalid_subscription_plan"@.len());
    reveal_strlit("purchase_success_title");
    assert("category_others"@.len() != "purchase_success_title"@.len());
    reveal_strlit("purchase_success_body");
    assert("category_others"@.len() != "purchase_success_body"@.len());
    reveal_strlit("purchase_activation_success");
    assert("category_others"@.len() != "purchase_activation_success"@.len());
    reveal_strlit("purchase_activation_failed");
    assert("category_others"@.len() != "purchase_activation_failed"@.len());
    reveal_strlit("subscription_cancelled_title");
    assert("category_others"@.len() != "subscription_cancelled_title"@.len());
    reveal_strlit("subscription_cancelled_body");
    assert("category_others"@.len() != "subscription_cancelled_body"@.len());
    reveal_strlit("subscription_cancelled");
    assert("category_others"@.len() != "subscription_cancelled"@.len());
    reveal_strlit("cancel_subscription_failed");
    assert("category_others"@.len() != "cancel_subscription_failed"@.len());
    reveal_strlit("apple_receipt_verify_failed_format");
    assert("category_others"@.len() != "apple_receipt_verify_failed_format"@.len());
    reveal_strlit("subscription_status_refreshed");
    assert("category_others"@.len() != "subscription_status_refreshed"@.len());
    reveal_strlit("refresh_subscription_failed");
    assert("category_others"@.len() != "refresh_subscription_failed"@.len());
    reveal_strlit("apple_purchase_macos_only_format");
    assert("category_others"@.len() != "apple_purchase_macos_only_format"@.len());
    reveal_strlit("storekit_init_failed");
    assert("category_others"@.len() != "storekit_init_failed"@.len());
    reveal_strlit("restore_purchases_failed");
    assert("category_others"@.len() != "restore_purchases_failed"@.len());
    reveal_strlit("purchase_restore_started");
    assert("category_others"@.len() != "purchase_restore_started"@.len());
    reveal_strlit("receipt_data_failed");
    assert("category_others"@.len() != "receipt_data_failed"@.len());
    reveal_strlit("receipt_macos_only");
    assert("category_others"@.len() != "receipt_macos_only"@.len());
    reveal_strlit("create_payment_session_failed");
    assert("category_others"@.len() != "create_payment_session_failed"@.len());
    reveal_strlit("check_payment_status_failed");
    assert("category_others"@.len() != "check_payment_status_failed"@.len());
    reveal_strlit("open_payment_page_failed");
    assert("category_others"@.len() != "open_payment_page_failed"@.len());
    reveal_strlit("webhook_url_updated");
    assert("category_others"@.len() != "webhook_url_updated"@.len());
    reveal_strlit("update_url_failed");
    assert("category_others"@.len() != "update_url_failed"@.len());
    reveal_strlit("app_minimized_title");
    assert("category_others"@.len() != "app_minimized_title"@.len());
    reveal_strlit("app_minimized_body");
    assert("category_others"@.len() != "app_minimized_body"@.len());
    reveal_strlit("updater_started");
    assert("category_others"@[0] != "updater_started"@[0]);
    reveal_strlit("organized_folder_name");
    assert("category_others"@.len() != "organized_folder_name"@.len());
    reveal_strlit("skip_unmatched_file");
    assert("category_others"@.len() != "skip_unmatched_file"@.len());
    reveal_strlit("organize_complete_moved_count");
    assert("category_others"@.len() != "organize_complete_moved_count"@.len());
    reveal_strlit("monitor_stop_signal_received");
    assert("category_others"@.len() != "monitor_stop_signal_received"@.len());
    reveal_strlit("file_create_event_detected");
    assert("category_others"@.len() != "file_create_event_detected"@.len());
    reveal_strlit("file_recently_processed_skip");
    assert("category_others"@.len() != "file_recently_processed_skip"@.len());
    reveal_strlit("start_processing_file");
    assert("category_others"@.len() != "start_processing_file"@.len());
    reveal_strlit("new_file_categorized");
    assert("category_others"@.len() != "new_file_categorized"@.len());
    reveal_strlit("move_file_failed");
    assert("category_others"@.len() != "move_file_failed"@.len());
    reveal_strlit("new_file_unmatched");
    assert("category_others"@.len() != "new_file_unmatched"@.len());
    reveal_strlit("event_process_error");
    assert("category_others"@.len() != "event_process_error"@.len());
    reveal_strlit("monitor_error");
    assert("category_others"@.len() != "monitor_error"@.len());
    reveal_strlit("monitor_started");
    assert("category_others"@[0] != "monitor_started"@[0]);
    reveal_strlit("monitor_stop_signal_sent");
    assert("category_others"@.len() != "monitor_stop_signal_sent"@.len());
    reveal_strlit("join_monitor_thread_error");
    assert("category_others"@.len() != "join_monitor_thread_error"@.len());
    reveal_strlit("monitor_stopped");
    assert("category_others"@[0] != "monitor_stopped"@[0]);
    reveal_strlit("move_file_success");
    assert("category_others"@.len() != "move_file_success"@.len());
    reveal_strlit("update_scheduler_config_success");
    assert("category_others"@.len() != "update_scheduler_config_success"@.len());
    reveal_strlit("update_scheduler_config_failed");
    assert("category_others"@.len() != "update_scheduler_config_failed"@.len());
    reveal_strlit("create_folder");
    assert("category_others"@.len() != "create_folder"@.len());
    reveal_strlit("file_modify_event_detected");
    assert("category_others"@.len() != "file_modify_event_detected"@.len());
    reveal_strlit("file_other_event_detected");
    assert("category_others"@.len() != "file_other_event_detected"@.len());
    reveal_strlit("undo_action_success");
    assert("category_others"@.len() != "undo_action_success"@.len());
    reveal_strlit("undo_history_cleared");
    assert("category_others"@.len() != "undo_history_cleared"@.len());
    reveal_strlit("undo_success_title");
    assert("category_others"@.len() != "undo_success_title"@.len());
    reveal_strlit("undo_failed");
    assert("category_others"@.len() != "undo_failed"@.len());
    reveal_strlit("no_monitoring_for_path");
    assert("category_others"@.len() != "no_monitoring_for_path"@.len());
}

proof fn lemma_zh_images()
    ensures
        chinese_text("category_images"@) == Some("图片"@),
{
    reveal_strlit("category_images");
    reveal_strlit("trial_ended");
    assert("category_images"@.len() != "trial_ended"@.len());
    reveal_strlit("init_failed");
    assert("category_images"@.len() != "init_failed"@.len());
    reveal_strlit("organize_failed");
    assert("category_images"@[0] != "organize_failed"@[0]);
    reveal_strlit("monitoring_start_failed");
    assert("category_images"@.len() != "monitoring_start_failed"@.len());
    reveal_strlit("load_config_failed");
    assert("category_images"@.len() != "load_config_failed"@.len());
    reveal_strlit("save_config_failed");
    assert("category_images"@.len() != "save_config_failed"@.len());
    reveal_strlit("folder_selection_cancelled");
    assert("category_images"@.len() != "folder_selection_cancelled"@.len());
    reveal_strlit("downloads_folder_not_found");
    assert("category_images"@.len() != "downloads_folder_not_found"@.len());
    reveal_strlit("config_saved");
    assert("category_images"@.len() != "config_saved"@.len());
    reveal_strlit("files_organized");
    assert("category_images"@[0] != "files_organized"@[0]);
    reveal_strlit("enable_autostart_failed");
    assert("category_images"@.len() != "enable_autostart_failed"@.len());
    reveal_strlit("disable_autostart_failed");
    assert("category_images"@.len() != "disable_autostart_failed"@.len());
    reveal_strlit("settings_saved");
    assert("category_images"@.len() != "settings_saved"@.len());
    reveal_strlit("save_settings_failed");
    assert("category_images"@.len() != "save_settings_failed"@.len());
    reveal_strlit("setting_updated");
    assert("category_images"@[0] != "setting_updated"@[0]);
    reveal_strlit("show_window");
    assert("category_images"@.len() != "show_window"@.len());
    reveal_strlit("hide_window");
    assert("category_images"@.len() != "hide_window"@.len());
    reveal_strlit("quit");
    assert("category_images"@.len() != "quit"@.len());
    reveal_strlit("fetch_packages_failed");
    assert("category_images"@.len() != "fetch_packages_failed"@.len());
    reveal_strlit("payment_disabled");
    assert("category_images"@.len() != "payment_disabled"@.len());
    reveal_strlit("apple_purchase_init_failed");
    assert("category_images"@.len() != "apple_purchase_init_failed"@.len());
    reveal_strlit("apple_purchase_start_failed");
    assert("category_images"@.len() != "apple_purchase_start_failed"@.len());
    reveal_strlit("apple_purchase_started");
    assert("category_images"@.len() != "apple_purchase_started"@.len());
    reveal_strlit("apple_purchase_macos_only");
    assert("category_images"@.len() != "apple_purchase_macos_only"@.len());
    reveal_strlit("apple_receipt_verify_success");
    assert("category_images"@.len() != "apple_receipt_verify_success"@.len());
    reveal_strlit("apple_receipt_verify_success_title");
    assert("category_images"@.len() != "apple_receipt_verify_success_title"@.len());
    reveal_strlit("apple_receipt_verify_failed");
    assert("category_images"@.len() != "apple_receipt_verify_failed"@.len());
    reveal_strlit("main_window_not_found");
    assert("category_images"@.len() != "main_window_not_found"@.len());
    reveal_strlit("config_file_description");
    assert("category_images"@.len() != "config_file_description"@.len());
}

proof fn lemma_zh_documents()
    ensures
        chinese_text("category_documents"@) == Some("文档"@),
{
    reveal_strlit("category_documents");
    reveal_strlit("trial_ended");
    assert("category_documents"@.len() != "trial_ended"@.len());
    reveal_strlit("init_failed");
    assert("category_documents"@.len() != "init_failed"@.len());
    reveal_strlit("organize_failed");
    assert("category_documents"@.len() != "organize_failed"@.len());
    reveal_strlit("monitoring_start_failed");
    assert("category_documents"@.len() != "monitoring_start_failed"@.len());
    reveal_strlit("load_config_failed");
    assert("category_documents"@[0] != "load_config_failed"@[0]);
    reveal_strlit("save_config_failed");
    assert("category_documents"@[0] != "save_config_failed"@[0]);
    reveal_strlit("folder_selection_cancelled");
    assert("category_documents"@.len() != "folder_selection_cancelled"@.len());
    reveal_strlit("downloads_folder_not_found");
    assert("category_documents"@.len() != "downloads_folder_not_found"@.len());
    reveal_strlit("config_saved");
    assert("category_documents"@.len() != "config_saved"@.len());
    reveal_strlit("files_organized");
    assert("category_documents"@.len() != "files_organized"@.len());
    reveal_strlit("enable_autostart_failed");
    assert("category_documents"@.len() != "enable_autostart_failed"@.len());
    reveal_strlit("disable_autostart_failed");
    assert("category_documents"@.len() != "disable_autostart_failed"@.len());
    reveal_strlit("settings_saved");
    assert("category_documents"@.len() != "settings_saved"@.len());
    reveal_strlit("save_settings_failed");
    assert("category_documents"@.len() != "save_settings_failed"@.len());
    reveal_strlit("setting_updated");
    assert("category_documents"@.len() != "setting_updated"@.len());
    reveal_strlit("show_window");
    assert("category_documents"@.len() != "show_window"@.len());
    reveal_strlit("hide_window");
    assert("category_documents"@.len() != "hide_window"@.len());
    reveal_strlit("quit");
    assert("category_documents"@.len() != "quit"@.len());
    reveal_strlit("fetch_packages_failed");
    assert("category_documents"@.len() != "fetch_packages_failed"@.len());
    reveal_strlit("payment_disabled");
    assert("category_documents"@.len() != "payment_disabled"@.len());
    reveal_strlit("apple_purchase_init_failed");
    assert("category_documents"@.len() != "apple_purchase_init_failed"@.len());
    reveal_strlit("apple_purchase_start_failed");
    assert("category_documents"@.len() != "apple_purchase_start_failed"@.len());
    reveal_strlit("apple_purchase_started");
    assert("category_documents"@.len() != "apple_purchase_started"@.len());
    reveal_strlit("apple_purchase_macos_only");
    assert("category_documents"@.len() != "apple_purchase_macos_only"@.len());
    reveal_strlit("apple_receipt_verify_success");
    assert("category_documents"@.len() != "apple_receipt_verify_success"@.len());
    reveal_strlit("apple_receipt_verify_success_title");
    assert("category_documents"@.len() != "apple_receipt_verify_success_title"@.len());
    reveal_strlit("apple_receipt_verify_failed");
    assert("category_documents"@.len() != "apple_receipt_verify_failed"@.len());
    reveal_strlit("main_window_not_found");
    assert("category_documents"@.len() != "main_window_not_found"@.len());
    reveal_strlit("config_file_description");
    assert("category_documents"@.len() != "config_file_description"@.len());
    reveal_strlit("category_images");
    assert("category_documents"@.len() != "category_images"@.len());
}

proof fn lemma_zh_spreadsheets()
    ensures
        chinese_text("category_spreadsheets"@) == Some("表格"@),
{
    reveal_strlit("category_spreadsheets");
    reveal_strlit("trial_ended");
    assert("category_spreadsheets"@.len() != "trial_ended"@.len());
    reveal_strlit("init_failed");
    assert("category_spreadsheets"@.len() != "init_failed"@.len());
    reveal_strlit("organize_failed");
    assert("category_spreadsheets"@.len() != "organize_failed"@.len());
    reveal_strlit("monitoring_start_failed");
    assert("category_spreadsheets"@.len() != "monitoring_start_failed"@.len());
    reveal_strlit("load_config_failed");
    assert("category_spreadsheets"@.len() != "load_config_failed"@.len());
    reveal_strlit("save_config_failed");
    assert("category_spreadsheets"@.len() != "save_config_failed"@.len());
    reveal_strlit("folder_selection_cancelled");
    assert("category_spreadsheets"@.len() != "folder_selection_cancelled"@.len());
    reveal_strlit("downloads_folder_not_found");
    assert("category_spreadsheets"@.len() != "downloads_folder_not_found"@.len());
    reveal_strlit("config_saved");
    assert("category_spreadsheets"@.len() != "config_saved"@.len());
    reveal_strlit("files_organized");
    assert("category_spreadsheets"@.len() != "files_organized"@.len());
    reveal_strlit("enable_autostart_failed");
    assert("category_spreadsheets"@.len() != "enable_autostart_failed"@.len());
    reveal_strlit("disable_autostart_failed");
    assert("category_spreadsheets"@.len() != "disable_autostart_failed"@.len());
    reveal_strlit("settings_saved");
    assert("category_spreadsheets"@.len() != "settings_saved"@.len());
    reveal_strlit("save_settings_failed");
    assert("category_spreadsheets"@.len() != "save_settings_failed"@.len());
    reveal_strlit("setting_updated");
    assert("category_spreadsheets"@.len() != "setting_updated"@.len());
    reveal_strlit("show_window");
    assert("category_spreadsheets"@.len() != "show_window"@.len());
    reveal_strlit("hide_window");
    assert("category_spreadsheets"@.len() != "hide_window"@.len());
    reveal_strlit("quit");
    assert("category_spreadsheets"@.len() != "quit"@.len());
    reveal_strlit("fetch_packages_failed");
    assert("category_spreadsheets"@[0] != "fetch_packages_failed"@[0]);
    reveal_strlit("payment_disabled");
    assert("category_spreadsheets"@.len() != "payment_disabled"@.len());
    reveal_strlit("apple_purchase_init_failed");
    assert("category_spreadsheets"@.len() != "apple_purchase_init_failed"@.len());
    reveal_strlit("apple_purchase_start_failed");
    assert("category_spreadsheets"@.len() != "apple_purchase_start_failed"@.len());
    reveal_strlit("apple_purchase_started");
    assert("category_spreadsheets"@.len() != "apple_purchase_started"@.len());
    reveal_strlit("apple_purchase_macos_only");
    assert("category_spreadsheets"@.len() != "apple_purchase_macos_only"@.len());
    reveal_strlit("apple_receipt_verify_success");
    assert("category_spreadsheets"@.len() != "apple_receipt_verify_success"@.len());
    reveal_strlit("apple_receipt_verify_success_title");
    assert("category_spreadsheets"@.len() != "apple_receipt_verify_success_title"@.len());
    reveal_strlit("apple_receipt_verify_failed");
    assert("category_spreadsheets"@.len() != "apple_receipt_verify_failed"@.len());
    reveal_strlit("main_window_not_found");
    assert("category_spreadsheets"@[0] != "main_window_not_found"@[0]);
    reveal_strlit("config_file_description");
    assert("category_spreadsheets"@.len() != "config_file_description"@.len());
    reveal_strlit("category_images");
    assert("category_spreadsheets"@.len() != "category_images"@.len());
    reveal_strlit("category_documents");
    assert("category_spreadsheets"@.len() != "category_documents"@.len());
}

proof fn lemma_zh_presentations()
    ensures
        chinese_text("category_presentations"@) == Some("演示"@),
{
    reveal_strlit("category_presentations");
    reveal_strlit("trial_ended");
    assert("category_presentations"@.len() != "trial_ended"@.len());
    reveal_strlit("init_failed");
    assert("category_presentations"@.len() != "init_failed"@.len());
    reveal_strlit("organize_failed");
    assert("category_presentations"@.len() != "organize_failed"@.len());
    reveal_strlit("monitoring_start_failed");
    assert("category_presentations"@.len() != "monitoring_start_failed"@.len());
    reveal_strlit("load_config_failed");
    assert("category_presentations"@.len() != "load_config_failed"@.len());
    reveal_strlit("save_config_failed");
    assert("category_presentations"@.len() != "save_config_failed"@.len());
    reveal_strlit("folder_selection_cancelled");
    assert("category_presentations"@.len() != "folder_selection_cancelled"@.len());
    reveal_strlit("downloads_folder_not_found");
    assert("category_presentations"@.len() != "downloads_folder_not_found"@.len());
    reveal_strlit("config_saved");
    assert("category_presentations"@.len() != "config_saved"@.len());
    reveal_strlit("files_organized");
    assert("category_presentations"@.len() != "files_organized"@.len());
    reveal_strlit("enable_autostart_failed");
    assert("category_presentations"@.len() != "enable_autostart_failed"@.len());
    reveal_strlit("disable_autostart_failed");
    assert("category_presentations"@.len() != "disable_autostart_failed"@.len());
    reveal_strlit("settings_saved");
    assert("category_presentations"@.len() != "settings_saved"@.len());
    reveal_strlit("save_settings_failed");
    assert("category_presentations"@.len() != "save_settings_failed"@.len());
    reveal_strlit("setting_updated");
    assert("category_presentations"@.len() != "setting_updated"@.len());
    reveal_strlit("show_window");
    assert("category_presentations"@.len() != "show_window"@.len());
    reveal_strlit("hide_window");
    assert("category_presentations"@.len() != "hide_window"@.len());
    reveal_strlit("quit");
    assert("category_presentations"@.len() != "quit"@.len());
    reveal_strlit("fetch_packages_failed");
    assert("category_presentations"@.len() != "fetch_packages_failed"@.len());
    reveal_strlit("payment_disabled");
    assert("category_presentations"@.len() != "payment_disabled"@.len());
    reveal_strlit("apple_purchase_init_failed");
    assert("category_presentations"@.len() != "apple_purchase_init_failed"@.len());
    reveal_strlit("apple_purchase_start_failed");
    assert("category_presentations"@.len() != "apple_purchase_start_failed"@.len());
    reveal_strlit("apple_purchase_started");
    assert("category_presentations"@[0] != "apple_purchase_started"@[0]);
    reveal_strlit("apple_purchase_macos_only");
    assert("category_presentations"@.len() != "apple_purchase_macos_only"@.len());
    reveal_strlit("apple_receipt_verify_success");
    assert("category_presentations"@.len() != "apple_receipt_verify_success"@.len());
    reveal_strlit("apple_receipt_verify_success_title");
    assert("category_presentations"@.len() != "apple_receipt_verify_success_title"@.len());
    reveal_strlit("apple_receipt_verify_failed");
    assert("category_presentations"@.len() != "apple_receipt_verify_failed"@.len());
    reveal_strlit("main_window_not_found");
    assert("category_presentations"@.len() != "main_window_not_found"@.len());
    reveal_strlit("config_file_description");
    assert("category_presentations"@.len() != "config_file_description"@.len());
    reveal_strlit("category_images");
    assert("category_presentations"@.len() != "category_images"@.len());
    reveal_strlit("category_documents");
    assert("category_presentations"@.len() != "category_documents"@.len());
    reveal_strlit("category_spreadsheets");
    assert("category_presentations"@.len() != "category_spreadsheets"@.len());
}

proof fn lemma_zh_audio()
    ensures
        chinese_text("category_audio"@) == Some("音频"@),
{
    reveal_strlit("category_audio");
    reveal_strlit("trial_ended");
    assert("category_audio"@.len() != "trial_ended"@.len());
    reveal_strlit("init_failed");
    assert("category_audio"@.len() != "init_failed"@.len());
    reveal_strlit("organize_failed");
    assert("category_audio"@.len() != "organize_failed"@.len());
    reveal_strlit("monitoring_start_failed");
    assert("category_audio"@.len() != "monitoring_start_failed"@.len());
    reveal_strlit("load_config_failed");
    assert("category_audio"@.len() != "load_config_failed"@.len());
    reveal_strlit("save_config_failed");
    assert("category_audio"@.len() != "save_config_failed"@.len());
    reveal_strlit("folder_selection_cancelled");
    assert("category_audio"@.len() != "folder_selection_cancelled"@.len());
    reveal_strlit("downloads_folder_not_found");
    assert("category_audio"@.len() != "downloads_folder_not_found"@.len());
    reveal_strlit("config_saved");
    assert("category_audio"@.len() != "config_saved"@.len());
    reveal_strlit("files_organized");
    assert("category_audio"@.len() != "files_organized"@.len());
    reveal_strlit("enable_autostart_failed");
    assert("category_audio"@.len() != "enable_autostart_failed"@.len());
    reveal_strlit("disable_autostart_failed");
    assert("category_audio"@.len() != "disable_autostart_failed"@.len());
    reveal_strlit("settings_saved");
    assert("category_audio"@[0] != "settings_saved"@[0]);
    reveal_strlit("save_settings_failed");
    assert("category_audio"@.len() != "save_settings_failed"@.len());
    reveal_strlit("setting_updated");
    assert("category_audio"@.len() != "setting_updated"@.len());
    reveal_strlit("show_window");
    assert("category_audio"@.len() != "show_window"@.len());
    reveal_strlit("hide_window");
    assert("category_audio"@.len() != "hide_window"@.len());
    reveal_strlit("quit");
    assert("category_audio"@.len() != "quit"@.len());
    reveal_strlit("fetch_packages_failed");
    assert("category_audio"@.len() != "fetch_packages_failed"@.len());
    reveal_strlit("payment_disabled");
    assert("category_audio"@.len() != "payment_disabled"@.len());
    reveal_strlit("apple_purchase_init_failed");
    assert("category_audio"@.len() != "apple_purchase_init_failed"@.len());
    reveal_strlit("apple_purchase_start_failed");
    assert("category_audio"@.len() != "apple_purchase_start_failed"@.len());
    reveal_strlit("apple_purchase_started");
    assert("category_audio"@.len() != "apple_purchase_started"@.len());
    reveal_strlit("apple_purchase_macos_only");
    assert("category_audio"@.len() != "apple_purchase_macos_only"@.len());
    reveal_strlit("apple_receipt_verify_success");
    assert("category_audio"@.len() != "apple_receipt_verify_success"@.len());
    reveal_strlit("apple_receipt_verify_success_title");
    assert("category_audio"@.len() != "apple_receipt_verify_success_title"@.len());
    reveal_strlit("apple_receipt_verify_failed");
    assert("category_audio"@.len() != "apple_receipt_verify_failed"@.len());
    reveal_strlit("main_window_not_found");
    assert("category_audio"@.len() != "main_window_not_found"@.len());
    reveal_strlit("config_file_description");
    assert("category_audio"@.len() != "config_file_description"@.len());
    reveal_strlit("category_images");
    assert("category_audio"@.len() != "category_images"@.len());
    reveal_strlit("category_documents");
    assert("category_audio"@.len() != "category_documents"@.len());
    reveal_strlit("category_spreadsheets");
    assert("category_audio"@.len() != "category_spreadsheets"@.len());
    reveal_strlit("category_presentations");
    assert("category_audio"@.len() != "category_presentations"@.len());
}

proof fn lemma_zh_video()
    ensures
        chinese_text("category_video"@) == Some("视频"@),
{
    reveal_strlit("category_video");
    reveal_strlit("trial_ended");
    assert("category_video"@.len() != "trial_ended"@.len());
    reveal_strlit("init_failed");
    assert("category_video"@.len() != "init_failed"@.len());
    reveal_strlit("organize_failed");
    assert("category_video"@.len() != "organize_failed"@.len());
    reveal_strlit("monitoring_start_failed");
    assert("category_video"@.len() != "monitoring_start_failed"@.len());
    reveal_strlit("load_config_failed");
    assert("category_video"@.len() != "load_config_failed"@.len());
    reveal_strlit("save_config_failed");
    assert("category_video"@.len() != "save_config_failed"@.len());
    reveal_strlit("folder_selection_cancelled");
    assert("category_video"@.len() != "folder_selection_cancelled"@.len());
    reveal_strlit("downloads_folder_not_found");
    assert("category_video"@.len() != "downloads_folder_not_found"@.len());
    reveal_strlit("config_saved");
    assert("category_video"@.len() != "config_saved"@.len());
    reveal_strlit("files_organized");
    assert("category_video"@.len() != "files_organized"@.len());
    reveal_strlit("enable_autostart_failed");
    assert("category_video"@.len() != "enable_autostart_failed"@.len());
    reveal_strlit("disable_autostart_failed");
    assert("category_video"@.len() != "disable_autostart_failed"@.len());
    reveal_strlit("settings_saved");
    assert("category_video"@[0] != "settings_saved"@[0]);
    reveal_strlit("save_settings_failed");
    assert("category_video"@.len() != "save_settings_failed"@.len());
    reveal_strlit("setting_updated");
    assert("category_video"@.len() != "setting_updated"@.len());
    reveal_strlit("show_window");
    assert("category_video"@.len() != "show_window"@.len());
    reveal_strlit("hide_window");
    assert("category_video"@.len() != "hide_window"@.len());
    reveal_strlit("quit");
    assert("category_video"@.len() != "quit"@.len());
    reveal_strlit("fetch_packages_failed");
    assert("category_video"@.len() != "fetch_packages_failed"@.len());
    reveal_strlit("payment_disabled");
    assert("category_video"@.len() != "payment_disabled"@.len());
    reveal_strlit("apple_purchase_init_failed");
    assert("category_video"@.len() != "apple_purchase_init_failed"@.len());
    reveal_strlit("apple_purchase_start_failed");
    assert("category_video"@.len() != "apple_purchase_start_failed"@.len());
    reveal_strlit("apple_purchase_started");
    assert("category_video"@.len() != "apple_purchase_started"@.len());
    reveal_strlit("apple_purchase_macos_only");
    assert("category_video"@.len() != "apple_purchase_macos_only"@.len());
    reveal_strlit("apple_receipt_verify_success");
    assert("category_video"@.len() != "apple_receipt_verify_success"@.len());
    reveal_strlit("apple_receipt_verify_success_title");
    assert("category_video"@.len() != "apple_receipt_verify_success_title"@.len());
    reveal_strlit("apple_receipt_verify_failed");
    assert("category_video"@.len() != "apple_receipt_verify_failed"@.len());
    reveal_strlit("main_window_not_found");
    assert("category_video"@.len() != "main_window_not_found"@.len());
    reveal_strlit("config_file_description");
    assert("category_video"@.len() != "config_file_description"@.len());
    reveal_strlit("category_images");
    assert("category_video"@.len() != "category_images"@.len());
    reveal_strlit("category_documents");
    assert("category_video"@.len() != "category_documents"@.len());
    reveal_strlit("category_spreadsheets");
    assert("category_video"@.len() != "category_spreadsheets"@.len());
    reveal_strlit("category_presentations");
    assert("category_video"@.len() != "category_presentations"@.len());
    reveal_strlit("category_audio");
    assert("category_video"@[9] != "category_audio"@[9]);
}

proof fn lemma_zh_archives()
    ensures
        chinese_text("category_archives"@) == Some("压缩包"@),
{
    reveal_strlit("category_archives");
    reveal_strlit("trial_ended");
    assert("category_archives"@.len() != "trial_ended"@.len());
    reveal_strlit("init_failed");
    assert("category_archives"@.len() != "init_failed"@.len());
    reveal_strlit("organize_failed");
    assert("category_archives"@.len() != "organize_failed"@.len());
    reveal_strlit("monitoring_start_failed");
    assert("category_archives"@.len() != "monitoring_start_failed"@.len());
    reveal_strlit("load_config_failed");
    assert("category_archives"@.len() != "load_config_failed"@.len());
    reveal_strlit("save_config_failed");
    assert("category_archives"@.len() != "save_config_failed"@.len());
    reveal_strlit("folder_selection_cancelled");
    assert("category_archives"@.len() != "folder_selection_cancelled"@.len());
    reveal_strlit("downloads_folder_not_found");
    assert("category_archives"@.len() != "downloads_folder_not_found"@.len());
    reveal_strlit("config_saved");
    assert("category_archives"@.len() != "config_saved"@.len());
    reveal_strlit("files_organized");
    assert("category_archives"@.len() != "files_organized"@.len());
    reveal_strlit("enable_autostart_failed");
    assert("category_archives"@.len() != "enable_autostart_failed"@.len());
    reveal_strlit("disable_autostart_failed");
    assert("category_archives"@.len() != "disable_autostart_failed"@.len());
    reveal_strlit("settings_saved");
    assert("category_archives"@.len() != "settings_saved"@.len());
    reveal_strlit("save_settings_failed");
    assert("category_archives"@.len() != "save_settings_failed"@.len());
    reveal_strlit("setting_updated");
    assert("category_archives"@.len() != "setting_updated"@.len());
    reveal_strlit("show_window");
    assert("category_archives"@.len() != "show_window"@.len());
    reveal_strlit("hide_window");
    assert("category_archives"@.len() != "hide_window"@.len());
    reveal_strlit("quit");
    assert("category_archives"@.len() != "quit"@.len());
    reveal_strlit("fetch_packages_failed");
    assert("category_archives"@.len() != "fetch_packages_failed"@.len());
    reveal_strlit("payment_disabled");
    assert("category_archives"@.len() != "payment_disabled"@.len());
    reveal_strlit("apple_purchase_init_failed");
    assert("category_archives"@.len() != "apple_purchase_init_failed"@.len());
    reveal_strlit("apple_purchase_start_failed");
    assert("category_archives"@.len() != "apple_purchase_start_failed"@.len());
    reveal_strlit("apple_purchase_started");
    assert("category_archives"@.len() != "apple_purchase_started"@.len());
    reveal_strlit("apple_purchase_macos_only");
    assert("category_archives"@.len() != "apple_purchase_macos_only"@.len());
    reveal_strlit("apple_receipt_verify_success");
    assert("category_archives"@.len() != "apple_receipt_verify_success"@.len());
    reveal_strlit("apple_receipt_verify_success_title");
    assert("category_archives"@.len() != "apple_receipt_verify_success_title"@.len());
    reveal_strlit("apple_receipt_verify_failed");
    assert("category_archives"@.len() != "apple_receipt_verify_failed"@.len());
    reveal_strlit("main_window_not_found");
    assert("category_archives"@.len() != "main_window_not_found"@.len());
    reveal_strlit("config_file_description");
    assert("category_archives"@.len() != "config_file_description"@.len());
    reveal_strlit("category_images");
    assert("category_archives"@.len() != "category_images"@.len());
    reveal_strlit("category_documents");
    assert("category_archives"@.len() != "category_documents"@.len());
    reveal_strlit("category_spreadsheets");
    assert("category_archives"@.len() != "category_spreadsheets"@.len());
    reveal_strlit("category_presentations");
    assert("category_archives"@.len() != "category_presentations"@.len());
    reveal_strlit("category_audio");
    assert("category_archives"@.len() != "category_audio"@.len());
    reveal_strlit("category_video");
    assert("category_archives"@.len() != "category_video"@.len());
}

proof fn lemma_zh_programs()
    ensures
        chinese_text("category_programs"@) == Some("程序"@),
{
    reveal_strlit("category_programs");
    reveal_strlit("trial_ended");
    assert("category_programs"@.len() != "trial_ended"@.len());
    reveal_strlit("init_failed");
    assert("category_programs"@.len() != "init_failed"@.len());
    reveal_strlit("organize_failed");
    assert("category_programs"@.len() != "organize_failed"@.len());
    reveal_strlit("monitoring_start_failed");
    assert("category_programs"@.len() != "monitoring_start_failed"@.len());
    reveal_strlit("load_config_failed");
    assert("category_programs"@.len() != "load_config_failed"@.len());
    reveal_strlit("save_config_failed");
    assert("category_programs"@.len() != "save_config_failed"@.len());
    reveal_strlit("folder_selection_cancelled");
    assert("category_programs"@.len() != "folder_selection_cancelled"@.len());
    reveal_strlit("downloads_folder_not_found");
    assert("category_programs"@.len() != "downloads_folder_not_found"@.len());
    reveal_strlit("config_saved");
    assert("category_programs"@.len() != "config_saved"@.len());
    reveal_strlit("files_organized");
    assert("category_programs"@.len() != "files_organized"@.len());
    reveal_strlit("enable_autostart_failed");
    assert("category_programs"@.len() != "enable_autostart_failed"@.len());
    reveal_strlit("disable_autostart_failed");
    assert("category_programs"@.len() != "disable_autostart_failed"@.len());
    reveal_strlit("settings_saved");
    assert("category_programs"@.len() != "settings_saved"@.len());
    reveal_strlit("save_settings_failed");
    assert("category_programs"@.len() != "save_settings_failed"@.len());
    reveal_strlit("setting_updated");
    assert("category_programs"@.len() != "setting_updated"@.len());
    reveal_strlit("show_window");
    assert("category_programs"@.len() != "show_window"@.len());
    reveal_strlit("hide_window");
    assert("category_programs"@.len() != "hide_window"@.len());
    reveal_strlit("quit");
    assert("category_programs"@.len() != "quit"@.len());
    reveal_strlit("fetch_packages_failed");
    assert("category_programs"@.len() != "fetch_packages_failed"@.len());
    reveal_strlit("payment_disabled");
    assert("category_programs"@.len() != "payment_disabled"@.len());
    reveal_strlit("apple_purchase_init_failed");
    assert("category_programs"@.len() != "apple_purchase_init_failed"@.len());
    reveal_strlit("apple_purchase_start_failed");
    assert("category_programs"@.len() != "apple_purchase_start_failed"@.len());
    reveal_strlit("apple_purchase_started");
    assert("category_programs"@.len() != "apple_purchase_started"@.len());
    reveal_strlit("apple_purchase_macos_only");
    assert("category_programs"@.len() != "apple_purchase_macos_only"@.len());
    reveal_strlit("apple_receipt_verify_success");
    assert("category_programs"@.len() != "apple_receipt_verify_success"@.len());
    reveal_strlit("apple_receipt_verify_success_title");
    assert("category_programs"@.len() != "apple_receipt_verify_success_title"@.len());
    reveal_strlit("apple_receipt_verify_failed");
    assert("category_programs"@.len() != "apple_receipt_verify_failed"@.len());
    reveal_strlit("main_window_not_found");
    assert("category_programs"@.len() != "main_window_not_found"@.len());
    reveal_strlit("config_file_description");
    assert("category_programs"@.len() != "config_file_description"@.len());
    reveal_strlit("category_images");
    assert("category_programs"@.len() != "category_images"@.len());
    reveal_strlit("category_documents");
    assert("category_programs"@.len() != "category_documents"@.len());
    reveal_strlit("category_spreadsheets");
    assert("category_programs"@.len() != "category_spreadsheets"@.len());
    reveal_strlit("category_presentations");
    assert("category_programs"@.len() != "category_presentations"@.len());
    reveal_strlit("category_audio");
    assert("category_programs"@.len() != "category_audio"@.len());
    reveal_strlit("category_video");
    assert("category_programs"@.len() != "category_video"@.len());
    reveal_strlit("category_archives");
    assert("category_programs"@[9] != "category_archives"@[9]);
}

proof fn lemma_zh_code()
    ensures
        chinese_text("category_code"@) == Some("代码"@),
{
    reveal_strlit("category_code");
    reveal_strlit("trial_ended");
    assert("category_code"@.len() != "trial_ended"@.len());
    reveal_strlit("init_failed");
    assert("category_code"@.len() != "init_failed"@.len());
    reveal_strlit("organize_failed");
    assert("category_code"@.len() != "organize_failed"@.len());
    reveal_strlit("monitoring_start_failed");
    assert("category_code"@.len() != "monitoring_start_failed"@.len());
    reveal_strlit("load_config_failed");
    assert("category_code"@.len() != "load_config_failed"@.len());
    reveal_strlit("save_config_failed");
    assert("category_code"@.len() != "save_config_failed"@.len());
    reveal_strlit("folder_selection_cancelled");
    assert("category_code"@.len() != "folder_selection_cancelled"@.len());
    reveal_strlit("downloads_folder_not_found");
    assert("category_code"@.len() != "downloads_folder_not_found"@.len());
    reveal_strlit("config_saved");
    assert("category_code"@.len() != "config_saved"@.len());
    reveal_strlit("files_organized");
    assert("category_code"@.len() != "files_organized"@.len());
    reveal_strlit("enable_autostart_failed");
    assert("category_code"@.len() != "enable_autostart_failed"@.len());
    reveal_strlit("disable_autostart_failed");
    assert("category_code"@.len() != "disable_autostart_failed"@.len());
    reveal_strlit("settings_saved");
    assert("category_code"@.len() != "settings_saved"@.len());
    reveal_strlit("save_settings_failed");
    assert("category_code"@.len() != "save_settings_failed"@.len());
    reveal_strlit("setting_updated");
    assert("category_code"@.len() != "setting_updated"@.len());
    reveal_strlit("show_window");
    assert("category_code"@.len() != "show_window"@.len());
    reveal_strlit("hide_window");
    assert("category_code"@.len() != "hide_window"@.len());
    reveal_strlit("quit");
    assert("category_code"@.len() != "quit"@.len());
    reveal_strlit("fetch_packages_failed");
    assert("category_code"@.len() != "fetch_packages_failed"@.len());
    reveal_strlit("payment_disabled");
    assert("category_code"@.len() != "payment_disabled"@.len());
    reveal_strlit("apple_purchase_init_failed");
    assert("category_code"@.len() != "apple_purchase_init_failed"@.len());
    reveal_strlit("apple_purchase_start_failed");
    assert("category_code"@.len() != "apple_purchase_start_failed"@.len());
    reveal_strlit("apple_purchase_started");
    assert("category_code"@.len() != "apple_purchase_started"@.len());
    reveal_strlit("apple_purchase_macos_only");
    assert("category_code"@.len() != "apple_purchase_macos_only"@.len());
    reveal_strlit("apple_receipt_verify_success");
    assert("category_code"@.len() != "apple_receipt_verify_success"@.len());
    reveal_strlit("apple_receipt_verify_success_title");
    assert("category_code"@.len() != "apple_receipt_verify_success_title"@.len());
    reveal_strlit("apple_receipt_verify_failed");
    assert("category_code"@.len() != "apple_receipt_verify_failed"@.len());
    reveal_strlit("main_window_not_found");
    assert("category_code"@.len() != "main_window_not_found"@.len());
    reveal_strlit("config_file_description");
    assert("category_code"@.len() != "config_file_description"@.len());
    reveal_strlit("category_images");
    assert("category_code"@.len() != "category_images"@.len());
    reveal_strlit("category_documents");
    assert("category_code"@.len() != "category_documents"@.len());
    reveal_strlit("category_spreadsheets");
    assert("category_code"@.len() != "category_spreadsheets"@.len());
    reveal_strlit("category_presentations");
    assert("category_code"@.len() != "category_presentations"@.len());
    reveal_strlit("category_audio");
    assert("category_code"@.len() != "category_audio"@.len());
    reveal_strlit("category_video");
    assert("category_code"@.len() != "category_video"@.len());
    reveal_strlit("category_archives");
    assert("category_code"@.len() != "category_archives"@.len());
    reveal_strlit("category_programs");
    assert("category_code"@.len() != "category_programs"@.len());
}

proof fn lemma_zh_fonts()
    ensures
        chinese_text("category_fonts"@) == Some("字体"@),
{
    reveal_strlit("category_fonts");
    reveal_strlit("trial_ended");
    assert("category_fonts"@.len() != "trial_ended"@.len());
    reveal_strlit("init_failed");
    assert("category_fonts"@.len() != "init_failed"@.len());
    reveal_strlit("organize_failed");
    assert("category_fonts"@.len() != "organize_failed"@.len());
    reveal_strlit("monitoring_start_failed");
    assert("category_fonts"@.len() != "monitoring_start_failed"@.len());
    reveal_strlit("load_config_failed");
    assert("category_fonts"@.len() != "load_config_failed"@.len());
    reveal_strlit("save_config_failed");
    assert("category_fonts"@.len() != "save_config_failed"@.len());
    reveal_strlit("folder_selection_cancelled");
    assert("category_fonts"@.len() != "folder_selection_cancelled"@.len());
    reveal_strlit("downloads_folder_not_found");
    assert("category_fonts"@.len() != "downloads_folder_not_found"@.len());
    reveal_strlit("config_saved");
    assert("category_fonts"@.len() != "config_saved"@.len());
    reveal_strlit("files_organized");
    assert("category_fonts"@.len() != "files_organized"@.len());
    reveal_strlit("enable_autostart_failed");
    assert("category_fonts"@.len() != "enable_autostart_failed"@.len());
    reveal_strlit("disable_autostart_failed");
    assert("category_fonts"@.len() != "disable_autostart_failed"@.len());
    reveal_strlit("settings_saved");
    assert("category_fonts"@[0] != "settings_saved"@[0]);
    reveal_strlit("save_settings_failed");
    assert("category_fonts"@.len() != "save_settings_failed"@.len());
    reveal_strlit("setting_updated");
    assert("category_fonts"@.len() != "setting_updated"@.len());
    reveal_strlit("show_window");
    assert("category_fonts"@.len() != "show_window"@.len());
    reveal_strlit("hide_window");
    assert("category_fonts"@.len() != "hide_window"@.len());
    reveal_strlit("quit");
    assert("category_fonts"@.len() != "quit"@.len());
    reveal_strlit("fetch_packages_failed");
    assert("category_fonts"@.len() != "fetch_packages_failed"@.len());
    reveal_strlit("payment_disabled");
    assert("category_fonts"@.len() != "payment_disabled"@.len());
    reveal_strlit("apple_purchase_init_failed");
    assert("category_fonts"@.len() != "apple_purchase_init_failed"@.len());
    reveal_strlit("apple_purchase_start_failed");
    assert("category_fonts"@.len() != "apple_purchase_start_failed"@.len());
    reveal_strlit("apple_purchase_started");
    assert("category_fonts"@.len() != "apple_purchase_started"@.len());
    reveal_strlit("apple_purchase_macos_only");
    assert("category_fonts"@.len() != "apple_purchase_macos_only"@.len());
    reveal_strlit("apple_receipt_verify_success");
    assert("category_fonts"@.len() != "apple_receipt_verify_success"@.len());
    reveal_strlit("apple_receipt_verify_success_title");
    assert("category_fonts"@.len() != "apple_receipt_verify_success_title"@.len());
    reveal_strlit("apple_receipt_verify_failed");
    assert("category_fonts"@.len() != "apple_receipt_verify_failed"@.len());
    reveal_strlit("main_window_not_found");
    assert("category_fonts"@.len() != "main_window_not_found"@.len());
    reveal_strlit("config_file_description");
    assert("category_fonts"@.len() != "config_file_description"@.len());
    reveal_strlit("category_images");
    assert("category_fonts"@.len() != "category_images"@.len());
    reveal_strlit("category_documents");
    assert("category_fonts"@.len() != "category_documents"@.len());
    reveal_strlit("category_spreadsheets");
    assert("category_fonts"@.len() != "category_spreadsheets"@.len());
    reveal_strlit("category_presentations");
    assert("category_fonts"@.len() != "category_presentations"@.len());
    reveal_strlit("category_audio");
    assert("category_fonts"@[9] != "category_audio"@[9]);
    reveal_strlit("category_video");
    assert("category_fonts"@[9] != "category_video"@[9]);
    reveal_strlit("category_archives");
    assert("category_fonts"@.len() != "category_archives"@.len());
    reveal_strlit("category_programs");
    assert("category_fonts"@.len() != "category_programs"@.len());
    reveal_strlit("category_code");
    assert("category_fonts"@.len() != "category_code"@.len());
}

proof fn lemma_zh_others()
    ensures
        chinese_text("category_others"@) is None,
{
    reveal_strlit("category_others");
    reveal_strlit("trial_ended");
    assert("category_others"@.len() != "trial_ended"@.len());
    reveal_strlit("init_failed");
    assert("category_others"@.len() != "init_failed"@.len());
    reveal_strlit("organize_failed");
    assert("category_others"@[0] != "organize_failed"@[0]);
    reveal_strlit("monitoring_start_failed");
    assert("category_others"@.len() != "monitoring_start_failed"@.len());
    reveal_strlit("load_config_failed");
    assert("category_others"@.len() != "load_config_failed"@.len());
    reveal_strlit("save_config_failed");
    assert("category_others"@.len() != "save_config_failed"@.len());
    reveal_strlit("folder_selection_cancelled");
    assert("category_others"@.len() != "folder_selection_cancelled"@.len());
    reveal_strlit("downloads_folder_not_found");
    assert("category_others"@.len() != "downloads_folder_not_found"@.len());
    reveal_strlit("config_saved");
    assert("category_others"@.len() != "config_saved"@.len());
    reveal_strlit("files_organized");
    assert("category_others"@[0] != "files_organized"@[0]);
    reveal_strlit("enable_autostart_failed");
    assert("category_others"@.len() != "enable_autostart_failed"@.len());
    reveal_strlit("disable_autostart_failed");
    assert("category_others"@.len() != "disable_autostart_failed"@.len());
    reveal_strlit("settings_saved");
    assert("category_others"@.len() != "settings_saved"@.len());
    reveal_strlit("save_settings_failed");
    assert("category_others"@.len() != "save_settings_failed"@.len());
    reveal_strlit("setting_updated");
    assert("category_others"@[0] != "setting_updated"@[0]);
    reveal_strlit("show_window");
    assert("category_others"@.len() != "show_window"@.len());
    reveal_strlit("hide_window");
    assert("category_others"@.len() != "hide_window"@.len());
    reveal_strlit("quit");
    assert("category_others"@.len() != "quit"@.len());
    reveal_strlit("fetch_packages_failed");
    assert("category_others"@.len() != "fetch_packages_failed"@.len());
    reveal_strlit("payment_disabled");
    assert("category_others"@.len() != "payment_disabled"@.len());
    reveal_strlit("apple_purchase_init_failed");
    assert("category_others"@.len() != "apple_purchase_init_failed"@.len());
    reveal_strlit("apple_purchase_start_failed");
    assert("category_others"@.len() != "apple_purchase_start_failed"@.len());
    reveal_strlit("apple_purchase_started");
    assert("category_others"@.len() != "apple_purchase_started"@.len());
    reveal_strlit("apple_purchase_macos_only");
    assert("category_others"@.len() != "apple_purchase_macos_only"@.len());
    reveal_strlit("apple_receipt_verify_success");
    assert("category_others"@.len() != "apple_receipt_verify_success"@.len());
    reveal_strlit("apple_receipt_verify_success_title");
    assert("category_others"@.len() != "apple_receipt_verify_success_title"@.len());
    reveal_strlit("apple_receipt_verify_failed");
    assert("category_others"@.len() != "apple_receipt_verify_failed"@.len());
    reveal_strlit("main_window_not_found");
    assert("category_others"@.len() != "main_window_not_found"@.len());
    reveal_strlit("config_file_description");
    assert("category_others"@.len() != "config_file_description"@.len());
    reveal_strlit("category_images");
    assert("category_others"@[9] != "category_images"@[9]);
    reveal_strlit("category_documents");
    assert("category_others"@.len() != "category_documents"@.len());
    reveal_strlit("category_spreadsheets");
    assert("category_others"@.len() != "category_spreadsheets"@.len());
    reveal_strlit("category_presentations");
    assert("category_others"@.len() != "category_presentations"@.len());
    reveal_strlit("category_audio");
    assert("category_others"@.len() != "category_audio"@.len());
    reveal_strlit("category_video");
    assert("category_others"@.len() != "category_video"@.len());
    reveal_strlit("category_archives");
    assert("category_others"@.len() != "category_archives"@.len());
    reveal_strlit("category_programs");
    assert("category_others"@.len() != "category_programs"@.len());
    reveal_strlit("category_code");
    assert("category_others"@.len() != "category_code"@.len());
    reveal_strlit("category_fonts");
    assert("category_others"@.len() != "category_fonts"@.len());
    reveal_strlit("monitoring_stopped_title");
    assert("category_others"@.len() != "monitoring_stopped_title"@.len());
    reveal_strlit("monitoring_stopped_body");
    assert("category_others"@.len() != "monitoring_stopped_body"@.len());
    reveal_strlit("monitoring_started_title");
    assert("category_others"@.len() != "monitoring_started_title"@.len());
    reveal_strlit("monitoring_started_body");
    assert("category_others"@.len() != "monitoring_started_body"@.len());
    reveal_strlit("invalid_subscription_plan");
    assert("category_others"@.len() != "invalid_subscription_plan"@.len());
    reveal_strlit("purchase_success_title");
    assert("category_others"@.len() != "purchase_success_title"@.len());
    reveal_strlit("purchase_success_body");
    assert("category_others"@.len() != "purchase_success_body"@.len());
    reveal_strlit("purchase_activation_success");
    assert("category_others"@.len() != "purchase_activation_success"@.len());
    reveal_strlit("purchase_activation_failed");
    assert("category_others"@.len() != "purchase_activation_failed"@.len());
    reveal_strlit("subscription_cancelled_title");
    assert("category_others"@.len() != "subscription_cancelled_title"@.len());
    reveal_strlit("subscription_cancelled_body");
    assert("category_others"@.len() != "subscription_cancelled_body"@.len());
    reveal_strlit("subscription_cancelled");
    assert("category_others"@.len() != "subscription_cancelled"@.len());
    reveal_strlit("cancel_subscription_failed");
    assert("category_others"@.len() != "cancel_subscription_failed"@.len());
    reveal_strlit("apple_receipt_verify_failed_format");
    assert("category_others"@.len() != "apple_receipt_verify_failed_format"@.len());
    reveal_strlit("subscription_status_refreshed");
    assert("category_others"@.len() != "subscription_status_refreshed"@.len());
    reveal_strlit("refresh_subscription_failed");
    assert("category_others"@.len() != "refresh_subscription_failed"@.len());
    reveal_strlit("apple_purchase_macos_only_format");
    assert("category_others"@.len() != "apple_purchase_macos_only_format"@.len());
    reveal_strlit("storekit_init_failed");
    assert("category_others"@.len() != "storekit_init_failed"@.len());
    reveal_strlit("restore_purchases_failed");
    assert("category_others"@.len() != "restore_purchases_failed"@.len());
    reveal_strlit("purchase_restore_started");
    assert("category_others"@.len() != "purchase_restore_started"@.len());
    reveal_strlit("receipt_data_failed");
    assert("category_others"@.len() != "receipt_data_failed"@.len());
    reveal_strlit("receipt_macos_only");
    assert("category_others"@.len() != "receipt_macos_only"@.len());
    reveal_strlit("create_payment_session_failed");
    assert("category_others"@.len() != "create_payment_session_failed"@.len());
    reveal_strlit("check_payment_status_failed");
    assert("category_others"@.len() != "check_payment_status_failed"@.len());
    reveal_strlit("open_payment_page_failed");
    assert("category_others"@.len() != "open_payment_page_failed"@.len());
    reveal_strlit("webhook_url_updated");
    assert("category_others"@.len() != "webhook_url_updated"@.len());
    reveal_strlit("update_url_failed");
    assert("category_others"@.len() != "update_url_failed"@.len());
    reveal_strlit("app_minimized_title");
    assert("category_others"@.len() != "app_minimized_title"@.len());
    reveal_strlit("app_minimized_body");
    assert("category_others"@.len() != "app_minimized_body"@.len());
    reveal_strlit("updater_started");
    assert("category_others"@[0] != "updater_started"@[0]);
    reveal_strlit("organized_folder_name");
    assert("category_others"@.len() != "organized_folder_name"@.len());
    reveal_strlit("skip_unmatched_file");
    assert("category_others"@.len() != "skip_unmatched_file"@.len());
    reveal_strlit("organize_complete_moved_count");
    assert("category_others"@.len() != "organize_complete_moved_count"@.len());
    reveal_strlit("monitor_stop_signal_received");
    assert("category_others"@.len() != "monitor_stop_signal_received"@.len());
    reveal_strlit("file_create_event_detected");
    assert("category_others"@.len() != "file_create_event_detected"@.len());
    reveal_strlit("file_recently_processed_skip");
    assert("category_others"@.len() != "file_recently_processed_skip"@.len());
    reveal_strlit("start_processing_file");
    assert("category_others"@.len() != "start_processing_file"@.len());
    reveal_strlit("new_file_categorized");
    assert("category_others"@.len() != "new_file_categorized"@.len());
    reveal_strlit("move_file_failed");
    assert("category_others"@.len() != "move_file_failed"@.len());
    reveal_strlit("new_file_unmatched");
    assert("category_others"@.len() != "new_file_unmatched"@.len());
    reveal_strlit("event_process_error");
    assert("category_others"@.len() != "event_process_error"@.len());
    reveal_strlit("monitor_error");
    assert("category_others"@.len() != "monitor_error"@.len());
    reveal_strlit("monitor_started");
    assert("category_others"@[0] != "monitor_started"@[0]);
    reveal_strlit("monitor_stop_signal_sent");
    assert("category_others"@.len() != "monitor_stop_signal_sent"@.len());
    reveal_strlit("join_monitor_thread_error");
    assert("category_others"@.len() != "join_monitor_thread_error"@.len());
    reveal_strlit("monitor_stopped");
    assert("category_others"@[0] != "monitor_stopped"@[0]);
    reveal_strlit("move_file_success");
    assert("category_others"@.len() != "move_file_success"@.len());
    reveal_strlit("update_scheduler_config_success");
    assert("category_others"@.len() != "update_scheduler_config_success"@.len());
    reveal_strlit("update_scheduler_config_failed");
    assert("category_others"@.len() != "update_scheduler_config_failed"@.len());
    reveal_strlit("create_folder");
    assert("category_others"@.len() != "create_folder"@.len());
    reveal_strlit("file_modify_event_detected");
    assert("category_others"@.len() != "file_modify_event_detected"@.len());
    reveal_strlit("file_other_event_detected");
    assert("category_others"@.len() != "file_other_event_detected"@.len());
    reveal_strlit("undo_action_success");
    assert("category_others"@.len() != "undo_action_success"@.len());
    reveal_strlit("undo_history_cleared");
    assert("category_others"@.len() != "undo_history_cleared"@.len());
    reveal_strlit("undo_success_title");
    assert("category_others"@.len() != "undo_success_title"@.len());
    reveal_strlit("undo_failed");
    assert("category_others"@.len() != "undo_failed"@.len());
    reveal_strlit("no_monitoring_for_path");
    assert("category_others"@.len() != "no_monitoring_for_path"@.len());
}

/// The built-in category names are distinct in every language.
pub proof fn lemma_default_names_distinct(lang: Language)
    ensures
        rules_names_distinct(default_rules(lang)),
{
    lemma_en_images();
    lemma_en_documents();
    lemma_en_spreadsheets();
    lemma_en_presentations();
    lemma_en_audio();
    lemma_en_video();
    lemma_en_archives();
    lemma_en_programs();
    lemma_en_code();
    lemma_en_fonts();
    lemma_en_others();
    lemma_zh_images();
    lemma_zh_documents();
    lemma_zh_spreadsheets();
    lemma_zh_presentations();
    lemma_zh_audio();
    lemma_zh_video();
    lemma_zh_archives();
    lemma_zh_programs();
    lemma_zh_code();
    lemma_zh_fonts();
    lemma_zh_others();
    reveal_strlit("Images");
    reveal_strlit("Documents");
    reveal_strlit("Spreadsheets");
    reveal_strlit("Presentations");
    reveal_strlit("Audio");
    reveal_strlit("Video");
    reveal_strlit("Archives");
    reveal_strlit("Programs");
    reveal_strlit("Code");
    reveal_strlit("Fonts");
    reveal_strlit("category_others");
    assert("Images"@.len() != "Documents"@.len());
    assert("Images"@.len() != "Spreadsheets"@.len());
    assert("Images"@.len() != "Presentations"@.len());
    assert("Images"@.len() != "Audio"@.len());
    assert("Images"@.len() != "Video"@.len());
    assert("Images"@.len() != "Archives"@.len());
    assert("Images"@.len() != "Programs"@.len());
    assert("Images"@.len() != "Code"@.len());
    assert("Images"@.len() != "Fonts"@.len());
    assert("Images"@.len() != "category_others"@.len());
    assert("Documents"@.len() != "Spreadsheets"@.len());
    assert("Documents"@.len() != "Presentations"@.len());
    assert("Documents"@.len() != "Audio"@.len());
    assert("Documents"@.len() != "Video"@.len());
    assert("Documents"@.len() != "Archives"@.len());
    assert("Documents"@.len() != "Programs"@.len());
    assert("Documents"@.len() != "Code"@.len());
    assert("Documents"@.len() != "Fonts"@.len());
    assert("Documents"@.len() != "category_others"@.len());
    assert("Spreadsheets"@.len() != "Presentations"@.len());
    assert("Spreadsheets"@.len() != "Audio"@.len());
    assert("Spreadsheets"@.len() != "Video"@.len());
    assert("Spreadsheets"@.len() != "Archives"@.len());
    assert("Spreadsheets"@.len() != "Programs"@.len());
    assert("Spreadsheets"@.len() != "Code"@.len());
    assert("Spreadsheets"@.len() != "Fonts"@.len());
    assert("Spreadsheets"@.len() != "category_others"@.len());
    assert("Presentations"@.len() != "Audio"@.len());
    assert("Presentations"@.len() != "Video"@.len());
    assert("Presentations"@.len() != "Archives"@.len());
    assert("Presentations"@.len() != "Programs"@.len());
    assert("Presentations"@.len() != "Code"@.len());
    assert("Presentations"@.len() != "Fonts"@.len());
    assert("Presentations"@.len() != "category_others"@.len());
    assert("Audio"@[0] != "Video"@[0]);
    assert("Audio"@.len() != "Archives"@.len());
    assert("Audio"@.len() != "Programs"@.len());
    assert("Audio"@.len() != "Code"@.len());
    assert("Audio"@[0] != "Fonts"@[0]);
    assert("Audio"@.len() != "category_others"@.len());
    assert("Video"@.len() != "Archives"@.len());
    assert("Video"@.len() != "Programs"@.len());
    assert("Video"@.len() != "Code"@.len());
    assert("Video"@[0] != "Fonts"@[0]);
    assert("Video"@.len() != "category_others"@.len());
    assert("Archives"@[0] != "Programs"@[0]);
    assert("Archives"@.len() != "Code"@.len());
    assert("Archives"@.len() != "Fonts"@.len());
    assert("Archives"@.len() != "category_others"@.len());
    assert("Programs"@.len() != "Code"@.len());
    assert("Programs"@.len() != "Fonts"@.len());
    assert("Programs"@.len() != "category_others"@.len());
    assert("Code"@.len() != "Fonts"@.len());
    assert("Code"@.len() != "category_others"@.len());
    assert("Fonts"@.len() != "category_others"@.len());
    reveal_strlit("图片");
    reveal_strlit("文档");
    reveal_strlit("表格");
    reveal_strlit("演示");
    reveal_strlit("音频");
    reveal_strlit("视频");
    reveal_strlit("压缩包");
    reveal_strlit("程序");
    reveal_strlit("代码");
    reveal_strlit("字体");
    reveal_strlit("category_others");
    assert("图片"@[0] != "文档"@[0]);
    assert("图片"@[0] != "表格"@[0]);
    assert("图片"@[0] != "演示"@[0]);
    assert("图片"@[0] != "音频"@[0]);
    assert("图片"@[0] != "视频"@[0]);
    assert("图片"@.len() != "压缩包"@.len());
    assert("图片"@[0] != "程序"@[0]);
    assert("图片"@[0] != "代码"@[0]);
    assert("图片"@[0] != "字体"@[0]);
    assert("图片"@.len() != "category_others"@.len());
    assert("文档"@[0] != "表格"@[0]);
    assert("文档"@[0] != "演示"@[0]);
    assert("文档"@[0] != "音频"@[0]);
    assert("文档"@[0] != "视频"@[0]);
    assert("文档"@.len() != "压缩包"@.len());
    assert("文档"@[0] != "程序"@[0]);
    assert("文档"@[0] != "代码"@[0]);
    assert("文档"@[0] != "字体"@[0]);
    assert("文档"@.len() != "category_others"@.len());
    assert("表格"@[0] != "演示"@[0]);
    assert("表格"@[0] != "音频"@[0]);
    assert("表格"@[0] != "视频"@[0]);
    assert("表格"@.len() != "压缩包"@.len());
    assert("表格"@[0] != "程序"@[0]);
    assert("表格"@[0] != "代码"@[0]);
    assert("表格"@[0] != "字体"@[0]);
    assert("表格"@.len() != "category_others"@.len());
    assert("演示"@[0] != "音频"@[0]);
    assert("演示"@[0] != "视频"@[0]);
    assert("演示"@.len() != "压缩包"@.len());
    assert("演示"@[0] != "程序"@[0]);
    assert("演示"@[0] != "代码"@[0]);
    assert("演示"@[0] != "字体"@[0]);
    assert("演示"@.len() != "category_others"@.len());
    assert("音频"@[0] != "视频"@[0]);
    assert("音频"@.len() != "压缩包"@.len());
    assert("音频"@[0] != "程序"@[0]);
    assert("音频"@[0] != "代码"@[0]);
    assert("音频"@[0] != "字体"@[0]);
    assert("音频"@.len() != "category_others"@.len());
    assert("视频"@.len() != "压缩包"@.len());
    assert("视频"@[0] != "程序"@[0]);
    assert("视频"@[0] != "代码"@[0]);
    assert("视频"@[0] != "字体"@[0]);
    assert("视频"@.len() != "category_others"@.len());
    assert("压缩包"@.len() != "程序"@.len());
    assert("压缩包"@.len() != "代码"@.len());
    assert("压缩包"@.len() != "字体"@.len());
    assert("压缩包"@.len() != "category_others"@.len());
    assert("程序"@[0] != "代码"@[0]);
    assert("程序"@[0] != "字体"@[0]);
    assert("程序"@.len() != "category_others"@.len());
    assert("代码"@[0] != "字体"@[0]);
    assert("代码"@.len() != "category_others"@.len());
    assert("字体"@.len() != "category_others"@.len());
    let r = default_rules(lang);
    assert forall|i: int, j: int| 0 <= i < r.len() && 0 <= j < r.len() && i != j implies #[trigger] r[i].0 != #[trigger] r[j].0 by {
    }
}

} // verus!
