use filesortify::config::Config;
use filesortify::i18n::{t, t_format, language_from_lowercase, Language};
use filesortify::settings::{GeneralSettings, SettingValue};
use filesortify::storekit::StoreKitManager;
use filesortify::subscription::{CreemPaymentStatus, CreemSessionResponse, PackageInfo, PackagesResponse, UserPackage};
use filesortify::subscription::{key_from_hash, xor_cipher, Subscription, SubscriptionPlan, SubscriptionStatus, DAY_MS, HOUR_MS};
use filesortify::text::{decimal_string, replace_text};
use filesortify::updater::{asset_name_fits, GitHubAsset, GitHubClient, GitHubRelease, UpdateScheduler, UpdateSchedulerConfig};

fn asset(name: &str) -> GitHubAsset {
    GitHubAsset { name: name.to_string(), browser_download_url: format!("https://x/{}", name), size: 1, content_type: "application/octet-stream".to_string() }
}

#[test]
fn messages_in_both_languages() {
    assert_eq!(t(Language::English, "monitor_started"), "File monitoring started");
    assert_eq!(t(Language::Chinese, "monitor_started"), "文件监控已启动");
    assert_eq!(t(Language::English, "no_such_key"), "no_such_key");
    assert_eq!(t(Language::English, "category_others"), "category_others");
}

#[test]
fn message_templates_are_filled() {
    assert_eq!(t_format(Language::English, "files_organized", &["5"]), "Successfully organized 5 files");
    assert_eq!(t_format(Language::English, "move_file_success", &["a_1.txt", "Documents"]), "Moved file: a_1.txt -> Documents");
    assert_eq!(t_format(Language::Chinese, "organize_complete_moved_count", &["2"]), "整理完成，共移动 2 个文件");
    assert_eq!(t_format(Language::English, "monitor_started", &["x"]), "File monitoring started");
}

#[test]
fn text_replacement() {
    assert_eq!(replace_text("a{}b{}", "{}", "X", true), "aXb{}");
    assert_eq!(replace_text("a{}b{}", "{}", "X", false), "aXbX");
    assert_eq!(replace_text("aaa", "aa", "b", false), "ba");
    assert_eq!(decimal_string(0), "0");
    assert_eq!(decimal_string(18446744073709551615), "18446744073709551615");
}

#[test]
fn language_names() {
    assert_eq!(Language::from("ZH"), Language::Chinese);
    assert_eq!(Language::from("Chinese"), Language::Chinese);
    assert_eq!(Language::from("中文"), Language::Chinese);
    assert_eq!(Language::from("fr"), Language::English);
    assert_eq!(language_from_lowercase("zh"), Language::Chinese);
    assert_eq!(language_from_lowercase("ZH"), Language::English);
    assert_eq!(Language::default(), Language::English);
}

#[test]
fn default_config_and_category_edits() {
    let mut c = Config::localized_default(Language::English);
    assert_eq!(c.categories.len(), 11);
    assert_eq!(c.categories[0].0, "Images");
    assert_eq!(c.categories[10].0, "category_others");
    assert!(c.categories[10].1.is_empty());
    assert_eq!(c.version, "1.0");
    assert_eq!(c.description, "File auto-classification tool configuration file");
    let zh = Config::localized_default(Language::Chinese);
    assert_eq!(zh.categories[0].0, "图片");
    assert!(!c.remove_category("category_others"));
    assert!(c.remove_category("Fonts"));
    assert!(!c.remove_category("Fonts"));
    assert_eq!(c.categories.len(), 10);
    assert!(c.update_category("Code".to_string(), vec![".rs".to_string()]));
    assert!(!c.update_category("Nope".to_string(), vec![]));
    c.add_category("Books".to_string(), vec![".mobi".to_string()]);
    assert_eq!(c.categories.last().unwrap().0, "Books");
    c.add_category("Books".to_string(), vec![".azw".to_string()]);
    assert_eq!(c.categories.len(), 11);
    assert_eq!(c.categories[10].1, vec![".azw".to_string()]);
}

#[test]
fn settings_updates() {
    let mut s = GeneralSettings::default();
    assert!(!s.auto_start);
    assert_eq!(s.theme, "system");
    assert_eq!(s.update_setting("auto_start", SettingValue::Bool(true)), Ok(()));
    assert!(s.auto_start);
    assert_eq!(s.update_setting("auto_start", SettingValue::Text("yes".into())), Err("auto_start must be a boolean".to_string()));
    assert_eq!(s.update_setting("theme", SettingValue::Text("dark".into())), Ok(()));
    assert_eq!(s.theme, "dark");
    assert_eq!(s.update_setting("theme", SettingValue::Other), Err("theme must be a string".to_string()));
    assert_eq!(s.update_setting("volume", SettingValue::Other), Err("Unknown setting key: volume".to_string()));
}

#[test]
fn store_is_unavailable_here() {
    let mut m = StoreKitManager::new();
    let msg = "StoreKit is only available on macOS".to_string();
    assert_eq!(m.initialize(), Err(msg.clone()));
    assert_eq!(m.request_products(&["a".to_string()]), Err(msg.clone()));
    assert_eq!(m.purchase_product("a"), Err(msg.clone()));
    assert_eq!(m.restore_purchases(), Err(msg.clone()));
    assert_eq!(m.get_receipt_data(), Err(msg.clone()));
    assert_eq!(m.finish_transaction("t"), Err(msg));
}

#[test]
fn release_addresses_and_assets() {
    let c = GitHubClient::new("owner".into(), "repo".into(), Some("abc".into()));
    assert_eq!(c.latest_release_url(), "https://api.github.com/repos/owner/repo/releases/latest");
    assert_eq!(c.releases_url(10), "https://api.github.com/repos/owner/repo/releases?per_page=10");
    assert_eq!(c.authorization(), Some("token abc".to_string()));
    assert_eq!(GitHubClient::new("o".into(), "r".into(), None).authorization(), None);
    let release = GitHubRelease {
        tag_name: "v1".into(), name: "v1".into(), body: "".into(), published_at: "".into(), prerelease: false,
        assets: vec![asset("App_x64.msi"), asset("App_Linux_X64.deb"), asset("app_arm64.dmg")],
    };
    assert_eq!(c.get_platform_asset(&release, "linux", "x64").map(|a| a.name.clone()), Some("App_Linux_X64.deb".to_string()));
    assert_eq!(c.get_platform_asset(&release, "windows", "x64").map(|a| a.name.clone()), Some("App_x64.msi".to_string()));
    assert_eq!(c.get_platform_asset(&release, "macos", "universal").map(|a| a.name.clone()), Some("app_arm64.dmg".to_string()));
    assert!(c.get_platform_asset(&release, "macos", "x64").is_none());
    assert!(asset_name_fits("app.appimage", "linux", "universal") == false);
    assert!(asset_name_fits("app-linux.tar", "linux", "universal"));
}

#[test]
fn update_schedule() {
    let mut s = UpdateScheduler::new(UpdateSchedulerConfig::default());
    assert!(!s.should_check_for_updates(0));
    s.update_config(UpdateSchedulerConfig { enabled: true, check_interval_hours: 24, auto_download: false, auto_install: false });
    assert!(s.should_check_for_updates(0));
    s.mark_checked(1_000);
    assert!(!s.should_check_for_updates(1_000 + 24 * 3_600_000 - 1));
    assert!(s.should_check_for_updates(1_000 + 24 * 3_600_000));
    assert!(!s.should_check_for_updates(0));
}

#[test]
fn trial_and_purchase() {
    let now = 1_700_000_000_000i64;
    let mut s = Subscription::new("dev".into(), now);
    assert_eq!(s.status, SubscriptionStatus::Expired);
    assert!(!s.can_use_app(now));
    s.status = SubscriptionStatus::Trial;
    assert!(s.can_use_app(now));
    assert_eq!(s.get_trial_days_remaining(now), 3);
    assert_eq!(s.get_trial_days_remaining(now + DAY_MS + 1), 1);
    assert_eq!(s.get_trial_days_remaining(now + 3 * DAY_MS), 0);
    assert!(!s.is_trial_active(now + 3 * DAY_MS));
    assert!(s.activate_subscription(SubscriptionPlan::Free, now).is_err());
    assert_eq!(s.activate_subscription(SubscriptionPlan::Lifetime, now), Ok(()));
    assert!(!s.verify_subscription_integrity());
    s.creem_transaction_id = Some("tx".into());
    assert!(s.can_use_app(now + 400 * DAY_MS));
    assert!(s.verify_data_integrity(now));
    assert!(!s.verify_data_integrity(now - 1));
    assert!(!s.should_refresh_subscription(now + HOUR_MS));
    assert!(s.should_refresh_subscription(now + 24 * HOUR_MS));
    assert!(s.offline_verdict(now + 71 * HOUR_MS));
    assert!(!s.apply_server_verdict(false));
    assert_eq!(s.status, SubscriptionStatus::Expired);
    s.cancel_subscription();
    assert_eq!(s.status, SubscriptionStatus::Cancelled);
}

#[test]
fn scrambling_round_trip() {
    let key = key_from_hash(0x0123_4567_89ab_cdef);
    assert_eq!(key.len(), 32);
    assert_eq!(key[0], 0xef);
    assert_eq!(key[1], 0xf7);
    let data = b"{\"plan\":\"Free\"}".to_vec();
    let once = xor_cipher(&data, &key);
    assert_ne!(once, data);
    assert_eq!(xor_cipher(&once, &key), data);
}

fn package(id: &str) -> PackageInfo {
    PackageInfo {
        id: id.to_string(),
        name: "File Sortify".into(),
        description: String::new(),
        price: 2000,
        currency: "USD".into(),
        product_id: "prod".into(),
        created_at: String::new(),
        updated_at: String::new(),
    }
}

fn user_package(id: &str, checkout: Option<&str>) -> UserPackage {
    UserPackage {
        id: id.to_string(),
        user_id: "dev".into(),
        package_id: "pkg".into(),
        checkout_id: checkout.map(|s| s.to_string()),
        status: "PAID".into(),
        amount: 2000,
        currency: "USD".into(),
        metadata: serde_json::Value::Null,
        created_at: String::new(),
        updated_at: String::new(),
        expires_at: None,
        package: package("pkg"),
    }
}

#[test]
fn payment_server_answers() {
    let mut s = Subscription::new("dev".into(), 0);
    assert_eq!(s.creem_session_request(SubscriptionPlan::Free).map(|r| r.user_id), Err("Cannot create session for free plan".to_string()));
    let req = s.creem_session_request(SubscriptionPlan::Lifetime).unwrap();
    assert_eq!(req.user_id, "dev");
    assert_eq!(req.package_id, "cme9f2aum0000uph23ghk00sd");
    s.record_packages(&PackagesResponse { packages: package("new-pkg") });
    assert_eq!(s.package_id, "new-pkg");
    s.record_creem_session(&CreemSessionResponse { user_package: user_package("up1", None), checkout_url: "u".into(), message: "m".into() });
    assert_eq!(s.get_current_session_info(), Some("up1".to_string()));
    assert!(!s.apply_payment_status(&CreemPaymentStatus { user_packages: vec![] }, 5));
    assert_eq!(s.status, SubscriptionStatus::Expired);
    assert!(s.apply_payment_status(&CreemPaymentStatus { user_packages: vec![user_package("up1", None), user_package("up2", Some("chk"))] }, 7));
    assert_eq!(s.status, SubscriptionStatus::Active);
    assert_eq!(s.plan, SubscriptionPlan::Lifetime);
    assert_eq!(s.creem_transaction_id, Some("up1".to_string()));
    assert_eq!(s.subscription_start_date, Some(7));
    assert!(s.apply_server_verdict(true));
    s.set_webhook_server_url("https://example.org".into());
    assert_eq!(s.webhook_server_url, "https://example.org");
}

#[test]
fn store_receipts_are_refused() {
    let mut s = Subscription::new("dev".into(), 0);
    assert_eq!(s.verify_apple_receipt(Language::English, "r".into()), Err("This feature is disabled, please use Creem payment".to_string()));
    assert_eq!(s.refresh_apple_subscription(Language::Chinese), Err("此功能已禁用，请使用 Creem 支付".to_string()));
}
