//! Message catalogs in English and Chinese, and filling of message templates.
use vstd::prelude::*;
use crate::text::{decimal, decimal_string, has_infix, contains, lower_of, lowercase, replace_all, replace_first, replace_text, text_eq};

verus! {

/// A language the messages come in.
#[derive(Debug, Clone, Copy, PartialEq, Eq, Hash, Structural)]
pub enum Language {
    English,
    Chinese,
}

impl Default for Language {
    fn default() -> (r: Self)
        ensures
            r == Language::English,
    {
        Language::English
    }
}

/// The language a lowercased name stands for: `zh`, `chinese` and `中文` mean Chinese,
/// anything else English.
pub open spec fn language_named(lower: Seq<char>) -> Language {
    if lower == "zh"@ || lower == "chinese"@ || lower == "中文"@ {
        Language::Chinese
    } else {
        Language::English
    }
}

/// The language that the lowercased name `lower` stands for.
pub fn language_from_lowercase(lower: &str) -> (r: Language)
    ensures
        r == language_named(lower@),
{
    if text_eq(lower, "zh") || text_eq(lower, "chinese") || text_eq(lower, "中文") {
        Language::Chinese
    } else {
        Language::English
    }
}

impl<'a> From<&'a str> for Language {
    /// The language a name stands for, ignoring case.
    fn from(s: &'a str) -> (r: Language)
        ensures
            r == language_named(lower_of(s@)),
    {
        let lower = lowercase(s);
        language_from_lowercase(lower.as_str())
    }
}

impl<'a> vstd::std_specs::convert::FromSpecImpl<&'a str> for Language {
    open spec fn obeys_from_spec() -> bool {
        true
    }

    open spec fn from_spec(s: &'a str) -> Language {
        language_named(lower_of(s@))
    }
}

/// The text of a message key in `lang`, if the catalog has one.
pub open spec fn catalog_text(lang: Language, key: Seq<char>) -> Option<Seq<char>> {
    match lang {
        Language::English => english_text(key),
        Language::Chinese => chinese_text(key),
    }
}

/// The message for `key` in `lang`: its catalog text, or the key itself when there is none.
pub open spec fn message_text(lang: Language, key: Seq<char>) -> Seq<char> {
    match catalog_text(lang, key) {
        Some(t) => t,
        None => key,
    }
}

/// The placeholder for argument `i`: `{i}`.
pub open spec fn indexed_placeholder(i: nat) -> Seq<char> {
    seq!['{'] + decimal(i) + seq!['}']
}

/// One step of filling a template with argument `i`: every `{i}` becomes `arg`, then the
/// first `{}` left, if any, does too.
pub open spec fn fill_step(s: Seq<char>, i: nat, arg: Seq<char>) -> Seq<char> {
    let s1 = replace_all(s, indexed_placeholder(i), arg);
    if has_infix("{}"@, s1) {
        replace_first(s1, "{}"@, arg)
    } else {
        s1
    }
}

/// A template filled with `args[i..]`, one argument after another.
pub open spec fn fill_from(s: Seq<char>, args: Seq<Seq<char>>, i: nat) -> Seq<char>
    decreases args.len() - i,
{
    if i >= args.len() {
        s
    } else {
        fill_from(fill_step(s, i, args[i as int]), args, i + 1)
    }
}

/// The message for `key` in `lang`.
pub fn t(lang: Language, key: &str) -> (r: String)
    ensures
        r@ == message_text(lang, key@),
{
    let found = match lang {
        Language::English => english_lookup(key),
        Language::Chinese => chinese_lookup(key),
    };
    match found {
        Some(text) => String::from_str(text),
        None => String::from_str(key),
    }
}

/// The placeholder for argument `i`.
fn placeholder(i: u64) -> (r: String)
    ensures
        r@ == indexed_placeholder(i as nat),
{
    proof {
        reveal_strlit("{");
        reveal_strlit("}");
    }
    let mut r = String::from_str("{");
    let n = decimal_string(i);
    r.append(n.as_str());
    r.append("}");
    r
}

/// The message for `key` in `lang`, filled with `args`: argument `i` replaces every `{i}`,
/// and then the first remaining `{}`.
pub fn t_format(lang: Language, key: &str, args: &[&str]) -> (r: String)
    ensures
        r@ == fill_from(message_text(lang, key@), args@.map_values(|a: &str| a@), 0),
{
    let ghost views = args@.map_values(|a: &str| a@);
    let mut result = t(lang, key);
    let mut i: usize = 0;
    while i < args.len()
        invariant
            i <= args@.len(),
            views == args@.map_values(|a: &str| a@),
            fill_from(message_text(lang, key@), views, 0) == fill_from(result@, views, i as nat),
        decreases args@.len() - i,
    {
        proof {
            reveal_strlit("{}");
        }
        let arg = args[i];
        let p = placeholder(i as u64);
        let replaced = replace_text(result.as_str(), p.as_str(), arg, false);
        let next = if contains(replaced.as_str(), "{}") {
            replace_text(replaced.as_str(), "{}", arg, true)
        } else {
            replaced
        };
        proof {
            assert(views[i as int] == arg@);
            assert(next@ == fill_step(result@, i as nat, views[i as int]));
        }
        result = next;
        i = i + 1;
    }
    result
}

/// The English text of a message key, if it has one.
pub open spec fn english_text(key: Seq<char>) -> Option<Seq<char>> {
    if key == "trial_ended"@ {
        Some("Trial period has ended, please subscribe to continue using"@)
    } else if key == "init_failed"@ {
        Some("Initialization failed: {}"@)
    } else if key == "organize_failed"@ {
        Some("File organization failed: {}"@)
    } else if key == "monitoring_start_failed"@ {
        Some("Failed to start monitoring: {}"@)
    } else if key == "load_config_failed"@ {
        Some("Failed to load configuration: {}"@)
    } else if key == "save_config_failed"@ {
        Some("Failed to save configuration: {}"@)
    } else if key == "folder_selection_cancelled"@ {
        Some("Folder selection cancelled or failed"@)
    } else if key == "downloads_folder_not_found"@ {
        Some("Could not find default downloads folder"@)
    } else if key == "config_saved"@ {
        Some("Configuration saved successfully"@)
    } else if key == "files_organized"@ {
        Some("Successfully organized {0} files"@)
    } else if key == "monitoring_stopped_title"@ {
        Some("File Monitoring Stopped"@)
    } else if key == "monitoring_stopped_body"@ {
        Some("Automatic file classification monitoring has stopped"@)
    } else if key == "monitoring_started_title"@ {
        Some("File Monitoring Started"@)
    } else if key == "monitoring_started_body"@ {
        Some("Monitoring folder: {}"@)
    } else if key == "enable_autostart_failed"@ {
        Some("Failed to enable auto start: {}"@)
    } else if key == "disable_autostart_failed"@ {
        Some("Failed to disable auto start: {}"@)
    } else if key == "settings_saved"@ {
        Some("General settings saved successfully"@)
    } else if key == "save_settings_failed"@ {
        Some("Failed to save general settings: {}"@)
    } else if key == "setting_updated"@ {
        Some("Setting {} updated successfully"@)
    } else if key == "show_window"@ {
        Some("Show Window"@)
    } else if key == "hide_window"@ {
        Some("Hide Window"@)
    } else if key == "quit"@ {
        Some("Quit"@)
    } else if key == "fetch_packages_failed"@ {
        Some("Failed to fetch packages: {}"@)
    } else if key == "payment_disabled"@ {
        Some("This feature is disabled, please use Creem payment"@)
    } else if key == "apple_purchase_init_failed"@ {
        Some("Failed to initialize StoreKit: {}"@)
    } else if key == "apple_purchase_start_failed"@ {
        Some("Failed to start purchase: {}"@)
    } else if key == "apple_purchase_started"@ {
        Some("App Store purchase process started"@)
    } else if key == "apple_purchase_macos_only"@ {
        Some("App Store purchases are only available on macOS"@)
    } else if key == "apple_receipt_verify_success"@ {
        Some("Your Apple subscription has been successfully verified!"@)
    } else if key == "apple_receipt_verify_success_title"@ {
        Some("Subscription Verification Successful"@)
    } else if key == "apple_receipt_verify_failed"@ {
        Some("Failed to verify Apple receipt: {}"@)
    } else if key == "main_window_not_found"@ {
        Some("Main window not found"@)
    } else if key == "config_file_description"@ {
        Some("File auto-classification tool configuration file"@)
    } else if key == "category_images"@ {
        Some("Images"@)
    } else if key == "category_documents"@ {
        Some("Documents"@)
    } else if key == "category_spreadsheets"@ {
        Some("Spreadsheets"@)
    } else if key == "category_presentations"@ {
        Some("Presentations"@)
    } else if key == "category_audio"@ {
        Some("Audio"@)
    } else if key == "category_video"@ {
        Some("Video"@)
    } else if key == "category_archives"@ {
        Some("Archives"@)
    } else if key == "category_programs"@ {
        Some("Programs"@)
    } else if key == "category_code"@ {
        Some("Code"@)
    } else if key == "category_fonts"@ {
        Some("Fonts"@)
    } else if key == "invalid_subscription_plan"@ {
        Some("Invalid subscription plan"@)
    } else if key == "purchase_success_title"@ {
        Some("Purchase Successful"@)
    } else if key == "purchase_success_body"@ {
        Some("Thank you for purchasing FileSortify! You can now use all features without restrictions."@)
    } else if key == "purchase_activation_success"@ {
        Some("Purchase activated successfully"@)
    } else if key == "purchase_activation_failed"@ {
        Some("Failed to activate purchase: {}"@)
    } else if key == "subscription_cancelled_title"@ {
        Some("Subscription Cancelled"@)
    } else if key == "subscription_cancelled_body"@ {
        Some("Your subscription has been successfully cancelled"@)
    } else if key == "subscription_cancelled"@ {
        Some("Subscription cancelled"@)
    } else if key == "cancel_subscription_failed"@ {
        Some("Failed to cancel subscription: {}"@)
    } else if key == "apple_receipt_verify_failed_format"@ {
        Some("Failed to verify Apple receipt: {}"@)
    } else if key == "subscription_status_refreshed"@ {
        Some("Subscription status refreshed"@)
    } else if key == "refresh_subscription_failed"@ {
        Some("Failed to refresh subscription status: {}"@)
    } else if key == "apple_purchase_macos_only_format"@ {
        Some("App Store purchases are only available on macOS"@)
    } else if key == "storekit_init_failed"@ {
        Some("Failed to initialize StoreKit: {}"@)
    } else if key == "restore_purchases_failed"@ {
        Some("Failed to restore purchases: {}"@)
    } else if key == "purchase_restore_started"@ {
        Some("Purchase restoration process started"@)
    } else if key == "receipt_data_failed"@ {
        Some("Failed to get receipt data: {}"@)
    } else if key == "receipt_macos_only"@ {
        Some("App Store receipts are only available on macOS"@)
    } else if key == "create_payment_session_failed"@ {
        Some("Failed to create payment session: {}"@)
    } else if key == "check_payment_status_failed"@ {
        Some("Failed to check payment status: {}"@)
    } else if key == "open_payment_page_failed"@ {
        Some("Failed to open payment page: {}"@)
    } else if key == "webhook_url_updated"@ {
        Some("Webhook server URL updated"@)
    } else if key == "update_url_failed"@ {
        Some("Failed to update URL: {}"@)
    } else if key == "app_minimized_title"@ {
        Some("File Sortify"@)
    } else if key == "app_minimized_body"@ {
        Some("Application minimized to system tray"@)
    } else if key == "updater_started"@ {
        Some("Update scheduler started, check interval: {} hours"@)
    } else if key == "organized_folder_name"@ {
        Some("Organized Files"@)
    } else if key == "skip_unmatched_file"@ {
        Some("Skip unmatched file: {} (left in place)"@)
    } else if key == "organize_complete_moved_count"@ {
        Some("Organization complete, moved {} files"@)
    } else if key == "monitor_stop_signal_received"@ {
        Some("Received stop monitoring signal, exiting monitor thread"@)
    } else if key == "file_create_event_detected"@ {
        Some("File create event detected, count: {}"@)
    } else if key == "file_recently_processed_skip"@ {
        Some("File {:?} processed {:?} ago, skipping"@)
    } else if key == "start_processing_file"@ {
        Some("Start processing file: {:?}"@)
    } else if key == "new_file_categorized"@ {
        Some("New file categorized: {} -> {}"@)
    } else if key == "move_file_failed"@ {
        Some("Failed to move file: {:?}"@)
    } else if key == "new_file_unmatched"@ {
        Some("New file unmatched, left in place: {:?}"@)
    } else if key == "event_process_error"@ {
        Some("Event processing error: {:?}"@)
    } else if key == "monitor_error"@ {
        Some("Monitor error: {:?}"@)
    } else if key == "monitor_started"@ {
        Some("File monitoring started"@)
    } else if key == "monitor_stop_signal_sent"@ {
        Some("Stop monitoring signal sent"@)
    } else if key == "join_monitor_thread_error"@ {
        Some("Error while joining monitor thread: {:?}"@)
    } else if key == "monitor_stopped"@ {
        Some("File monitoring stopped"@)
    } else if key == "move_file_success"@ {
        Some("Moved file: {} -> {}"@)
    } else if key == "update_scheduler_config_success"@ {
        Some("Update scheduler config saved successfully"@)
    } else if key == "update_scheduler_config_failed"@ {
        Some("Failed to save update scheduler config: {}"@)
    } else if key == "create_folder"@ {
        Some("Create folder: {}"@)
    } else if key == "file_modify_event_detected"@ {
        Some("File modify event detected, count: {}"@)
    } else if key == "file_other_event_detected"@ {
        Some("File other event detected, count: {}"@)
    } else if key == "undo_action_success"@ {
        Some("Undo successful: {} moved back to original location"@)
    } else if key == "undo_history_cleared"@ {
        Some("Undo history cleared"@)
    } else if key == "undo_success_title"@ {
        Some("Undo Successful"@)
    } else if key == "undo_failed"@ {
        Some("Undo failed: {}"@)
    } else if key == "no_monitoring_for_path"@ {
        Some("No active monitoring for this path"@)
    } else {
        None
    }
}

/// The Chinese text of a message key, if it has one.
pub open spec fn chinese_text(key: Seq<char>) -> Option<Seq<char>> {
    if key == "trial_ended"@ {
        Some("试用期已结束，请订阅后继续使用"@)
    } else if key == "init_failed"@ {
        Some("初始化失败: {}"@)
    } else if key == "organize_failed"@ {
        Some("整理文件失败: {}"@)
    } else if key == "monitoring_start_failed"@ {
        Some("启动监控失败: {}"@)
    } else if key == "load_config_failed"@ {
        Some("加载配置失败: {}"@)
    } else if key == "save_config_failed"@ {
        Some("保存配置失败: {}"@)
    } else if key == "folder_selection_cancelled"@ {
        Some("文件夹选择已取消或失败"@)
    } else if key == "downloads_folder_not_found"@ {
        Some("无法找到默认下载文件夹"@)
    } else if key == "config_saved"@ {
        Some("配置保存成功"@)
    } else if key == "files_organized"@ {
        Some("成功整理了 {0} 个文件"@)
    } else if key == "enable_autostart_failed"@ {
        Some("启用开机启动失败: {}"@)
    } else if key == "disable_autostart_failed"@ {
        Some("禁用开机启动失败: {}"@)
    } else if key == "settings_saved"@ {
        Some("通用设置保存成功"@)
    } else if key == "save_settings_failed"@ {
        Some("保存通用设置失败: {}"@)
    } else if key == "setting_updated"@ {
        Some("设置 {} 更新成功"@)
    } else if key == "show_window"@ {
        Some("显示窗口"@)
    } else if key == "hide_window"@ {
        Some("隐藏窗口"@)
    } else if key == "quit"@ {
        Some("退出"@)
    } else if key == "fetch_packages_failed"@ {
        Some("获取套餐信息失败: {}"@)
    } else if key == "payment_disabled"@ {
        Some("此功能已禁用，请使用 Creem 支付"@)
    } else if key == "apple_purchase_init_failed"@ {
        Some("初始化StoreKit失败: {}"@)
    } else if key == "apple_purchase_start_failed"@ {
        Some("启动购买失败: {}"@)
    } else if key == "apple_purchase_started"@ {
        Some("已启动App Store购买流程"@)
    } else if key == "apple_purchase_macos_only"@ {
        Some("App Store内购仅在macOS上可用"@)
    } else if key == "apple_receipt_verify_success"@ {
        Some("您的Apple订阅已成功验证！"@)
    } else if key == "apple_receipt_verify_success_title"@ {
        Some("订阅验证成功"@)
    } else if key == "apple_receipt_verify_failed"@ {
        Some("验证Apple收据失败: {}"@)
    } else if key == "main_window_not_found"@ {
        Some("找不到主窗口"@)
    } else if key == "config_file_description"@ {
        Some("文件自动分类工具配置文件"@)
    } else if key == "category_images"@ {
        Some("图片"@)
    } else if key == "category_documents"@ {
        Some("文档"@)
    } else if key == "category_spreadsheets"@ {
        Some("表格"@)
    } else if key == "category_presentations"@ {
        Some("演示"@)
    } else if key == "category_audio"@ {
        Some("音频"@)
    } else if key == "category_video"@ {
        Some("视频"@)
    } else if key == "category_archives"@ {
        Some("压缩包"@)
    } else if key == "category_programs"@ {
        Some("程序"@)
    } else if key == "category_code"@ {
        Some("代码"@)
    } else if key == "category_fonts"@ {
        Some("字体"@)
    } else if key == "monitoring_stopped_title"@ {
        Some("文件监控已停止"@)
    } else if key == "monitoring_stopped_body"@ {
        Some("文件自动分类监控已停止"@)
    } else if key == "monitoring_started_title"@ {
        Some("文件监控已启动"@)
    } else if key == "monitoring_started_body"@ {
        Some("正在监控文件夹: {}"@)
    } else if key == "invalid_subscription_plan"@ {
        Some("无效的订阅计划"@)
    } else if key == "purchase_success_title"@ {
        Some("购买成功"@)
    } else if key == "purchase_success_body"@ {
        Some("感谢您购买 FileSortify！现在可以无限制使用所有功能。"@)
    } else if key == "purchase_activation_success"@ {
        Some("购买激活成功"@)
    } else if key == "purchase_activation_failed"@ {
        Some("激活购买失败: {}"@)
    } else if key == "subscription_cancelled_title"@ {
        Some("订阅已取消"@)
    } else if key == "subscription_cancelled_body"@ {
        Some("您的订阅已成功取消"@)
    } else if key == "subscription_cancelled"@ {
        Some("订阅已取消"@)
    } else if key == "cancel_subscription_failed"@ {
        Some("取消订阅失败: {}"@)
    } else if key == "apple_receipt_verify_failed_format"@ {
        Some("验证Apple收据失败: {}"@)
    } else if key == "subscription_status_refreshed"@ {
        Some("订阅状态已刷新"@)
    } else if key == "refresh_subscription_failed"@ {
        Some("刷新订阅状态失败: {}"@)
    } else if key == "apple_purchase_macos_only_format"@ {
        Some("App Store内购仅在macOS上可用"@)
    } else if key == "storekit_init_failed"@ {
        Some("初始化StoreKit失败: {}"@)
    } else if key == "restore_purchases_failed"@ {
        Some("恢复购买失败: {}"@)
    } else if key == "purchase_restore_started"@ {
        Some("已启动购买恢复流程"@)
    } else if key == "receipt_data_failed"@ {
        Some("获取收据失败: {}"@)
    } else if key == "receipt_macos_only"@ {
        Some("App Store收据仅在macOS上可用"@)
    } else if key == "create_payment_session_failed"@ {
        Some("创建支付会话失败: {}"@)
    } else if key == "check_payment_status_failed"@ {
        Some("检查支付状态失败: {}"@)
    } else if key == "open_payment_page_failed"@ {
        Some("打开支付页面失败: {}"@)
    } else if key == "webhook_url_updated"@ {
        Some("Webhook 服务器 URL 已更新"@)
    } else if key == "update_url_failed"@ {
        Some("更新 URL 失败: {}"@)
    } else if key == "app_minimized_title"@ {
        Some("File Sortify"@)
    } else if key == "app_minimized_body"@ {
        Some("应用已最小化到系统托盘"@)
    } else if key == "updater_started"@ {
        Some("启动更新调度器，检查间隔: {} 小时"@)
    } else if key == "organized_folder_name"@ {
        Some("已分类文件"@)
    } else if key == "skip_unmatched_file"@ {
        Some("跳过未匹配文件: {} (保持在原地)"@)
    } else if key == "organize_complete_moved_count"@ {
        Some("整理完成，共移动 {} 个文件"@)
    } else if key == "monitor_stop_signal_received"@ {
        Some("收到停止监控信号，退出监控线程"@)
    } else if key == "file_create_event_detected"@ {
        Some("检测到文件创建事件，文件数量: {}"@)
    } else if key == "file_recently_processed_skip"@ {
        Some("文件 {:?} 在 {:?} 前已处理过，跳过"@)
    } else if key == "start_processing_file"@ {
        Some("开始处理文件: {:?}"@)
    } else if key == "new_file_categorized"@ {
        Some("新文件已分类: {} -> {}"@)
    } else if key == "move_file_failed"@ {
        Some("移动文件失败: {:?}"@)
    } else if key == "new_file_unmatched"@ {
        Some("新文件未匹配分类，保持在原地: {:?}"@)
    } else if key == "event_process_error"@ {
        Some("事件处理错误: {:?}"@)
    } else if key == "monitor_error"@ {
        Some("监控错误: {:?}"@)
    } else if key == "monitor_started"@ {
        Some("文件监控已启动"@)
    } else if key == "monitor_stop_signal_sent"@ {
        Some("已发送停止监控信号"@)
    } else if key == "join_monitor_thread_error"@ {
        Some("加入监控线程时出错: {:?}"@)
    } else if key == "monitor_stopped"@ {
        Some("文件监控已停止"@)
    } else if key == "move_file_success"@ {
        Some("移动文件: {} -> {}"@)
    } else if key == "update_scheduler_config_success"@ {
        Some("更新调度器配置保存成功"@)
    } else if key == "update_scheduler_config_failed"@ {
        Some("保存更新调度器配置失败: {}"@)
    } else if key == "create_folder"@ {
        Some("创建文件夹: {}"@)
    } else if key == "file_modify_event_detected"@ {
        Some("检测到文件修改事件，文件数量: {}"@)
    } else if key == "file_other_event_detected"@ {
        Some("检测到其他文件事件，文件数量: {}"@)
    } else if key == "undo_action_success"@ {
        Some("撤销成功：{} 已移回原位置"@)
    } else if key == "undo_history_cleared"@ {
        Some("撤销历史已清空"@)
    } else if key == "undo_success_title"@ {
        Some("撤销成功"@)
    } else if key == "undo_failed"@ {
        Some("撤销失败：{}"@)
    } else if key == "no_monitoring_for_path"@ {
        Some("该路径未启动监控"@)
    } else {
        None
    }
}

/// The English text of `key`, if it has one.
fn english_lookup(key: &str) -> (r: Option<&'static str>)
    ensures
        match r {
            Some(t) => english_text(key@) == Some(t@),
            None => english_text(key@) is None,
        },
{
    if text_eq(key, "trial_ended") {
        Some("Trial period has ended, please subscribe to continue using")
    } else if text_eq(key, "init_failed") {
        Some("Initialization failed: {}")
    } else if text_eq(key, "organize_failed") {
        Some("File organization failed: {}")
    } else if text_eq(key, "monitoring_start_failed") {
        Some("Failed to start monitoring: {}")
    } else if text_eq(key, "load_config_failed") {
        Some("Failed to load configuration: {}")
    } else if text_eq(key, "save_config_failed") {
        Some("Failed to save configuration: {}")
    } else if text_eq(key, "folder_selection_cancelled") {
        Some("Folder selection cancelled or failed")
    } else if text_eq(key, "downloads_folder_not_found") {
        Some("Could not find default downloads folder")
    } else if text_eq(key, "config_saved") {
        Some("Configuration saved successfully")
    } else if text_eq(key, "files_organized") {
        Some("Successfully organized {0} files")
    } else if text_eq(key, "monitoring_stopped_title") {
        Some("File Monitoring Stopped")
    } else if text_eq(key, "monitoring_stopped_body") {
        Some("Automatic file classification monitoring has stopped")
    } else if text_eq(key, "monitoring_started_title") {
        Some("File Monitoring Started")
    } else if text_eq(key, "monitoring_started_body") {
        Some("Monitoring folder: {}")
    } else if text_eq(key, "enable_autostart_failed") {
        Some("Failed to enable auto start: {}")
    } else if text_eq(key, "disable_autostart_failed") {
        Some("Failed to disable auto start: {}")
    } else if text_eq(key, "settings_saved") {
        Some("General settings saved successfully")
    } else if text_eq(key, "save_settings_failed") {
        Some("Failed to save general settings: {}")
    } else if text_eq(key, "setting_updated") {
        Some("Setting {} updated successfully")
    } else if text_eq(key, "show_window") {
        Some("Show Window")
    } else if text_eq(key, "hide_window") {
        Some("Hide Window")
    } else if text_eq(key, "quit") {
        Some("Quit")
    } else if text_eq(key, "fetch_packages_failed") {
        Some("Failed to fetch packages: {}")
    } else if text_eq(key, "payment_disabled") {
        Some("This feature is disabled, please use Creem payment")
    } else if text_eq(key, "apple_purchase_init_failed") {
        Some("Failed to initialize StoreKit: {}")
    } else if text_eq(key, "apple_purchase_start_failed") {
        Some("Failed to start purchase: {}")
    } else if text_eq(key, "apple_purchase_started") {
        Some("App Store purchase process started")
    } else if text_eq(key, "apple_purchase_macos_only") {
        Some("App Store purchases are only available on macOS")
    } else if text_eq(key, "apple_receipt_verify_success") {
        Some("Your Apple subscription has been successfully verified!")
    } else if text_eq(key, "apple_receipt_verify_success_title") {
        Some("Subscription Verification Successful")
    } else if text_eq(key, "apple_receipt_verify_failed") {
        Some("Failed to verify Apple receipt: {}")
    } else if text_eq(key, "main_window_not_found") {
        Some("Main window not found")
    } else if text_eq(key, "config_file_description") {
        Some("File auto-classification tool configuration file")
    } else if text_eq(key, "category_images") {
        Some("Images")
    } else if text_eq(key, "category_documents") {
        Some("Documents")
    } else if text_eq(key, "category_spreadsheets") {
        Some("Spreadsheets")
    } else if text_eq(key, "category_presentations") {
        Some("Presentations")
    } else if text_eq(key, "category_audio") {
        Some("Audio")
    } else if text_eq(key, "category_video") {
        Some("Video")
    } else if text_eq(key, "category_archives") {
        Some("Archives")
    } else if text_eq(key, "category_programs") {
        Some("Programs")
    } else if text_eq(key, "category_code") {
        Some("Code")
    } else if text_eq(key, "category_fonts") {
        Some("Fonts")
    } else if text_eq(key, "invalid_subscription_plan") {
        Some("Invalid subscription plan")
    } else if text_eq(key, "purchase_success_title") {
        Some("Purchase Successful")
    } else if text_eq(key, "purchase_success_body") {
        Some("Thank you for purchasing FileSortify! You can now use all features without restrictions.")
    } else if text_eq(key, "purchase_activation_success") {
        Some("Purchase activated successfully")
    } else if text_eq(key, "purchase_activation_failed") {
        Some("Failed to activate purchase: {}")
    } else if text_eq(key, "subscription_cancelled_title") {
        Some("Subscription Cancelled")
    } else if text_eq(key, "subscription_cancelled_body") {
        Some("Your subscription has been successfully cancelled")
    } else if text_eq(key, "subscription_cancelled") {
        Some("Subscription cancelled")
    } else if text_eq(key, "cancel_subscription_failed") {
        Some("Failed to cancel subscription: {}")
    } else if text_eq(key, "apple_receipt_verify_failed_format") {
        Some("Failed to verify Apple receipt: {}")
    } else if text_eq(key, "subscription_status_refreshed") {
        Some("Subscription status refreshed")
    } else if text_eq(key, "refresh_subscription_failed") {
        Some("Failed to refresh subscription status: {}")
    } else if text_eq(key, "apple_purchase_macos_only_format") {
        Some("App Store purchases are only available on macOS")
    } else if text_eq(key, "storekit_init_failed") {
        Some("Failed to initialize StoreKit: {}")
    } else if text_eq(key, "restore_purchases_failed") {
        Some("Failed to restore purchases: {}")
    } else if text_eq(key, "purchase_restore_started") {
        Some("Purchase restoration process started")
    } else if text_eq(key, "receipt_data_failed") {
        Some("Failed to get receipt data: {}")
    } else if text_eq(key, "receipt_macos_only") {
        Some("App Store receipts are only available on macOS")
    } else if text_eq(key, "create_payment_session_failed") {
        Some("Failed to create payment session: {}")
    } else if text_eq(key, "check_payment_status_failed") {
        Some("Failed to check payment status: {}")
    } else if text_eq(key, "open_payment_page_failed") {
        Some("Failed to open payment page: {}")
    } else if text_eq(key, "webhook_url_updated") {
        Some("Webhook server URL updated")
    } else if text_eq(key, "update_url_failed") {
        Some("Failed to update URL: {}")
    } else if text_eq(key, "app_minimized_title") {
        Some("File Sortify")
    } else if text_eq(key, "app_minimized_body") {
        Some("Application minimized to system tray")
    } else if text_eq(key, "updater_started") {
        Some("Update scheduler started, check interval: {} hours")
    } else if text_eq(key, "organized_folder_name") {
        Some("Organized Files")
    } else if text_eq(key, "skip_unmatched_file") {
        Some("Skip unmatched file: {} (left in place)")
    } else if text_eq(key, "organize_complete_moved_count") {
        Some("Organization complete, moved {} files")
    } else if text_eq(key, "monitor_stop_signal_received") {
        Some("Received stop monitoring signal, exiting monitor thread")
    } else if text_eq(key, "file_create_event_detected") {
        Some("File create event detected, count: {}")
    } else if text_eq(key, "file_recently_processed_skip") {
        Some("File {:?} processed {:?} ago, skipping")
    } else if text_eq(key, "start_processing_file") {
        Some("Start processing file: {:?}")
    } else if text_eq(key, "new_file_categorized") {
        Some("New file categorized: {} -> {}")
    } else if text_eq(key, "move_file_failed") {
        Some("Failed to move file: {:?}")
    } else if text_eq(key, "new_file_unmatched") {
        Some("New file unmatched, left in place: {:?}")
    } else if text_eq(key, "event_process_error") {
        Some("Event processing error: {:?}")
    } else if text_eq(key, "monitor_error") {
        Some("Monitor error: {:?}")
    } else if text_eq(key, "monitor_started") {
        Some("File monitoring started")
    } else if text_eq(key, "monitor_stop_signal_sent") {
        Some("Stop monitoring signal sent")
    } else if text_eq(key, "join_monitor_thread_error") {
        Some("Error while joining monitor thread: {:?}")
    } else if text_eq(key, "monitor_stopped") {
        Some("File monitoring stopped")
    } else if text_eq(key, "move_file_success") {
        Some("Moved file: {} -> {}")
    } else if text_eq(key, "update_scheduler_config_success") {
        Some("Update scheduler config saved successfully")
    } else if text_eq(key, "update_scheduler_config_failed") {
        Some("Failed to save update scheduler config: {}")
    } else if text_eq(key, "create_folder") {
        Some("Create folder: {}")
    } else if text_eq(key, "file_modify_event_detected") {
        Some("File modify event detected, count: {}")
    } else if text_eq(key, "file_other_event_detected") {
        Some("File other event detected, count: {}")
    } else if text_eq(key, "undo_action_success") {
        Some("Undo successful: {} moved back to original location")
    } else if text_eq(key, "undo_history_cleared") {
        Some("Undo history cleared")
    } else if text_eq(key, "undo_success_title") {
        Some("Undo Successful")
    } else if text_eq(key, "undo_failed") {
        Some("Undo failed: {}")
    } else if text_eq(key, "no_monitoring_for_path") {
        Some("No active monitoring for this path")
    } else {
        None
    }
}

/// The Chinese text of `key`, if it has one.
fn chinese_lookup(key: &str) -> (r: Option<&'static str>)
    ensures
        match r {
            Some(t) => chinese_text(key@) == Some(t@),
            None => chinese_text(key@) is None,
        },
{
    if text_eq(key, "trial_ended") {
        Some("试用期已结束，请订阅后继续使用")
    } else if text_eq(key, "init_failed") {
        Some("初始化失败: {}")
    } else if text_eq(key, "organize_failed") {
        Some("整理文件失败: {}")
    } else if text_eq(key, "monitoring_start_failed") {
        Some("启动监控失败: {}")
    } else if text_eq(key, "load_config_failed") {
        Some("加载配置失败: {}")
    } else if text_eq(key, "save_config_failed") {
        Some("保存配置失败: {}")
    } else if text_eq(key, "folder_selection_cancelled") {
        Some("文件夹选择已取消或失败")
    } else if text_eq(key, "downloads_folder_not_found") {
        Some("无法找到默认下载文件夹")
    } else if text_eq(key, "config_saved") {
        Some("配置保存成功")
    } else if text_eq(key, "files_organized") {
        Some("成功整理了 {0} 个文件")
    } else if text_eq(key, "enable_autostart_failed") {
        Some("启用开机启动失败: {}")
    } else if text_eq(key, "disable_autostart_failed") {
        Some("禁用开机启动失败: {}")
    } else if text_eq(key, "settings_saved") {
        Some("通用设置保存成功")
    } else if text_eq(key, "save_settings_failed") {
        Some("保存通用设置失败: {}")
    } else if text_eq(key, "setting_updated") {
        Some("设置 {} 更新成功")
    } else if text_eq(key, "show_window") {
        Some("显示窗口")
    } else if text_eq(key, "hide_window") {
        Some("隐藏窗口")
    } else if text_eq(key, "quit") {
        Some("退出")
    } else if text_eq(key, "fetch_packages_failed") {
        Some("获取套餐信息失败: {}")
    } else if text_eq(key, "payment_disabled") {
        Some("此功能已禁用，请使用 Creem 支付")
    } else if text_eq(key, "apple_purchase_init_failed") {
        Some("初始化StoreKit失败: {}")
    } else if text_eq(key, "apple_purchase_start_failed") {
        Some("启动购买失败: {}")
    } else if text_eq(key, "apple_purchase_started") {
        Some("已启动App Store购买流程")
    } else if text_eq(key, "apple_purchase_macos_only") {
        Some("App Store内购仅在macOS上可用")
    } else if text_eq(key, "apple_receipt_verify_success") {
        Some("您的Apple订阅已成功验证！")
    } else if text_eq(key, "apple_receipt_verify_success_title") {
        Some("订阅验证成功")
    } else if text_eq(key, "apple_receipt_verify_failed") {
        Some("验证Apple收据失败: {}")
    } else if text_eq(key, "main_window_not_found") {
        Some("找不到主窗口")
    } else if text_eq(key, "config_file_description") {
        Some("文件自动分类工具配置文件")
    } else if text_eq(key, "category_images") {
        Some("图片")
    } else if text_eq(key, "category_documents") {
        Some("文档")
    } else if text_eq(key, "category_spreadsheets") {
        Some("表格")
    } else if text_eq(key, "category_presentations") {
        Some("演示")
    } else if text_eq(key, "category_audio") {
        Some("音频")
    } else if text_eq(key, "category_video") {
        Some("视频")
    } else if text_eq(key, "category_archives") {
        Some("压缩包")
    } else if text_eq(key, "category_programs") {
        Some("程序")
    } else if text_eq(key, "category_code") {
        Some("代码")
    } else if text_eq(key, "category_fonts") {
        Some("字体")
    } else if text_eq(key, "monitoring_stopped_title") {
        Some("文件监控已停止")
    } else if text_eq(key, "monitoring_stopped_body") {
        Some("文件自动分类监控已停止")
    } else if text_eq(key, "monitoring_started_title") {
        Some("文件监控已启动")
    } else if text_eq(key, "monitoring_started_body") {
        Some("正在监控文件夹: {}")
    } else if text_eq(key, "invalid_subscription_plan") {
        Some("无效的订阅计划")
    } else if text_eq(key, "purchase_success_title") {
        Some("购买成功")
    } else if text_eq(key, "purchase_success_body") {
        Some("感谢您购买 FileSortify！现在可以无限制使用所有功能。")
    } else if text_eq(key, "purchase_activation_success") {
        Some("购买激活成功")
    } else if text_eq(key, "purchase_activation_failed") {
        Some("激活购买失败: {}")
    } else if text_eq(key, "subscription_cancelled_title") {
        Some("订阅已取消")
    } else if text_eq(key, "subscription_cancelled_body") {
        Some("您的订阅已成功取消")
    } else if text_eq(key, "subscription_cancelled") {
        Some("订阅已取消")
    } else if text_eq(key, "cancel_subscription_failed") {
        Some("取消订阅失败: {}")
    } else if text_eq(key, "apple_receipt_verify_failed_format") {
        Some("验证Apple收据失败: {}")
    } else if text_eq(key, "subscription_status_refreshed") {
        Some("订阅状态已刷新")
    } else if text_eq(key, "refresh_subscription_failed") {
        Some("刷新订阅状态失败: {}")
    } else if text_eq(key, "apple_purchase_macos_only_format") {
        Some("App Store内购仅在macOS上可用")
    } else if text_eq(key, "storekit_init_failed") {
        Some("初始化StoreKit失败: {}")
    } else if text_eq(key, "restore_purchases_failed") {
        Some("恢复购买失败: {}")
    } else if text_eq(key, "purchase_restore_started") {
        Some("已启动购买恢复流程")
    } else if text_eq(key, "receipt_data_failed") {
        Some("获取收据失败: {}")
    } else if text_eq(key, "receipt_macos_only") {
        Some("App Store收据仅在macOS上可用")
    } else if text_eq(key, "create_payment_session_failed") {
        Some("创建支付会话失败: {}")
    } else if text_eq(key, "check_payment_status_failed") {
        Some("检查支付状态失败: {}")
    } else if text_eq(key, "open_payment_page_failed") {
        Some("打开支付页面失败: {}")
    } else if text_eq(key, "webhook_url_updated") {
        Some("Webhook 服务器 URL 已更新")
    } else if text_eq(key, "update_url_failed") {
        Some("更新 URL 失败: {}")
    } else if text_eq(key, "app_minimized_title") {
        Some("File Sortify")
    } else if text_eq(key, "app_minimized_body") {
        Some("应用已最小化到系统托盘")
    } else if text_eq(key, "updater_started") {
        Some("启动更新调度器，检查间隔: {} 小时")
    } else if text_eq(key, "organized_folder_name") {
        Some("已分类文件")
    } else if text_eq(key, "skip_unmatched_file") {
        Some("跳过未匹配文件: {} (保持在原地)")
    } else if text_eq(key, "organize_complete_moved_count") {
        Some("整理完成，共移动 {} 个文件")
    } else if text_eq(key, "monitor_stop_signal_received") {
        Some("收到停止监控信号，退出监控线程")
    } else if text_eq(key, "file_create_event_detected") {
        Some("检测到文件创建事件，文件数量: {}")
    } else if text_eq(key, "file_recently_processed_skip") {
        Some("文件 {:?} 在 {:?} 前已处理过，跳过")
    } else if text_eq(key, "start_processing_file") {
        Some("开始处理文件: {:?}")
    } else if text_eq(key, "new_file_categorized") {
        Some("新文件已分类: {} -> {}")
    } else if text_eq(key, "move_file_failed") {
        Some("移动文件失败: {:?}")
    } else if text_eq(key, "new_file_unmatched") {
        Some("新文件未匹配分类，保持在原地: {:?}")
    } else if text_eq(key, "event_process_error") {
        Some("事件处理错误: {:?}")
    } else if text_eq(key, "monitor_error") {
        Some("监控错误: {:?}")
    } else if text_eq(key, "monitor_started") {
        Some("文件监控已启动")
    } else if text_eq(key, "monitor_stop_signal_sent") {
        Some("已发送停止监控信号")
    } else if text_eq(key, "join_monitor_thread_error") {
        Some("加入监控线程时出错: {:?}")
    } else if text_eq(key, "monitor_stopped") {
        Some("文件监控已停止")
    } else if text_eq(key, "move_file_success") {
        Some("移动文件: {} -> {}")
    } else if text_eq(key, "update_scheduler_config_success") {
        Some("更新调度器配置保存成功")
    } else if text_eq(key, "update_scheduler_config_failed") {
        Some("保存更新调度器配置失败: {}")
    } else if text_eq(key, "create_folder") {
        Some("创建文件夹: {}")
    } else if text_eq(key, "file_modify_event_detected") {
        Some("检测到文件修改事件，文件数量: {}")
    } else if text_eq(key, "file_other_event_detected") {
        Some("检测到其他文件事件，文件数量: {}")
    } else if text_eq(key, "undo_action_success") {
        Some("撤销成功：{} 已移回原位置")
    } else if text_eq(key, "undo_history_cleared") {
        Some("撤销历史已清空")
    } else if text_eq(key, "undo_success_title") {
        Some("撤销成功")
    } else if text_eq(key, "undo_failed") {
        Some("撤销失败：{}")
    } else if text_eq(key, "no_monitoring_for_path") {
        Some("该路径未启动监控")
    } else {
        None
    }
}

} // verus!
