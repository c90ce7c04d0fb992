//! General application settings.
use vstd::prelude::*;
use crate::text::text_eq;

verus! {

/// General settings of the application.
#[derive(Debug, Clone)]
pub struct GeneralSettings {
    pub auto_start: bool,
    pub theme: String,
}

/// A setting value as it arrives from the front end.
#[derive(Debug, Clone)]
pub enum SettingValue {
    Bool(bool),
    Text(String),
    /// A number, a list, an object or null.
    Other,
}

impl Default for GeneralSettings {
    /// No start at login, and the system's theme.
    fn default() -> (r: Self)
        ensures
            !r.auto_start,
            r.theme@ == "system"@,
    {
        GeneralSettings { auto_start: false, theme: String::from_str("system") }
    }
}

/// The outcome of setting `key` to `value` on `s`: the new settings, or the error message.
pub open spec fn setting_update(s: GeneralSettings, key: Seq<char>, value: SettingValue) -> Result<GeneralSettings, Seq<char>> {
    if key == "auto_start"@ {
        match value {
            SettingValue::Bool(b) => Ok(GeneralSettings { auto_start: b, ..s }),
            _ => Err("auto_start must be a boolean"@),
        }
    } else if key == "theme"@ {
        match value {
            SettingValue::Text(t) => Ok(GeneralSettings { theme: t, ..s }),
            _ => Err("theme must be a string"@),
        }
    } else {
        Err("Unknown setting key: "@ + key)
    }
}

impl GeneralSettings {
    /// Sets one setting by name: `auto_start` takes a boolean and `theme` a string.
    /// On an error the settings stay as they were.
    pub fn update_setting(&mut self, key: &str, value: SettingValue) -> (r: Result<(), String>)
        ensures
            match setting_update(*old(self), key@, value) {
                Ok(s) => r is Ok && *final(self) == s,
                Err(m) => r is Err && r->Err_0@ == m && *final(self) == *old(self),
            },
    {
        if text_eq(key, "auto_start") {
            match value {
                SettingValue::Bool(b) => {
                    self.auto_start = b;
                    Ok(())
                },
                _ => Err(String::from_str("auto_start must be a boolean")),
            }
        } else if text_eq(key, "theme") {
            match value {
                SettingValue::Text(t) => {
                    self.theme = t;
                    Ok(())
                },
                _ => Err(String::from_str("theme must be a string")),
            }
        } else {
            let mut m = String::from_str("Unknown setting key: ");
            m.append(key);
            Err(m)
        }
    }
}

} // verus!
