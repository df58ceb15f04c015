//! The languages of the user interface and its translated texts.

use vstd::prelude::*;
use vstd::std_specs::convert::FromSpecImpl;
use vstd::string::StrSliceExecFns;

verus! {

/// A language that the interface can be shown in.
#[derive(Clone, Copy, Debug, PartialEq, Eq, Structural)]
pub enum Language {
    English,
    Chinese,
}

/// A text of the interface that exists in every language.
#[derive(Clone, Copy, Debug, PartialEq, Eq, Structural)]
pub enum TranslateItem {
    UnknownAdapterState,
    AdapterPowereddOff,
    ScanTitle,
    ConnectedTitle,
    ConnectButton,
    ConnectingButton,
    DisconnectButton,
    SettingsTitle,
    ShowHeartRateWindowSetting,
    LockHeartRateWindowSetting,
}

/// Whether a locale name selects Chinese: it starts with `zh`.
pub open spec fn is_chinese_locale(name: Seq<char>) -> bool {
    name.len() >= 2 && name[0] == 'z' && name[1] == 'h'
}

/// The name of a language in that language.
pub open spec fn language_name(lang: Language) -> Seq<char> {
    match lang {
        Language::English => "English"@,
        Language::Chinese => "中文"@,
    }
}

/// The text of `key` in `lang`.
pub open spec fn translation(lang: Language, key: TranslateItem) -> Seq<char> {
    match lang {
        Language::English => match key {
            TranslateItem::UnknownAdapterState => "Unknown Bluetooth adapter state\nI CANNOT WORK!"@,
            TranslateItem::AdapterPowereddOff => "Please turn on your Bluetooth adapter!"@,
            TranslateItem::ScanTitle => "Discoverd devices"@,
            TranslateItem::ConnectedTitle => "Connected:"@,
            TranslateItem::ConnectButton => "Connect"@,
            TranslateItem::ConnectingButton => "Connecting"@,
            TranslateItem::DisconnectButton => "Disconnect"@,
            TranslateItem::SettingsTitle => "Settings"@,
            TranslateItem::ShowHeartRateWindowSetting => "Show heart rate window"@,
            TranslateItem::LockHeartRateWindowSetting => "Lock heart rate window"@,
        },
        Language::Chinese => match key {
            TranslateItem::UnknownAdapterState => "蓝牙状态未知，无法继续"@,
            TranslateItem::AdapterPowereddOff => "不是，哥们儿！把蓝牙给开开！"@,
            TranslateItem::ScanTitle => "扫描到的设备"@,
            TranslateItem::ConnectedTitle => "连接到："@,
            TranslateItem::ConnectButton => "连接"@,
            TranslateItem::ConnectingButton => "正在连接"@,
            TranslateItem::DisconnectButton => "断开设备"@,
            TranslateItem::SettingsTitle => "设置"@,
            TranslateItem::ShowHeartRateWindowSetting => "显示心率窗口"@,
            TranslateItem::LockHeartRateWindowSetting => "锁定心率窗口"@,
        },
    }
}

/// Calls `sys_locale::get_locale`: the locale that the system prefers, where
/// it names one. The result depends on the environment of the process, so
/// nothing is claimed of it.
#[verifier::external_body]
fn get_locale() -> Option<String> {
    sys_locale::get_locale()
}

impl Language {
    /// The language of an optional locale name: that of the name, and the
    /// default language where there is no name.
    pub fn of_locale(locale: Option<String>) -> (r: Language)
        ensures
            r == (match locale {
                Some(name) => if is_chinese_locale(name@) {
                    Language::Chinese
                } else {
                    Language::English
                },
                None => Language::English,
            }),
    {
        match locale {
            Some(name) => Language::from(name.as_str()),
            None => Language::default(),
        }
    }

    /// The language of the locale that the system prefers, whatever that
    /// locale is: see `of_locale`.
    pub fn system() -> Language {
        Language::of_locale(get_locale())
    }

    /// Every language, in the order in which they are offered.
    pub fn all() -> (r: [Language; 2])
        ensures
            r@ == seq![Language::English, Language::Chinese],
    {
        let r = [Language::English, Language::Chinese];
        assert(r@ =~= seq![Language::English, Language::Chinese]);
        r
    }

    /// The name of the language in that language.
    pub fn name(&self) -> (s: &'static str)
        ensures
            s@ == language_name(*self),
    {
        match self {
            Language::English => "English",
            Language::Chinese => "中文",
        }
    }
}

impl Default for Language {
    fn default() -> (r: Language)
        ensures
            r == Language::English,
    {
        Language::English
    }
}

impl FromSpecImpl<&str> for Language {
    open spec fn obeys_from_spec() -> bool {
        true
    }

    open spec fn from_spec(value: &str) -> Language {
        if is_chinese_locale(value@) {
            Language::Chinese
        } else {
            Language::English
        }
    }
}

impl From<&str> for Language {
    /// The language of a locale name: Chinese where the name starts with
    /// `zh`, English for every other name.
    fn from(value: &str) -> (r: Language) {
        if value.unicode_len() >= 2 && value.get_char(0) == 'z' && value.get_char(1) == 'h' {
            Language::Chinese
        } else {
            Language::English
        }
    }
}

impl TranslateItem {
    /// The text of this item in `lang`.
    pub fn translate(&self, lang: Language) -> (s: &'static str)
        ensures
            s@ == translation(lang, *self),
    {
        translate(lang, *self)
    }
}

/// The text of `key` in `lang`.
pub fn translate(lang: Language, key: TranslateItem) -> (s: &'static str)
    ensures
        s@ == translation(lang, key),
{
    match lang {
        Language::English => match key {
            TranslateItem::UnknownAdapterState => "Unknown Bluetooth adapter state\nI CANNOT WORK!",
            TranslateItem::AdapterPowereddOff => "Please turn on your Bluetooth adapter!",
            TranslateItem::ScanTitle => "Discoverd devices",
            TranslateItem::ConnectedTitle => "Connected:",
            TranslateItem::ConnectButton => "Connect",
            TranslateItem::ConnectingButton => "Connecting",
            TranslateItem::DisconnectButton => "Disconnect",
            TranslateItem::SettingsTitle => "Settings",
            TranslateItem::ShowHeartRateWindowSetting => "Show heart rate window",
            TranslateItem::LockHeartRateWindowSetting => "Lock heart rate window",
        },
        Language::Chinese => match key {
            TranslateItem::UnknownAdapterState => "蓝牙状态未知，无法继续",
            TranslateItem::AdapterPowereddOff => "不是，哥们儿！把蓝牙给开开！",
            TranslateItem::ScanTitle => "扫描到的设备",
            TranslateItem::ConnectedTitle => "连接到：",
            TranslateItem::ConnectButton => "连接",
            TranslateItem::ConnectingButton => "正在连接",
            TranslateItem::DisconnectButton => "断开设备",
            TranslateItem::SettingsTitle => "设置",
            TranslateItem::ShowHeartRateWindowSetting => "显示心率窗口",
            TranslateItem::LockHeartRateWindowSetting => "锁定心率窗口",
        },
    }
}

} // verus!
