use hr_view::locales::translate;
use hr_view::locales::Language;
use hr_view::locales::TranslateItem;

#[test]
fn the_language_of_a_locale() {
    assert_eq!(Language::from("zh"), Language::Chinese);
    assert_eq!(Language::from("zh-CN"), Language::Chinese);
    assert_eq!(Language::from("zh_TW.UTF-8"), Language::Chinese);
    assert_eq!(Language::from("en-US"), Language::English);
    assert_eq!(Language::from("z"), Language::English);
    assert_eq!(Language::from(""), Language::English);
    assert_eq!(Language::from("Zh"), Language::English);
    assert_eq!(Language::from("中文"), Language::English);
    assert_eq!(Language::from("de-zh"), Language::English);
}

#[test]
fn the_default_language() {
    assert_eq!(Language::default(), Language::English);
}

#[test]
fn the_languages_on_offer() {
    assert_eq!(Language::all(), [Language::English, Language::Chinese]);
    assert_eq!(Language::English.name(), "English");
    assert_eq!(Language::Chinese.name(), "中文");
}

#[test]
fn the_english_texts() {
    let lang = Language::English;
    assert_eq!(
        TranslateItem::UnknownAdapterState.translate(lang),
        "Unknown Bluetooth adapter state\nI CANNOT WORK!"
    );
    assert_eq!(
        TranslateItem::AdapterPowereddOff.translate(lang),
        "Please turn on your Bluetooth adapter!"
    );
    assert_eq!(TranslateItem::ScanTitle.translate(lang), "Discoverd devices");
    assert_eq!(TranslateItem::ConnectedTitle.translate(lang), "Connected:");
    assert_eq!(TranslateItem::ConnectButton.translate(lang), "Connect");
    assert_eq!(TranslateItem::ConnectingButton.translate(lang), "Connecting");
    assert_eq!(TranslateItem::DisconnectButton.translate(lang), "Disconnect");
    assert_eq!(TranslateItem::SettingsTitle.translate(lang), "Settings");
    assert_eq!(
        TranslateItem::ShowHeartRateWindowSetting.translate(lang),
        "Show heart rate window"
    );
    assert_eq!(
        TranslateItem::LockHeartRateWindowSetting.translate(lang),
        "Lock heart rate window"
    );
}

#[test]
fn the_chinese_texts() {
    let lang = Language::Chinese;
    assert_eq!(TranslateItem::UnknownAdapterState.translate(lang), "蓝牙状态未知，无法继续");
    assert_eq!(
        TranslateItem::AdapterPowereddOff.translate(lang),
        "不是，哥们儿！把蓝牙给开开！"
    );
    assert_eq!(TranslateItem::ScanTitle.translate(lang), "扫描到的设备");
    assert_eq!(TranslateItem::ConnectedTitle.translate(lang), "连接到：");
    assert_eq!(TranslateItem::ConnectButton.translate(lang), "连接");
    assert_eq!(TranslateItem::ConnectingButton.translate(lang), "正在连接");
    assert_eq!(TranslateItem::DisconnectButton.translate(lang), "断开设备");
    assert_eq!(TranslateItem::SettingsTitle.translate(lang), "设置");
    assert_eq!(TranslateItem::ShowHeartRateWindowSetting.translate(lang), "显示心率窗口");
    assert_eq!(TranslateItem::LockHeartRateWindowSetting.translate(lang), "锁定心率窗口");
}

#[test]
fn the_free_function_agrees_with_the_method() {
    assert_eq!(
        translate(Language::Chinese, TranslateItem::ConnectButton),
        TranslateItem::ConnectButton.translate(Language::Chinese)
    );
    assert_eq!(translate(Language::English, TranslateItem::ConnectButton), "Connect");
}

#[test]
fn the_language_of_an_optional_locale() {
    assert_eq!(Language::of_locale(None), Language::English);
    assert_eq!(Language::of_locale(Some(String::from("zh-Hans-CN"))), Language::Chinese);
    assert_eq!(Language::of_locale(Some(String::from("fr-FR"))), Language::English);
}

#[test]
fn the_language_of_the_system() {
    let expected = Language::of_locale(sys_locale::get_locale());
    assert_eq!(Language::system(), expected);
}
