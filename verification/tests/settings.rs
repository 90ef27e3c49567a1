use gemcore::list::{
    GemListRow, GemListRowIcon, GemListRowTitle, GemListSectionTitle, GemUrlTarget, PlatformStore, PublicUrl, Release,
};
use gemcore::settings::{
    about_sections, preferences_sections, sections, security_sections, store_url, GemPreferencesRow, GemSecurityRow,
    GemSettingsRow,
};

#[test]
fn test_the_perpetual_defaults_show_only_once_perpetuals_are_on() {
    assert_eq!(
        preferences_sections(false).last().map(|section| section.rows.clone()),
        Some(vec![GemPreferencesRow::Perpetuals])
    );
    assert_eq!(preferences_sections(true).last().map(|section| section.rows.len()), Some(4));
}

#[test]
fn test_the_lock_rows_show_only_once_authentication_is_on() {
    assert_eq!(
        security_sections(false).first().map(|section| section.rows.clone()),
        Some(vec![GemSecurityRow::Authentication])
    );
    assert_eq!(
        security_sections(true).first().map(|section| section.rows.clone()),
        Some(vec![GemSecurityRow::Authentication, GemSecurityRow::LockPeriod, GemSecurityRow::PrivacyLock])
    );
    assert_eq!(
        security_sections(true).last().map(|section| section.rows.clone()),
        Some(vec![GemSecurityRow::HideBalance]),
        "hiding the balance is its own choice, not part of the lock"
    );
}

#[test]
fn test_the_settings_rows_follow_what_the_device_and_wallet_offer() {
    let full = sections(true, true, true, true);
    assert_eq!(
        full.iter().map(|section| section.rows.clone()).collect::<Vec<_>>(),
        vec![
            vec![GemSettingsRow::Wallets, GemSettingsRow::Security],
            vec![GemSettingsRow::Notifications, GemSettingsRow::Preferences],
            vec![GemSettingsRow::WalletConnect],
            vec![GemSettingsRow::Support, GemSettingsRow::Rewards, GemSettingsRow::AboutUs, GemSettingsRow::Developer],
        ]
    );

    let plain = sections(false, false, false, false);
    assert_eq!(
        plain.iter().map(|section| section.rows.clone()).collect::<Vec<_>>(),
        vec![
            vec![GemSettingsRow::Wallets, GemSettingsRow::Security],
            vec![GemSettingsRow::Preferences],
            vec![GemSettingsRow::Support, GemSettingsRow::AboutUs],
        ],
        "a device without notifications or WalletConnect drops those rows and their empty section"
    );
}

#[test]
fn test_preferences_sections_list_the_general_rows_first() {
    let on = preferences_sections(true);
    assert_eq!(on.len(), 2);
    assert_eq!(
        on[0].rows,
        vec![
            GemPreferencesRow::Currency,
            GemPreferencesRow::Language,
            GemPreferencesRow::Appearance,
            GemPreferencesRow::Networks,
            GemPreferencesRow::Contacts,
        ]
    );
    assert_eq!(
        on[1].rows,
        vec![
            GemPreferencesRow::Perpetuals,
            GemPreferencesRow::PerpetualLeverage,
            GemPreferencesRow::PerpetualTakeProfit,
            GemPreferencesRow::PerpetualStopLoss,
        ]
    );
}

#[test]
fn test_settings_sections_keep_rewards_and_developer_apart() {
    let rows: Vec<Vec<GemSettingsRow>> = sections(false, true, false, true).iter().map(|s| s.rows.clone()).collect();
    assert_eq!(
        rows,
        vec![
            vec![GemSettingsRow::Wallets, GemSettingsRow::Security],
            vec![GemSettingsRow::Preferences],
            vec![GemSettingsRow::WalletConnect],
            vec![GemSettingsRow::Support, GemSettingsRow::AboutUs, GemSettingsRow::Developer],
        ]
    );
    assert_eq!(security_sections(false).len(), 2);
}

#[test]
fn test_the_about_screen_offers_the_update_only_when_a_release_is_newer() {
    let plain = about_sections("1.2.3".to_string(), None);
    assert_eq!(
        plain.last().map(|section| section.rows.clone()),
        Some(vec![GemListRow::Text {
            title: GemListRowTitle::Version,
            value: "1.2.3".to_string()
        }])
    );

    let update = about_sections("1.2.3".to_string(), Some(Release::new(PlatformStore::AppStore, "1.3.0".to_string(), false)));
    assert_eq!(
        update.last().and_then(|section| section.rows.last().cloned()),
        Some(GemListRow::Url {
            title: GemListRowTitle::UpdateApp,
            value: Some("1.3.0".to_string()),
            icon: GemListRowIcon::AppLogo,
            url: PublicUrl::AppStore,
            target: GemUrlTarget::External,
        }),
        "the row points at the store the release came from, and a store page opens outside the app"
    );
}

#[test]
fn test_the_about_screen_lists_pages_and_community() {
    let about = about_sections("2.0".to_string(), None);
    assert_eq!(about.len(), 3);
    assert_eq!(about[0].title, GemListSectionTitle::Blank);
    assert_eq!(about[0].rows.len(), 3);
    assert_eq!(
        about[0].rows[1],
        GemListRow::Url {
            title: GemListRowTitle::PrivacyPolicy,
            value: None,
            icon: GemListRowIcon::Blank,
            url: PublicUrl::PrivacyPolicy,
            target: GemUrlTarget::InApp,
        }
    );
    assert_eq!(about[1].title, GemListSectionTitle::Community);
    assert_eq!(about[1].rows, vec![GemListRow::Social]);
}

#[test]
fn test_store_url() {
    assert_eq!(store_url(PlatformStore::AppStore), PublicUrl::AppStore);
    assert_eq!(store_url(PlatformStore::GooglePlay), PublicUrl::PlayStore);
    assert_eq!(store_url(PlatformStore::Fdroid), PublicUrl::APK);
    assert_eq!(store_url(PlatformStore::Local), PublicUrl::APK);
}
