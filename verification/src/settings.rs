use vstd::prelude::*;

use crate::list::{
    GemListRow, GemListRowIcon, GemListRowTitle, GemListSection, GemListSectionFooter, GemListSectionTitle, GemUrlTarget,
    PlatformStore, PublicUrl, Release,
};

verus! {

/// A row of the top-level settings screen.
#[derive(Debug, Clone, Copy, PartialEq, Eq)]
pub enum GemSettingsRow {
    Wallets,
    Security,
    Notifications,
    Preferences,
    WalletConnect,
    Support,
    Rewards,
    AboutUs,
    Developer,
}

/// A group of rows of the top-level settings screen.
#[derive(Debug, Clone, PartialEq, Eq)]
pub struct GemSettingsSection {
    pub rows: Vec<GemSettingsRow>,
}

/// A row of the preferences screen.
#[derive(Debug, Clone, Copy, PartialEq, Eq)]
pub enum GemPreferencesRow {
    Currency,
    Language,
    Appearance,
    Networks,
    Contacts,
    Perpetuals,
    PerpetualLeverage,
    PerpetualTakeProfit,
    PerpetualStopLoss,
}

/// A group of rows of the preferences screen.
#[derive(Debug, Clone, PartialEq, Eq)]
pub struct GemPreferencesSection {
    pub rows: Vec<GemPreferencesRow>,
}

/// The defaults offered for a new perpetual position.
#[derive(Debug, Clone, Copy, PartialEq, Eq)]
pub struct GemPerpetualDefaults {
    pub leverage: u8,
    pub take_profit_percent: u8,
    pub stop_loss_percent: u8,
}

/// A row of the security screen.
#[derive(Debug, Clone, Copy, PartialEq, Eq)]
pub enum GemSecurityRow {
    Authentication,
    LockPeriod,
    PrivacyLock,
    HideBalance,
}

/// A group of rows of the security screen.
#[derive(Debug, Clone, PartialEq, Eq)]
pub struct GemSecuritySection {
    pub rows: Vec<GemSecurityRow>,
}

/// The rows of the general preferences section.
pub open spec fn general_preference_rows() -> Seq<GemPreferencesRow> {
    seq![
        GemPreferencesRow::Currency,
        GemPreferencesRow::Language,
        GemPreferencesRow::Appearance,
        GemPreferencesRow::Networks,
        GemPreferencesRow::Contacts,
    ]
}

/// The rows of the perpetuals section: the switch, and its defaults once it is on.
pub open spec fn perpetual_preference_rows(perpetuals_enabled: bool) -> Seq<GemPreferencesRow> {
    if perpetuals_enabled {
        seq![
            GemPreferencesRow::Perpetuals,
            GemPreferencesRow::PerpetualLeverage,
            GemPreferencesRow::PerpetualTakeProfit,
            GemPreferencesRow::PerpetualStopLoss,
        ]
    } else {
        seq![GemPreferencesRow::Perpetuals]
    }
}

/// The rows of the lock section: the switch, and the lock options once it is on.
pub open spec fn lock_rows(authentication_enabled: bool) -> Seq<GemSecurityRow> {
    if authentication_enabled {
        seq![GemSecurityRow::Authentication, GemSecurityRow::LockPeriod, GemSecurityRow::PrivacyLock]
    } else {
        seq![GemSecurityRow::Authentication]
    }
}

/// The preferences screen: general rows, then the perpetuals rows.
pub fn preferences_sections(perpetuals_enabled: bool) -> (sections: Vec<GemPreferencesSection>)
    ensures
        sections@.len() == 2,
        sections@[0].rows@ == general_preference_rows(),
        sections@[1].rows@ == perpetual_preference_rows(perpetuals_enabled),
{
    let general = vec![
        GemPreferencesRow::Currency,
        GemPreferencesRow::Language,
        GemPreferencesRow::Appearance,
        GemPreferencesRow::Networks,
        GemPreferencesRow::Contacts,
    ];
    let mut perpetuals = vec![GemPreferencesRow::Perpetuals];
    if perpetuals_enabled {
        perpetuals.push(GemPreferencesRow::PerpetualLeverage);
        perpetuals.push(GemPreferencesRow::PerpetualTakeProfit);
        perpetuals.push(GemPreferencesRow::PerpetualStopLoss);
    }
    assert(perpetuals@ == perpetual_preference_rows(perpetuals_enabled));
    vec![GemPreferencesSection { rows: general }, GemPreferencesSection { rows: perpetuals }]
}

/// The security screen: the lock rows, then hiding the balance on its own.
pub fn security_sections(authentication_enabled: bool) -> (sections: Vec<GemSecuritySection>)
    ensures
        sections@.len() == 2,
        sections@[0].rows@ == lock_rows(authentication_enabled),
        sections@[1].rows@ == seq![GemSecurityRow::HideBalance],
{
    let mut lock = vec![GemSecurityRow::Authentication];
    if authentication_enabled {
        lock.push(GemSecurityRow::LockPeriod);
        lock.push(GemSecurityRow::PrivacyLock);
    }
    assert(lock@ == lock_rows(authentication_enabled));
    vec![GemSecuritySection { rows: lock }, GemSecuritySection { rows: vec![GemSecurityRow::HideBalance] }]
}

/// The candidate groups of the settings screen, before empty ones are dropped.
pub open spec fn settings_groups(
    notifications_available: bool,
    wallet_connect_available: bool,
    shows_rewards: bool,
    developer_enabled: bool,
) -> Seq<Seq<GemSettingsRow>> {
    seq![
        seq![GemSettingsRow::Wallets, GemSettingsRow::Security],
        if notifications_available {
            seq![GemSettingsRow::Notifications, GemSettingsRow::Preferences]
        } else {
            seq![GemSettingsRow::Preferences]
        },
        if wallet_connect_available { seq![GemSettingsRow::WalletConnect] } else { seq![] },
        seq![GemSettingsRow::Support]
            + (if shows_rewards { seq![GemSettingsRow::Rewards] } else { seq![] })
            + seq![GemSettingsRow::AboutUs]
            + (if developer_enabled { seq![GemSettingsRow::Developer] } else { seq![] }),
    ]
}

/// The rows of each section of a list of sections.
pub open spec fn settings_rows(sections: Seq<GemSettingsSection>) -> Seq<Seq<GemSettingsRow>> {
    sections.map_values(|section: GemSettingsSection| section.rows@)
}

/// The settings screen: its groups in order, without the ones left empty.
pub fn sections(
    notifications_available: bool,
    wallet_connect_available: bool,
    shows_rewards: bool,
    developer_enabled: bool,
) -> (result: Vec<GemSettingsSection>)
    ensures
        settings_rows(result@) == settings_groups(
            notifications_available,
            wallet_connect_available,
            shows_rewards,
            developer_enabled,
        ).filter(|rows: Seq<GemSettingsRow>| rows.len() > 0),
        result@.len() == if wallet_connect_available {
            4int
        } else {
            3int
        },
        result@[0].rows@ == seq![GemSettingsRow::Wallets, GemSettingsRow::Security],
        result@[1].rows@ == if notifications_available {
            seq![GemSettingsRow::Notifications, GemSettingsRow::Preferences]
        } else {
            seq![GemSettingsRow::Preferences]
        },
        wallet_connect_available ==> result@[2].rows@ == seq![GemSettingsRow::WalletConnect],
        result@.last().rows@ == seq![GemSettingsRow::Support] + (if shows_rewards {
            seq![GemSettingsRow::Rewards]
        } else {
            Seq::empty()
        }) + seq![GemSettingsRow::AboutUs] + (if developer_enabled {
            seq![GemSettingsRow::Developer]
        } else {
            Seq::empty()
        }),
{
    let ghost groups = settings_groups(
        notifications_available,
        wallet_connect_available,
        shows_rewards,
        developer_enabled,
    );
    let mut second = Vec::new();
    if notifications_available {
        second.push(GemSettingsRow::Notifications);
    }
    second.push(GemSettingsRow::Preferences);
    let mut third = Vec::new();
    if wallet_connect_available {
        third.push(GemSettingsRow::WalletConnect);
    }
    let mut fourth = vec![GemSettingsRow::Support];
    if shows_rewards {
        fourth.push(GemSettingsRow::Rewards);
    }
    fourth.push(GemSettingsRow::AboutUs);
    if developer_enabled {
        fourth.push(GemSettingsRow::Developer);
    }
    let has_third = third.len() > 0;
    assert(second@ == groups[1]);
    assert(third@ == groups[2]);
    assert(fourth@ =~= groups[3]);
    let mut result: Vec<GemSettingsSection> = Vec::new();
    result.push(GemSettingsSection { rows: vec![GemSettingsRow::Wallets, GemSettingsRow::Security] });
    result.push(GemSettingsSection { rows: second });
    if has_third {
        result.push(GemSettingsSection { rows: third });
    }
    result.push(GemSettingsSection { rows: fourth });
    proof {
        let pred = |rows: Seq<GemSettingsRow>| rows.len() > 0;
        reveal_with_fuel(Seq::filter, 1);
        assert(groups.take(0).filter(pred) =~= Seq::<Seq<GemSettingsRow>>::empty());
        assert(groups.take(1).drop_last() =~= groups.take(0));
        assert(groups.take(2).drop_last() =~= groups.take(1));
        assert(groups.take(3).drop_last() =~= groups.take(2));
        assert(groups.take(4).drop_last() =~= groups.take(3));
        assert(groups.take(4) =~= groups);
        let f1 = groups.take(1).filter(pred);
        assert(f1 =~= seq![groups[0]]);
        let f2 = groups.take(2).filter(pred);
        assert(f2 =~= seq![groups[0], groups[1]]);
        let f3 = groups.take(3).filter(pred);
        if has_third {
            assert(f3 =~= seq![groups[0], groups[1], groups[2]]);
        } else {
            assert(f3 =~= seq![groups[0], groups[1]]);
        }
        assert(groups.take(4).filter(pred) =~= f3.push(groups[3]));
        assert(settings_rows(result@) =~= groups.filter(pred));
    }
    result
}

/// The store page a release is offered from: the App Store and Google Play
/// have their own, every other store gets the APK download.
pub open spec fn store_page(store: PlatformStore) -> PublicUrl {
    match store {
        PlatformStore::AppStore => PublicUrl::AppStore,
        PlatformStore::GooglePlay => PublicUrl::PlayStore,
        _ => PublicUrl::APK,
    }
}

/// The store page a release is offered from.
pub fn store_url(store: PlatformStore) -> (url: PublicUrl)
    ensures
        url == store_page(store),
{
    match store {
        PlatformStore::AppStore => PublicUrl::AppStore,
        PlatformStore::GooglePlay => PublicUrl::PlayStore,
        PlatformStore::Fdroid | PlatformStore::Huawei | PlatformStore::SolanaStore | PlatformStore::SamsungStore
        | PlatformStore::ApkUniversal | PlatformStore::Emerald | PlatformStore::Local => PublicUrl::APK,
    }
}

/// A row that opens one of the project's pages inside the app.
pub open spec fn page_row(title: GemListRowTitle, url: PublicUrl) -> GemListRow {
    GemListRow::Url { title, value: None, icon: GemListRowIcon::Blank, url, target: GemUrlTarget::InApp }
}

/// The row that offers an update to `release`, opening its store page outside the app.
pub open spec fn update_row(release: Release) -> GemListRow {
    GemListRow::Url {
        title: GemListRowTitle::UpdateApp,
        value: Some(release.version),
        icon: GemListRowIcon::AppLogo,
        url: store_page(release.store),
        target: GemUrlTarget::External,
    }
}

/// The rows of the about screen's last section: the version, then the update when one is offered.
pub open spec fn version_rows(version: String, update: Option<Release>) -> Seq<GemListRow> {
    let version_row = GemListRow::Text { title: GemListRowTitle::Version, value: version };
    match update {
        Some(release) => seq![version_row, update_row(release)],
        None => seq![version_row],
    }
}

fn page(title: GemListRowTitle, url: PublicUrl) -> (row: GemListRow)
    ensures
        row == page_row(title, url),
{
    GemListRow::Url { title, value: None, icon: GemListRowIcon::Blank, url, target: GemUrlTarget::InApp }
}

/// The about screen: the terms, privacy policy and website pages; the
/// community links; and the version, with the update when a newer release
/// is offered.
pub fn about_sections(version: String, update: Option<Release>) -> (s: Vec<GemListSection>)
    ensures
        s@.len() == 3,
        s@[0].title == GemListSectionTitle::Blank,
        s@[0].footer == GemListSectionFooter::Blank,
        s@[0].rows@ == seq![
            page_row(GemListRowTitle::TermsOfService, PublicUrl::TermsOfService),
            page_row(GemListRowTitle::PrivacyPolicy, PublicUrl::PrivacyPolicy),
            page_row(GemListRowTitle::Website, PublicUrl::Website),
        ],
        s@[1].title == GemListSectionTitle::Community,
        s@[1].footer == GemListSectionFooter::Blank,
        s@[1].rows@ == seq![GemListRow::Social],
        s@[2].title == GemListSectionTitle::Blank,
        s@[2].footer == GemListSectionFooter::Blank,
        s@[2].rows@ == version_rows(version, update),
{
    let pages = vec![
        page(GemListRowTitle::TermsOfService, PublicUrl::TermsOfService),
        page(GemListRowTitle::PrivacyPolicy, PublicUrl::PrivacyPolicy),
        page(GemListRowTitle::Website, PublicUrl::Website),
    ];
    let ghost version_text = version;
    let mut about = vec![GemListRow::Text { title: GemListRowTitle::Version, value: version }];
    match update {
        Some(release) => {
            let url = store_url(release.store);
            about.push(
                GemListRow::Url {
                    title: GemListRowTitle::UpdateApp,
                    value: Some(release.version),
                    icon: GemListRowIcon::AppLogo,
                    url,
                    target: GemUrlTarget::External,
                },
            );
        },
        None => {},
    }
    assert(about@ =~= version_rows(version_text, update));
    vec![
        GemListSection { title: GemListSectionTitle::Blank, footer: GemListSectionFooter::Blank, rows: pages },
        GemListSection { title: GemListSectionTitle::Community, footer: GemListSectionFooter::Blank, rows: vec![GemListRow::Social] },
        GemListSection { title: GemListSectionTitle::Blank, footer: GemListSectionFooter::Blank, rows: about },
    ]
}

/// Whether some section of a settings screen holds `row`.
pub open spec fn shows_row(sections: Seq<GemSettingsSection>, row: GemSettingsRow) -> bool {
    exists|k: int| 0 <= k < sections.len() && #[trigger] sections[k].rows@.contains(row)
}

/// On the settings screen, each optional row shows exactly when what it
/// depends on is offered, whatever the other switches are: notifications,
/// WalletConnect, rewards and developer mode each on their own; the rows
/// that are always there always show.
pub proof fn lemma_settings_rows_follow_their_switches(
    sections: Seq<GemSettingsSection>,
    notifications_available: bool,
    wallet_connect_available: bool,
    shows_rewards: bool,
    developer_enabled: bool,
)
    requires
        settings_rows(sections) == settings_groups(
            notifications_available,
            wallet_connect_available,
            shows_rewards,
            developer_enabled,
        ).filter(|rows: Seq<GemSettingsRow>| rows.len() > 0),
    ensures
        shows_row(sections, GemSettingsRow::Notifications) <==> notifications_available,
        shows_row(sections, GemSettingsRow::WalletConnect) <==> wallet_connect_available,
        shows_row(sections, GemSettingsRow::Rewards) <==> shows_rewards,
        shows_row(sections, GemSettingsRow::Developer) <==> developer_enabled,
        shows_row(sections, GemSettingsRow::Wallets),
        shows_row(sections, GemSettingsRow::Security),
        shows_row(sections, GemSettingsRow::Preferences),
        shows_row(sections, GemSettingsRow::Support),
        shows_row(sections, GemSettingsRow::AboutUs),
{
    let groups = settings_groups(notifications_available, wallet_connect_available, shows_rewards, developer_enabled);
    let pred = |rows: Seq<GemSettingsRow>| rows.len() > 0;
    let kept = groups.filter(pred);
    let rows = settings_rows(sections);
    assert(rows.len() == sections.len());
    assert forall|k: int| 0 <= k < sections.len() implies #[trigger] rows[k] == sections[k].rows@ by {}
    assert forall|k: int| 0 <= k < kept.len() implies groups.contains(#[trigger] kept[k]) by {
        groups.lemma_filter_contains_rev(pred, kept[k]);
    }
    assert forall|k: int| 0 <= k < groups.len() && groups[k].len() > 0 implies kept.contains(#[trigger] groups[k]) by {
        groups.lemma_filter_contains(pred, k);
    }
    let last = groups[3];
    assert(last[0] == GemSettingsRow::Support);
    assert(last.contains(GemSettingsRow::Support));
    assert(groups[0][0] == GemSettingsRow::Wallets);
    assert(groups[0][1] == GemSettingsRow::Security);
    assert(groups[1].last() == GemSettingsRow::Preferences);
    assert(last[if shows_rewards { 2int } else { 1int }] == GemSettingsRow::AboutUs);
    if shows_rewards {
        assert(last[1] == GemSettingsRow::Rewards);
    }
    if developer_enabled {
        assert(last.last() == GemSettingsRow::Developer);
    }
    if notifications_available {
        assert(groups[1][0] == GemSettingsRow::Notifications);
    }
    if wallet_connect_available {
        assert(groups[2][0] == GemSettingsRow::WalletConnect);
    }
    // Each row of each kept section comes from some group.
    assert forall|row: GemSettingsRow| shows_row(sections, row) implies exists|g: int|
        0 <= g < groups.len() && #[trigger] groups[g].contains(row) by {
        let k = choose|k: int| 0 <= k < sections.len() && #[trigger] sections[k].rows@.contains(row);
        assert(kept.contains(rows[k]));
        let g = choose|g: int| 0 <= g < groups.len() && groups[g] == rows[k];
        assert(groups[g].contains(row));
    }
    // A row shown in a non-empty group is shown on the screen.
    assert forall|g: int, row: GemSettingsRow| 0 <= g < groups.len() && #[trigger] groups[g].contains(row) implies
        shows_row(sections, row) by {
        assert(groups[g].len() > 0);
        assert(kept.contains(groups[g]));
        let k = choose|k: int| 0 <= k < kept.len() && kept[k] == groups[g];
        assert(sections[k].rows@.contains(row));
    }
    assert(groups[0].contains(GemSettingsRow::Wallets));
    assert(groups[0].contains(GemSettingsRow::Security));
    assert(groups[1].contains(GemSettingsRow::Preferences));
    assert(groups[3].contains(GemSettingsRow::AboutUs));
    if shows_rewards {
        assert(groups[3].contains(GemSettingsRow::Rewards));
    }
    if developer_enabled {
        assert(groups[3].contains(GemSettingsRow::Developer));
    }
    if notifications_available {
        assert(groups[1].contains(GemSettingsRow::Notifications));
    }
    if wallet_connect_available {
        assert(groups[2].contains(GemSettingsRow::WalletConnect));
    }
    // A row whose switch is off is in no group.
    assert forall|g: int| 0 <= g < groups.len() implies {
        &&& (#[trigger] groups[g]).contains(GemSettingsRow::Rewards) ==> shows_rewards
        &&& groups[g].contains(GemSettingsRow::Developer) ==> developer_enabled
        &&& groups[g].contains(GemSettingsRow::Notifications) ==> notifications_available
        &&& groups[g].contains(GemSettingsRow::WalletConnect) ==> wallet_connect_available
    } by {
        if g == 3 {
            let l = groups[3];
            if l.contains(GemSettingsRow::Rewards) {
                let m = choose|m: int| 0 <= m < l.len() && l[m] == GemSettingsRow::Rewards;
            }
            if l.contains(GemSettingsRow::Developer) {
                let m = choose|m: int| 0 <= m < l.len() && l[m] == GemSettingsRow::Developer;
            }
        }
    }
}

} // verus!
