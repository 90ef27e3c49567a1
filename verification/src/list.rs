use vstd::prelude::*;

verus! {

/// The title of a section of a list screen.
#[derive(Debug, Clone, Copy, PartialEq, Eq)]
pub enum GemListSectionTitle {
    Blank,
    Balances,
    Community,
    Manage,
    Resources,
}

/// The title of a row of a list screen.
#[derive(Debug, Clone, Copy, PartialEq, Eq)]
pub enum GemListRowTitle {
    Name,
    Network,
    Address,
    Available,
    Stake,
    Earn,
    PendingUnconfirmed,
    Reserved,
    Error,
    TermsOfService,
    PrivacyPolicy,
    Website,
    Version,
    UpdateApp,
    Wallets,
    Security,
    Notifications,
    Preferences,
    WalletConnect,
    Support,
    Rewards,
    AboutUs,
    Developer,
    Authentication,
    LockPeriod,
    PrivacyLock,
    HideBalance,
    Currency,
    Language,
    Appearance,
    Networks,
    Contacts,
    Perpetuals,
    PerpetualLeverage,
    PerpetualTakeProfit,
    PerpetualStopLoss,
    DailyVolume,
    OpenInterest,
    FundingApr,
    StakeApr,
    LockTime,
    MinimumAmount,
    Validator,
    Provider,
    Status,
    ActiveIn,
    AvailableIn,
    Date,
    Memo,
    Resource,
    Price,
    Pnl,
    Pin,
    Unpin,
    AddToWallet,
    PriceAlerts,
    Energy,
    Bandwidth,
}

/// The footer of a section of a list screen.
#[derive(Debug, Clone, Copy, PartialEq, Eq)]
pub enum GemListSectionFooter {
    Blank,
    Authentication,
}

/// Where a link opens.
#[derive(Debug, Clone, Copy, PartialEq, Eq)]
pub enum GemUrlTarget {
    InApp,
    External,
}

/// The icon of a row of a list screen.
#[derive(Debug, Clone, Copy, PartialEq, Eq)]
pub enum GemListRowIcon {
    Blank,
    AppLogo,
    Wallets,
    Security,
    Notifications,
    Preferences,
    WalletConnect,
    Support,
    Rewards,
    AboutUs,
    Developer,
    Currency,
    Language,
    Appearance,
    Networks,
    Contacts,
    Perpetuals,
    Pin,
    Unpin,
    AddToWallet,
}

/// How many digits a formatted number shows.
#[derive(Debug, Clone, Copy, PartialEq, Eq)]
pub enum GemPrecision {
    Fraction { min: u32, max: u32 },
    Significant { max: u32 },
}

/// How an amount of money is formatted.
#[derive(Debug, Clone, Copy, PartialEq, Eq)]
pub enum GemCurrencyStyle {
    Currency,
    Fiat,
    Abbreviated,
}

/// A page of the project's public site or of a store, named by what it is;
/// its address is the app's to fill in.
#[derive(Debug, Clone, Copy, PartialEq, Eq)]
pub enum PublicUrl {
    TermsOfService,
    PrivacyPolicy,
    Website,
    AppStore,
    PlayStore,
    APK,
}

/// A store the app is distributed through.
#[derive(Debug, Clone, Copy, PartialEq, Eq)]
pub enum PlatformStore {
    AppStore,
    GooglePlay,
    Fdroid,
    Huawei,
    SolanaStore,
    SamsungStore,
    ApkUniversal,
    Emerald,
    Local,
}

/// A release of the app in a store.
#[derive(Debug, Clone, PartialEq, Eq)]
pub struct Release {
    pub store: PlatformStore,
    pub version: String,
    pub upgrade_required: bool,
}

impl Release {
    /// The release `version` in `store`.
    pub fn new(store: PlatformStore, version: String, upgrade_required: bool) -> (r: Release)
        ensures
            r.store == store,
            r.version == version,
            r.upgrade_required == upgrade_required,
    {
        Release { store, version, upgrade_required }
    }
}

/// A row of a list screen, of the kinds whose content is plain values.
#[derive(Debug, Clone, PartialEq, Eq)]
#[allow(inconsistent_fields)]
pub enum GemListRow {
    Text { title: GemListRowTitle, value: String },
    Link { title: GemListRowTitle, value: Option<String>, icon: GemListRowIcon },
    Url { title: GemListRowTitle, value: Option<String>, icon: GemListRowIcon, url: PublicUrl, target: GemUrlTarget },
    Toggle { title: GemListRowTitle, value: Option<String>, icon: GemListRowIcon, is_on: bool },
    Picker { title: GemListRowTitle, value: String, icon: GemListRowIcon },
    /// The project's community links.
    Social,
    Loading,
}

/// A section of a list screen.
#[derive(Debug, Clone, PartialEq, Eq)]
pub struct GemListSection {
    pub title: GemListSectionTitle,
    pub footer: GemListSectionFooter,
    pub rows: Vec<GemListRow>,
}

} // verus!
