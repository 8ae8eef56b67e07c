//! The stored configuration of a guild and of its features.
use vstd::prelude::*;

verus! {

/// How a feature reads its list of channels or roles: as those it is off
/// in, or as the only ones it is on in.
#[derive(Clone, Copy, Debug, PartialEq, Eq, Structural)]
pub enum FeatureInversionMode {
    Blacklist,
    Whitelist,
}

impl FeatureInversionMode {
    /// The number that stands for the mode in storage.
    pub fn code(&self) -> (c: u8)
        ensures
            c == (match self {
                FeatureInversionMode::Blacklist => 0u8,
                FeatureInversionMode::Whitelist => 1u8,
            }),
    {
        match self {
            FeatureInversionMode::Blacklist => 0,
            FeatureInversionMode::Whitelist => 1,
        }
    }
}

impl Default for FeatureInversionMode {
    fn default() -> (m: Self)
        ensures
            m == FeatureInversionMode::Whitelist,
    {
        FeatureInversionMode::Whitelist
    }
}

/// What is done to a member who breaks a moderation rule.
#[derive(Clone, Copy, Debug, PartialEq, Eq, Structural)]
pub enum ViolationOption {
    Delete,
    Warn,
    Kick,
    Ban,
}

impl ViolationOption {
    /// The number that stands for the action in storage.
    pub fn code(&self) -> (c: u8)
        ensures
            c == (match self {
                ViolationOption::Delete => 0u8,
                ViolationOption::Warn => 1u8,
                ViolationOption::Kick => 2u8,
                ViolationOption::Ban => 3u8,
            }),
    {
        match self {
            ViolationOption::Delete => 0,
            ViolationOption::Warn => 1,
            ViolationOption::Kick => 2,
            ViolationOption::Ban => 3,
        }
    }
}

impl Default for ViolationOption {
    fn default() -> (v: Self)
        ensures
            v == ViolationOption::Delete,
    {
        ViolationOption::Delete
    }
}

/// The settings of link traversal in a guild.
#[derive(Debug)]
pub struct LinkTraversalModule {
    pub enabled: bool,
    pub channel_mode: FeatureInversionMode,
    pub role_mode: FeatureInversionMode,
    pub channels: Vec<u64>,
    pub roles: Vec<u64>,
}

impl Default for LinkTraversalModule {
    fn default() -> (m: Self)
        ensures
            !m.enabled,
            m.channel_mode == FeatureInversionMode::Whitelist,
            m.role_mode == FeatureInversionMode::Whitelist,
            m.channels@.len() == 0,
            m.roles@.len() == 0,
    {
        LinkTraversalModule {
            enabled: false,
            channel_mode: FeatureInversionMode::default(),
            role_mode: FeatureInversionMode::default(),
            channels: Vec::new(),
            roles: Vec::new(),
        }
    }
}

/// The warnings feature of a guild: when enabled, it offers `/warn` and
/// `/warnings` to members with the required permissions.
#[derive(Debug)]
pub struct WarningsModule {
    pub enabled: bool,
    pub required_permissions: u64,
}

/// The settings of automatic moderation in a guild.
#[derive(Debug)]
pub struct AutoModerationModule {
    pub enabled: bool,
    pub warn_threshold: u8,
    pub warn_threshold_hit_action: ViolationOption,
    pub warn_threshold_hit_exempt: Vec<u64>,
    pub warn_expiry_time: u64,
    pub regex_enabled: bool,
    pub regex_expressions: Vec<String>,
    pub regex_action: ViolationOption,
    pub regex_exempt: Vec<u64>,
    pub invite_enabled: bool,
    pub invite_action: ViolationOption,
    pub invite_exempt: Vec<u64>,
    pub mass_mention_enabled: bool,
    pub mass_mention_threshold: u8,
    pub mass_mention_action: ViolationOption,
    pub mass_mention_exempt: Vec<u64>,
    pub spam_enabled: bool,
    pub spam_threshold: u8,
    pub spam_timeframe: u8,
    pub spam_action: ViolationOption,
    pub profanity_enabled: bool,
    pub profanity_action: ViolationOption,
    pub profanity_exempt: Vec<u64>,
    pub profanity_words: Vec<String>,
}

/// Automatic moderation as a new guild has it: everything off, every
/// threshold 0, every list empty, every action `Delete`.
pub open spec fn is_default_auto_moderation(m: AutoModerationModule) -> bool {
    &&& !m.enabled && !m.regex_enabled && !m.invite_enabled
    &&& !m.mass_mention_enabled && !m.spam_enabled && !m.profanity_enabled
    &&& m.warn_threshold == 0 && m.warn_expiry_time == 0
    &&& m.mass_mention_threshold == 0 && m.spam_threshold == 0 && m.spam_timeframe == 0
    &&& m.warn_threshold_hit_action == ViolationOption::Delete
    &&& m.regex_action == ViolationOption::Delete
    &&& m.invite_action == ViolationOption::Delete
    &&& m.mass_mention_action == ViolationOption::Delete
    &&& m.spam_action == ViolationOption::Delete
    &&& m.profanity_action == ViolationOption::Delete
    &&& m.warn_threshold_hit_exempt@.len() == 0 && m.regex_expressions@.len() == 0
    &&& m.regex_exempt@.len() == 0 && m.invite_exempt@.len() == 0
    &&& m.mass_mention_exempt@.len() == 0 && m.profanity_exempt@.len() == 0
    &&& m.profanity_words@.len() == 0
}

impl Default for AutoModerationModule {
    fn default() -> (m: Self)
        ensures
            is_default_auto_moderation(m),
            !m.enabled,
            !m.regex_enabled,
            !m.invite_enabled,
            !m.mass_mention_enabled,
            !m.spam_enabled,
            !m.profanity_enabled,
            m.warn_threshold == 0,
            m.warn_expiry_time == 0,
            m.mass_mention_threshold == 0,
            m.spam_threshold == 0,
            m.spam_timeframe == 0,
            m.warn_threshold_hit_action == ViolationOption::Delete,
            m.regex_action == ViolationOption::Delete,
            m.invite_action == ViolationOption::Delete,
            m.mass_mention_action == ViolationOption::Delete,
            m.spam_action == ViolationOption::Delete,
            m.profanity_action == ViolationOption::Delete,
            m.warn_threshold_hit_exempt@.len() == 0,
            m.regex_expressions@.len() == 0,
            m.regex_exempt@.len() == 0,
            m.invite_exempt@.len() == 0,
            m.mass_mention_exempt@.len() == 0,
            m.profanity_exempt@.len() == 0,
            m.profanity_words@.len() == 0,
    {
        AutoModerationModule {
            enabled: false,
            warn_threshold: 0,
            warn_threshold_hit_action: ViolationOption::default(),
            warn_threshold_hit_exempt: Vec::new(),
            warn_expiry_time: 0,
            regex_enabled: false,
            regex_expressions: Vec::new(),
            regex_action: ViolationOption::default(),
            regex_exempt: Vec::new(),
            invite_enabled: false,
            invite_action: ViolationOption::default(),
            invite_exempt: Vec::new(),
            mass_mention_enabled: false,
            mass_mention_threshold: 0,
            mass_mention_action: ViolationOption::default(),
            mass_mention_exempt: Vec::new(),
            spam_enabled: false,
            spam_threshold: 0,
            spam_timeframe: 0,
            spam_action: ViolationOption::default(),
            profanity_enabled: false,
            profanity_action: ViolationOption::default(),
            profanity_exempt: Vec::new(),
            profanity_words: Vec::new(),
        }
    }
}

/// The features a guild can turn on, each a bit of `DBGuild::active_features`.
#[derive(Clone, Copy, Debug, PartialEq, Eq, Structural)]
pub enum Features {
    LinkTraversal,
    AutoModeration,
}

impl Features {
    /// The number that stands for the feature.
    pub fn code(&self) -> (c: u8)
        ensures
            c == (match self {
                Features::LinkTraversal => 1u8,
                Features::AutoModeration => 2u8,
            }),
    {
        match self {
            Features::LinkTraversal => 1,
            Features::AutoModeration => 2,
        }
    }
}

/// The settings of every feature of a guild.
#[derive(Debug)]
pub struct FeatureOptions {
    pub auto_moderation: AutoModerationModule,
    pub link_traversal: LinkTraversalModule,
}

/// Feature settings as a new guild has them.
pub open spec fn is_default_features(f: FeatureOptions) -> bool {
    &&& is_default_auto_moderation(f.auto_moderation)
    &&& !f.link_traversal.enabled
    &&& f.link_traversal.channel_mode == FeatureInversionMode::Whitelist
    &&& f.link_traversal.role_mode == FeatureInversionMode::Whitelist
    &&& f.link_traversal.channels@.len() == 0
    &&& f.link_traversal.roles@.len() == 0
}

impl Default for FeatureOptions {
    fn default() -> (f: Self)
        ensures
            is_default_features(f),
            !f.auto_moderation.enabled,
            !f.auto_moderation.regex_enabled,
            !f.auto_moderation.invite_enabled,
            !f.auto_moderation.mass_mention_enabled,
            !f.auto_moderation.spam_enabled,
            !f.auto_moderation.profanity_enabled,
            !f.link_traversal.enabled,
    {
        FeatureOptions {
            auto_moderation: AutoModerationModule::default(),
            link_traversal: LinkTraversalModule::default(),
        }
    }
}

/// What the stored record of a guild is made from.
#[derive(Debug)]
pub struct GuildSummary {
    pub id: u64,
    pub owner_id: u64,
    pub name: String,
    /// The URL of the guild's icon, when it has one.
    pub icon_url: Option<String>,
}

/// The stored record of a guild.
#[derive(Debug)]
pub struct DBGuild {
    pub id: u64,
    pub owner_id: u64,
    pub name: String,
    pub icon: String,
    pub active_features: u64,
    pub features: FeatureOptions,
}

impl DBGuild {
    /// The record of a guild that has just been added: its own id, owner,
    /// name and icon URL (empty without an icon), no feature active, and
    /// every feature in its default settings.
    pub fn to_default(guild: &GuildSummary) -> (g: DBGuild)
        ensures
            g.id == guild.id,
            g.owner_id == guild.owner_id,
            g.name == guild.name,
            g.icon@ == (match guild.icon_url {
                Some(u) => u@,
                None => Seq::<char>::empty(),
            }),
            g.active_features == 0,
            is_default_features(g.features),
            !g.features.auto_moderation.enabled,
            !g.features.auto_moderation.regex_enabled,
            !g.features.auto_moderation.invite_enabled,
            !g.features.auto_moderation.mass_mention_enabled,
            !g.features.auto_moderation.spam_enabled,
            !g.features.auto_moderation.profanity_enabled,
            g.features.auto_moderation.warn_threshold == 0,
            g.features.auto_moderation.regex_action == ViolationOption::Delete,
            !g.features.link_traversal.enabled,
            g.features.link_traversal.channel_mode == FeatureInversionMode::Whitelist,
            g.features.link_traversal.role_mode == FeatureInversionMode::Whitelist,
    {
        let icon = match &guild.icon_url {
            Some(u) => u.clone(),
            None => String::new(),
        };
        DBGuild {
            id: guild.id,
            owner_id: guild.owner_id,
            name: guild.name.clone(),
            icon,
            active_features: 0,
            features: FeatureOptions::default(),
        }
    }
}

} // verus!
