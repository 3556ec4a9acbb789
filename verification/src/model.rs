//! The data model of the status API: the platform and language selectors with
//! their fixed short codes, the per-language translation table attached to
//! news items, and the records the endpoints serve.

use vstd::prelude::*;

use crate::table::{
    assoc_map, distinct_keys, lemma_assoc_map_absent, lemma_assoc_map_index,
    lemma_assoc_map_push, lemma_assoc_map_update,
};

verus! {

/// Target game platform. Each platform maps to exactly one fixed lowercase
/// short code, used as a URL path element; the mapping is total.
///
/// Defaults to `PlatformType::PC`.
#[derive(PartialEq, Eq, Structural, Clone, Copy, Debug, Hash)]
pub enum PlatformType {
    PC,
    PS4,
    XBox,
    Switch,
}

impl PlatformType {
    /// The platform's short code, as a sequence of characters.
    pub open spec fn spec_code(self) -> Seq<char> {
        match self {
            PlatformType::PC => "pc"@,
            PlatformType::PS4 => "ps4"@,
            PlatformType::XBox => "xb1"@,
            PlatformType::Switch => "swi"@,
        }
    }

    /// The platform's short code.
    pub fn code(&self) -> (r: &'static str)
        ensures
            r@ == self.spec_code(),
    {
        match self {
            PlatformType::PC => "pc",
            PlatformType::PS4 => "ps4",
            PlatformType::XBox => "xb1",
            PlatformType::Switch => "swi",
        }
    }
}

impl Default for PlatformType {
    /// The default platform is the PC.
    fn default() -> (r: Self)
        ensures
            r == PlatformType::PC,
    {
        PlatformType::PC
    }
}

/// Display language. Each language maps to exactly one fixed two-letter code,
/// used as a URL query element; the mapping is total.
///
/// Defaults to `Language::English`.
#[derive(PartialEq, Eq, Structural, Clone, Copy, Debug, Hash)]
pub enum Language {
    English,
    German,
    Spanish,
    French,
    Italian,
    Korean,
    Polish,
    Portuguese,
    Russian,
    Chinese,
    Ukrainian,
}

impl Language {
    /// The language's two-letter code, as a sequence of characters.
    pub open spec fn spec_code(self) -> Seq<char> {
        match self {
            Language::English => "en"@,
            Language::German => "de"@,
            Language::Spanish => "es"@,
            Language::French => "fr"@,
            Language::Italian => "it"@,
            Language::Korean => "ko"@,
            Language::Polish => "pl"@,
            Language::Portuguese => "pt"@,
            Language::Russian => "ru"@,
            Language::Chinese => "zh"@,
            Language::Ukrainian => "uk"@,
        }
    }

    /// The language's two-letter code.
    pub fn code(&self) -> (r: &'static str)
        ensures
            r@ == self.spec_code(),
    {
        match self {
            Language::English => "en",
            Language::German => "de",
            Language::Spanish => "es",
            Language::French => "fr",
            Language::Italian => "it",
            Language::Korean => "ko",
            Language::Polish => "pl",
            Language::Portuguese => "pt",
            Language::Russian => "ru",
            Language::Chinese => "zh",
            Language::Ukrainian => "uk",
        }
    }
}

impl Default for Language {
    /// The default language is English.
    fn default() -> (r: Self)
        ensures
            r == Language::English,
    {
        Language::English
    }
}

/// Localised message texts keyed by language code, as attached to a news item.
/// Reads as a map from code to text; inserting under a present code replaces
/// the text.
#[derive(Debug, PartialEq)]
pub struct Translations {
    pairs: Vec<(String, String)>,
}

impl Clone for Translations {
    /// A clone reads as the same map.
    fn clone(&self) -> (r: Self)
        ensures
            r@ == self@,
    {
        proof {
            use_type_invariant(&*self);
        }
        let n = self.pairs.len();
        let mut pairs: Vec<(String, String)> = Vec::new();
        let mut i: usize = 0;
        while i < n
            invariant
                n == self.pairs@.len(),
                0 <= i <= n,
                pairs@.len() == i,
                forall|j: int| 0 <= j < i ==> pairs@[j] == self.pairs@[j],
            decreases n - i,
        {
            pairs.push((self.pairs[i].0.clone(), self.pairs[i].1.clone()));
            i += 1;
        }
        proof {
            assert(pairs@ =~= self.pairs@);
        }
        Translations { pairs }
    }
}

impl View for Translations {
    type V = Map<Seq<char>, Seq<char>>;

    closed spec fn view(&self) -> Map<Seq<char>, Seq<char>> {
        assoc_map(self.pairs@)
    }
}

impl Translations {
    #[verifier::type_invariant]
    spec fn wf(self) -> bool {
        distinct_keys(self.pairs@)
    }

    /// An empty translation table.
    pub fn new() -> (r: Self)
        ensures
            r@ == Map::<Seq<char>, Seq<char>>::empty(),
    {
        Translations { pairs: Vec::new() }
    }

    /// Adds the text stored under a language code, replacing any prior text
    /// under the same code.
    pub fn insert(&mut self, code: String, text: String)
        ensures
            final(self)@ == old(self)@.insert(code@, text@),
    {
        proof {
            use_type_invariant(&*self);
        }
        let mut pairs: Vec<(String, String)> = Vec::new();
        core::mem::swap(&mut pairs, &mut self.pairs);
        let n = pairs.len();
        let mut i: usize = 0;
        while i < n
            invariant
                n == pairs@.len(),
                0 <= i <= n,
                forall|j: int| 0 <= j < i ==> (#[trigger] pairs@[j]).0@ != code@,
                distinct_keys(pairs@),
                pairs@ == old(self).pairs@,
            decreases n - i,
        {
            if pairs[i].0 == code {
                proof {
                    lemma_assoc_map_update(pairs@, i as int, (code, text));
                }
                pairs[i] = (code, text);
                self.pairs = pairs;
                return ;
            }
            i += 1;
        }
        proof {
            lemma_assoc_map_push(pairs@, (code, text));
        }
        pairs.push((code, text));
        self.pairs = pairs;
    }

    /// The text stored for the language, if its code has one.
    pub fn get(&self, lang: Language) -> (r: Option<&String>)
        ensures
            match r {
                Some(v) => self@.contains_key(lang.spec_code()) && v@ == self@[lang.spec_code()],
                None => !self@.contains_key(lang.spec_code()),
            },
    {
        proof {
            use_type_invariant(&*self);
        }
        let code = lang.code().to_owned();
        let n = self.pairs.len();
        let mut i: usize = 0;
        while i < n
            invariant
                n == self.pairs@.len(),
                0 <= i <= n,
                forall|j: int| 0 <= j < i ==> (#[trigger] self.pairs@[j]).0@ != lang.spec_code(),
                distinct_keys(self.pairs@),
                code@ == lang.spec_code(),
            decreases n - i,
        {
            if self.pairs[i].0 == code {
                proof {
                    lemma_assoc_map_index(self.pairs@, i as int);
                }
                return Some(&self.pairs[i].1);
            }
            i += 1;
        }
        proof {
            lemma_assoc_map_absent(self.pairs@, lang.spec_code());
        }
        None
    }
}

// ---------------------------------------------------------------------------
// The records the endpoints serve. The cache holds them as opaque serialized
// payloads; decoding the payload into these records is the caller's business.
// ---------------------------------------------------------------------------

#[derive(Debug, Clone, PartialEq)]
pub struct News {
    pub id: String,
    pub message: String,
    pub link: String,
    pub image_link: String,
    pub priority: bool,
    pub date: String,
    pub eta: String,
    pub update: bool,
    pub prime_access: bool,
    pub stream: bool,
    pub translations: Translations,
    pub as_string: String,
    pub start_date: Option<String>,
    pub end_date: Option<String>,
}

#[derive(Debug, Clone, PartialEq)]
pub struct Event {
    pub id: String,
    pub activation: String,
    pub start_string: String,
    pub expiry: String,
    pub active: bool,
    pub maximum_score: i64,
    pub current_score: i64,
    pub small_interval: Option<i64>,
    pub large_interval: Option<i64>,
    pub description: String,
    pub tooltip: String,
    pub node: String,
    pub concurrent_nodes: Vec<String>,
    pub score_loc_tag: String,
    pub rewards: Vec<Reward>,
    pub expired: bool,
    pub health: i64,
    pub interim_steps: Vec<InterimStep>,
    pub progress_steps: Vec<ProgressStep>,
    pub is_personal: bool,
    pub is_community: bool,
    pub region_drops: Vec<String>,
    pub archwing_drops: Vec<String>,
    pub as_string: String,
    pub completion_bonuses: Vec<i64>,
    pub score_var: String,
    pub alt_expiry: String,
    pub alt_activation: String,
    pub next_alt: NextAlt,
}

#[derive(Debug, Clone, PartialEq)]
pub struct ProgressStep {
    pub step_type: String,
    progress_amt: i64,
}

#[derive(Debug, Clone, PartialEq)]
pub struct Reward {
    pub items: Vec<String>,
    pub counted_items: Vec<CountedItem>,
    pub credits: i64,
    pub as_string: String,
    pub item_string: String,
    pub thumbnail: String,
    pub color: i64,
}

#[derive(Debug, Clone, PartialEq)]
pub struct InterimStep {
    pub goal: i64,
    pub reward: Reward,
    pub message: Message,
}

#[derive(Debug, Clone, PartialEq)]
pub struct Message {}

#[derive(Debug, Clone, PartialEq)]
pub struct NextAlt {
    pub expiry: String,
    pub activation: String,
}

#[derive(Debug, Clone, PartialEq)]
pub struct Alert {
    pub id: String,
    pub activation: String,
    pub start_string: String,
    pub expiry: String,
    pub active: bool,
    pub mission: Mission,
    pub eta: String,
    pub reward_types: Vec<String>,
}

#[derive(Debug, Clone, PartialEq)]
pub struct Mission {
    pub node: String,
    pub node_key: String,
    pub type_field: String,
    pub type_key: String,
    pub faction: String,
    pub faction_key: String,
    pub reward: Reward,
    pub min_enemy_level: i64,
    pub max_enemy_level: i64,
    pub nightmare: bool,
    pub archwing_required: bool,
    pub is_sharkwing: bool,
    pub level_override: String,
    pub enemy_spec: String,
    pub advanced_spawners: Vec<String>,
    pub required_items: Vec<String>,
    pub level_auras: Vec<String>,
}

#[derive(Debug, Clone, PartialEq)]
pub struct Sortie {
    pub id: String,
    pub activation: String,
    pub start_string: String,
    pub expiry: String,
    pub active: bool,
    pub reward_pool: String,
    pub variants: Vec<Variant>,
    pub missions: Vec<Mission>,
    pub boss: String,
    pub faction: String,
    pub faction_key: String,
    pub expired: bool,
    pub eta: String,
}

#[derive(Debug, Clone, PartialEq)]
pub struct Variant {
    pub mission_type: String,
    pub mission_type_key: String,
    pub modifier: String,
    pub modifier_description: String,
    pub node: String,
    pub node_key: String,
}

#[derive(Debug, Clone, PartialEq)]
pub struct SyndicateMission {
    pub id: String,
    pub activation: String,
    pub start_string: String,
    pub expiry: String,
    pub active: bool,
    pub syndicate: String,
    pub syndicate_key: String,
    pub nodes: Vec<String>,
    pub jobs: Vec<Job>,
    pub eta: String,
}

#[derive(Debug, Clone, PartialEq)]
pub struct Job {
    pub id: String,
    pub reward_pool: Vec<String>,
    pub type_field: String,
    pub enemy_levels: Vec<i64>,
    pub standing_stages: Vec<i64>,
    pub min_mr: u8,
    pub expiry: String,
    pub time_bound: Option<String>,
    pub is_vault: Option<bool>,
    pub location_tag: Option<String>,
    pub time_boound: Option<String>,
}

#[derive(Debug, Clone, PartialEq)]
pub struct Fissure {
    pub id: String,
    pub activation: String,
    pub start_string: String,
    pub expiry: String,
    pub active: bool,
    pub node: String,
    pub mission_type: String,
    pub mission_key: String,
    pub enemy: String,
    pub enemy_key: String,
    pub node_key: String,
    pub tier: String,
    pub tier_num: u8,
    pub expired: bool,
    pub eta: String,
    pub is_storm: bool,
    pub is_hard: bool,
}

#[derive(Debug, Clone, PartialEq)]
pub struct FlashSale {
    pub item: String,
    pub expiry: String,
    pub activation: String,
    pub discount: i64,
    pub regular_override: Option<i64>,
    pub premium_override: i64,
    pub is_shown_in_market: bool,
    pub id: String,
    pub expired: bool,
    pub eta: String,
}

#[derive(Debug, Clone, PartialEq)]
pub struct Attacker {
    pub reward: Option<Reward>,
    pub faction: String,
    pub faction_key: String,
}

#[derive(Debug, Clone, PartialEq)]
pub struct CountedItem {
    pub count: i64,
    pub type_field: String,
    pub key: String,
}

#[derive(Debug, Clone, PartialEq)]
pub struct Defender {
    pub reward: Reward,
    pub faction: String,
    pub faction_key: String,
}

#[derive(Debug, Clone, PartialEq)]
pub struct VoidTrader {
    pub id: String,
    pub activation: String,
    pub start_string: String,
    pub expiry: String,
    pub active: bool,
    pub character: String,
    pub location: String,
    pub inventory: Vec<VoidItem>,
    pub ps_id: String,
    pub end_string: String,
    pub initial_start: String,
}

#[derive(Debug, Clone, PartialEq)]
pub struct VoidItem {
    pub item: String,
    pub ducats: i64,
    pub credits: i64,
}

#[derive(Debug, Clone, PartialEq)]
pub struct DailyDeal {
    pub item: String,
    pub unique_name: String,
    pub expiry: String,
    pub activation: String,
    pub original_price: i64,
    pub sale_price: i64,
    pub total: i64,
    pub sold: i64,
    pub id: String,
    pub eta: String,
    pub discount: i64,
}

#[derive(Debug, Clone, PartialEq)]
pub struct Simaris {
    pub target: String,
    pub is_target_active: bool,
    pub as_string: String,
}

#[derive(Debug, Clone, PartialEq)]
pub struct ConclaveChallenge {
    pub id: String,
    pub expiry: String,
    pub activation: String,
    pub amount: i64,
    pub mode: String,
    pub category: String,
    pub eta: String,
    pub expired: bool,
    pub daily: bool,
    pub root_challenge: bool,
    pub end_string: String,
    pub description: String,
    pub title: String,
    pub standing: i64,
    pub as_string: String,
}

#[derive(Debug, Clone, PartialEq)]
pub struct EarthCycle {
    pub id: String,
    pub expiry: String,
    pub activation: String,
    pub is_day: bool,
    pub state: String,
    pub time_left: String,
}

#[derive(Debug, Clone, PartialEq)]
pub struct CetusCycle {
    pub id: String,
    pub expiry: String,
    pub activation: String,
    pub is_day: bool,
    pub state: String,
    pub time_left: String,
    pub is_cetus: bool,
    pub short_string: String,
}

#[derive(Debug, Clone, PartialEq)]
pub struct CambionCycle {
    pub id: String,
    pub activation: String,
    pub expiry: String,
    pub time_left: String,
    pub state: String,
    pub active: String,
}

#[derive(Debug, Clone, PartialEq)]
pub struct ZarimanCycle {
    pub id: String,
    pub expiry: String,
    pub activation: String,
    pub is_corpus: bool,
    pub state: String,
    pub time_left: String,
    pub short_string: String,
}

#[derive(Debug, Clone, PartialEq)]
pub struct ConstructionProgress {
    pub id: String,
    pub fomorian_progress: String,
    pub razorback_progress: String,
    pub unknown_progress: String,
}

#[derive(Debug, Clone, PartialEq)]
pub struct VallisCycle {
    pub id: String,
    pub expiry: String,
    pub is_warm: bool,
    pub state: String,
    pub activation: String,
    pub time_left: String,
    pub short_string: String,
}

#[derive(Debug, Clone, PartialEq)]
pub struct Nightwave {
    pub id: String,
    pub activation: String,
    pub start_string: String,
    pub expiry: String,
    pub active: bool,
    pub season: i64,
    pub tag: String,
    pub phase: i64,
    pub params: Params,
    pub active_challenges: Vec<ActiveChallenge>,
    pub reward_types: Vec<String>,
}

#[derive(Debug, Clone, PartialEq)]
pub struct Params {}

#[derive(Debug, Clone, PartialEq)]
pub struct ActiveChallenge {
    pub id: String,
    pub activation: String,
    pub start_string: String,
    pub expiry: String,
    pub active: bool,
    pub is_daily: bool,
    pub is_elite: bool,
    pub desc: String,
    pub title: String,
    pub reputation: i64,
    pub is_permanent: bool,
}

#[derive(Debug, Clone, PartialEq)]
pub struct Arbitration {
    pub activation: String,
    pub expiry: String,
    pub enemy: String,
    pub type_field: String,
    pub archwing: bool,
    pub sharkwing: bool,
    pub node: String,
    pub node_key: String,
    pub type_key: String,
    pub id: String,
    pub expired: bool,
}

#[derive(Debug, Clone, PartialEq)]
pub struct SentientOutposts {
    pub mission: SentientMission,
    pub activation: String,
    pub expiry: String,
    pub active: bool,
    pub id: String,
}

#[derive(Debug, Clone, PartialEq)]
pub struct SentientMission {
    pub node: String,
    pub faction: String,
    pub type_field: String,
}

#[derive(Debug, Clone, PartialEq)]
pub struct SteelPath {
    pub current_reward: CurrentReward,
    pub activation: String,
    pub expiry: String,
    pub remaining: String,
    pub rotation: Vec<Rotation>,
    pub evergreens: Vec<Evergreen>,
    pub incursions: Incursions,
}

#[derive(Debug, Clone, PartialEq)]
pub struct CurrentReward {
    pub name: String,
    pub cost: i64,
}

#[derive(Debug, Clone, PartialEq)]
pub struct Rotation {
    pub name: String,
    pub cost: i64,
}

#[derive(Debug, Clone, PartialEq)]
pub struct Evergreen {
    pub name: String,
    pub cost: i64,
}

#[derive(Debug, Clone, PartialEq)]
pub struct Incursions {
    pub id: String,
    pub activation: String,
    pub expiry: String,
}

#[derive(Debug, Clone, PartialEq)]
pub struct VaultTrader {
    pub id: String,
    pub activation: String,
    pub start_string: String,
    pub expiry: String,
    pub active: bool,
    pub character: String,
    pub location: String,
    pub inventory: Vec<Inventory>,
    pub ps_id: String,
    pub end_string: String,
    pub initial_start: String,
    pub completed: bool,
    pub schedule: Vec<Schedule>,
}

#[derive(Debug, Clone, PartialEq)]
pub struct Inventory {
    pub unique_name: String,
    pub item: String,
    pub ducats: Option<i64>,
    pub credits: Option<i64>,
}

#[derive(Debug, Clone, PartialEq)]
pub struct Schedule {
    pub expiry: String,
    pub item: Option<String>,
}

#[derive(Debug, Clone, PartialEq)]
pub struct ArchonHunt {
    pub id: String,
    pub activation: String,
    pub start_string: String,
    pub expiry: String,
    pub active: bool,
    pub reward_pool: String,
    pub missions: Vec<ArchonHuntMission>,
    pub boss: String,
    pub faction: String,
    pub faction_key: String,
    pub expired: bool,
    pub eta: String,
}

#[derive(Debug, Clone, PartialEq)]
pub struct ArchonHuntMission {
    pub node: String,
    pub node_key: String,
    pub type_field: String,
    pub type_key: String,
    pub nightmare: bool,
    pub archwing_required: bool,
    pub is_sharkwing: bool,
    pub advanced_spawners: Vec<String>,
    pub required_items: Vec<String>,
    pub level_auras: Vec<String>,
}

#[derive(Debug, Clone, PartialEq)]
pub struct DuviriCycle {
    pub id: String,
    pub activation: String,
    pub expiry: String,
    pub state: String,
    pub choices: Vec<Choice>,
}

#[derive(Debug, Clone, PartialEq)]
pub struct Choice {
    pub category: String,
    pub category_key: String,
    pub choices: Vec<String>,
}

#[derive(Debug, Clone, PartialEq)]
pub struct Kuva {
    pub id: String,
    pub activation: String,
    pub expiry: String,
    pub start_string: String,
    pub active: bool,
    pub node: String,
    pub enemy: String,
    pub enemy_key: String,
    pub kuva_type: String,
    pub type_key: String,
    pub archwing: bool,
    pub sharkwing: bool,
}

} // verus!
