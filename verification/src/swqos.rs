//! SWQOS (transaction landing service) identities, regions and configuration.

use vstd::prelude::*;

verus! {

/// Kind of trade a transaction performs.
#[derive(Debug, Clone, Copy, PartialEq, Eq, Structural, Hash)]
pub enum TradeType {
    Create,
    CreateAndBuy,
    Buy,
    Sell,
}

/// Position of a trade type in declaration order.
pub open spec fn trade_index(t: TradeType) -> int {
    match t {
        TradeType::Create => 0,
        TradeType::CreateAndBuy => 1,
        TradeType::Buy => 2,
        TradeType::Sell => 3,
    }
}

/// Display name of a trade type.
pub open spec fn trade_label(t: TradeType) -> Seq<char> {
    match t {
        TradeType::Create => "Create"@,
        TradeType::CreateAndBuy => "Create and Buy"@,
        TradeType::Buy => "Buy"@,
        TradeType::Sell => "Sell"@,
    }
}

impl TradeType {
    /// Position of this trade type in declaration order.
    pub fn index(&self) -> (r: usize)
        ensures
            r == trade_index(*self),
    {
        match self {
            TradeType::Create => 0,
            TradeType::CreateAndBuy => 1,
            TradeType::Buy => 2,
            TradeType::Sell => 3,
        }
    }

    /// Human-readable name ("Create", "Create and Buy", "Buy", "Sell").
    pub fn label(&self) -> (r: &'static str)
        ensures
            r@ == trade_label(*self),
    {
        match self {
            TradeType::Create => "Create",
            TradeType::CreateAndBuy => "Create and Buy",
            TradeType::Buy => "Buy",
            TradeType::Sell => "Sell",
        }
    }
}

/// Transaction landing services.
#[derive(Debug, Clone, Copy, PartialEq, Eq, Structural, Hash)]
pub enum SwqosType {
    Jito,
    NextBlock,
    ZeroSlot,
    Temporal,
    Bloxroute,
    Node1,
    FlashBlock,
    BlockRazor,
    Astralane,
    Stellium,
    Lightspeed,
    Soyas,
    Speedlanding,
    Helius,
    Default,
}

/// Number of SWQOS types.
pub const SWQOS_TYPE_COUNT: usize = 15;

/// Position of a SWQOS type in declaration order.
pub open spec fn swqos_index(t: SwqosType) -> int {
    match t {
        SwqosType::Jito => 0,
        SwqosType::NextBlock => 1,
        SwqosType::ZeroSlot => 2,
        SwqosType::Temporal => 3,
        SwqosType::Bloxroute => 4,
        SwqosType::Node1 => 5,
        SwqosType::FlashBlock => 6,
        SwqosType::BlockRazor => 7,
        SwqosType::Astralane => 8,
        SwqosType::Stellium => 9,
        SwqosType::Lightspeed => 10,
        SwqosType::Soyas => 11,
        SwqosType::Speedlanding => 12,
        SwqosType::Helius => 13,
        SwqosType::Default => 14,
    }
}

/// All SWQOS types in declaration order.
pub open spec fn all_swqos_types() -> Seq<SwqosType> {
    seq![
        SwqosType::Jito,
        SwqosType::NextBlock,
        SwqosType::ZeroSlot,
        SwqosType::Temporal,
        SwqosType::Bloxroute,
        SwqosType::Node1,
        SwqosType::FlashBlock,
        SwqosType::BlockRazor,
        SwqosType::Astralane,
        SwqosType::Stellium,
        SwqosType::Lightspeed,
        SwqosType::Soyas,
        SwqosType::Speedlanding,
        SwqosType::Helius,
        SwqosType::Default,
    ]
}

/// Every SWQOS type sits in `all_swqos_types` at its own index.
pub proof fn lemma_all_swqos_types_indexed(t: SwqosType)
    ensures
        0 <= swqos_index(t) < 15,
        all_swqos_types()[swqos_index(t)] == t,
        all_swqos_types().len() == 15,
{
}

impl SwqosType {
    /// All SWQOS types in declaration order.
    pub fn values() -> (r: Vec<Self>)
        ensures
            r@ == all_swqos_types(),
    {
        let r = vec![
            Self::Jito,
            Self::NextBlock,
            Self::ZeroSlot,
            Self::Temporal,
            Self::Bloxroute,
            Self::Node1,
            Self::FlashBlock,
            Self::BlockRazor,
            Self::Astralane,
            Self::Stellium,
            Self::Lightspeed,
            Self::Soyas,
            Self::Speedlanding,
            Self::Helius,
            Self::Default,
        ];
        assert(r@ =~= all_swqos_types());
        r
    }

    /// Position of this type in declaration order.
    pub fn index(&self) -> (r: usize)
        ensures
            r == swqos_index(*self),
    {
        match self {
            SwqosType::Jito => 0,
            SwqosType::NextBlock => 1,
            SwqosType::ZeroSlot => 2,
            SwqosType::Temporal => 3,
            SwqosType::Bloxroute => 4,
            SwqosType::Node1 => 5,
            SwqosType::FlashBlock => 6,
            SwqosType::BlockRazor => 7,
            SwqosType::Astralane => 8,
            SwqosType::Stellium => 9,
            SwqosType::Lightspeed => 10,
            SwqosType::Soyas => 11,
            SwqosType::Speedlanding => 12,
            SwqosType::Helius => 13,
            SwqosType::Default => 14,
        }
    }
}

/// Providers disabled even when configured (NextBlock is disabled by default).
pub open spec fn spec_blacklisted(t: SwqosType) -> bool {
    t == SwqosType::NextBlock
}

/// Whether a provider is on the blacklist.
pub fn swqos_blacklisted(t: SwqosType) -> (r: bool)
    ensures
        r == spec_blacklisted(t),
{
    t == SwqosType::NextBlock
}

/// Regions a provider endpoint can be chosen from.
#[derive(Debug, Clone, Copy, PartialEq, Eq, Structural, Hash)]
pub enum SwqosRegion {
    NewYork,
    Frankfurt,
    Amsterdam,
    SLC,
    Tokyo,
    London,
    LosAngeles,
    Default,
}

/// Number of regions.
pub const SWQOS_REGION_COUNT: usize = 8;

/// Position of a region in declaration order (its index in an endpoint table).
pub open spec fn region_index(r: SwqosRegion) -> int {
    match r {
        SwqosRegion::NewYork => 0,
        SwqosRegion::Frankfurt => 1,
        SwqosRegion::Amsterdam => 2,
        SwqosRegion::SLC => 3,
        SwqosRegion::Tokyo => 4,
        SwqosRegion::London => 5,
        SwqosRegion::LosAngeles => 6,
        SwqosRegion::Default => 7,
    }
}

impl SwqosRegion {
    /// Position of this region in declaration order.
    pub fn index(&self) -> (r: usize)
        ensures
            r == region_index(*self),
    {
        match self {
            SwqosRegion::NewYork => 0,
            SwqosRegion::Frankfurt => 1,
            SwqosRegion::Amsterdam => 2,
            SwqosRegion::SLC => 3,
            SwqosRegion::Tokyo => 4,
            SwqosRegion::London => 5,
            SwqosRegion::LosAngeles => 6,
            SwqosRegion::Default => 7,
        }
    }
}

/// Configuration of one landing service: credentials, region and optional custom URL.
#[derive(Debug, Clone)]
pub enum SwqosConfig {
    Default(String),
    /// Jito(uuid, region, custom_url)
    Jito(String, SwqosRegion, Option<String>),
    /// NextBlock(api_token, region, custom_url)
    NextBlock(String, SwqosRegion, Option<String>),
    /// Bloxroute(api_token, region, custom_url)
    Bloxroute(String, SwqosRegion, Option<String>),
    /// Temporal(api_token, region, custom_url)
    Temporal(String, SwqosRegion, Option<String>),
    /// ZeroSlot(api_token, region, custom_url)
    ZeroSlot(String, SwqosRegion, Option<String>),
    /// Node1(api_token, region, custom_url)
    Node1(String, SwqosRegion, Option<String>),
    /// FlashBlock(api_token, region, custom_url)
    FlashBlock(String, SwqosRegion, Option<String>),
    /// BlockRazor(api_token, region, custom_url)
    BlockRazor(String, SwqosRegion, Option<String>),
    /// Astralane(api_token, region, custom_url)
    Astralane(String, SwqosRegion, Option<String>),
    /// Stellium(api_token, region, custom_url)
    Stellium(String, SwqosRegion, Option<String>),
    /// Lightspeed(api_key, region, custom_url)
    Lightspeed(String, SwqosRegion, Option<String>),
    /// Soyas(api_token, region, custom_url)
    Soyas(String, SwqosRegion, Option<String>),
    /// Speedlanding(api_key, region, custom_url)
    Speedlanding(String, SwqosRegion, Option<String>),
    /// Helius(api_key, region, custom_url, swqos_only)
    Helius(String, SwqosRegion, Option<String>, Option<bool>),
}

fn clone_url(u: &Option<String>) -> (r: Option<String>)
    ensures
        r == *u,
{
    match u {
        Some(s) => Some(s.clone()),
        None => None,
    }
}

/// The service a configuration selects.
pub open spec fn spec_config_type(c: SwqosConfig) -> SwqosType {
    match c {
        SwqosConfig::Default(_) => SwqosType::Default,
        SwqosConfig::Jito(_, _, _) => SwqosType::Jito,
        SwqosConfig::NextBlock(_, _, _) => SwqosType::NextBlock,
        SwqosConfig::Bloxroute(_, _, _) => SwqosType::Bloxroute,
        SwqosConfig::Temporal(_, _, _) => SwqosType::Temporal,
        SwqosConfig::ZeroSlot(_, _, _) => SwqosType::ZeroSlot,
        SwqosConfig::Node1(_, _, _) => SwqosType::Node1,
        SwqosConfig::FlashBlock(_, _, _) => SwqosType::FlashBlock,
        SwqosConfig::BlockRazor(_, _, _) => SwqosType::BlockRazor,
        SwqosConfig::Astralane(_, _, _) => SwqosType::Astralane,
        SwqosConfig::Stellium(_, _, _) => SwqosType::Stellium,
        SwqosConfig::Lightspeed(_, _, _) => SwqosType::Lightspeed,
        SwqosConfig::Soyas(_, _, _) => SwqosType::Soyas,
        SwqosConfig::Speedlanding(_, _, _) => SwqosType::Speedlanding,
        SwqosConfig::Helius(_, _, _, _) => SwqosType::Helius,
    }
}

/// Endpoint URLs of each service, one row per SWQOS type (by `swqos_index`) and
/// one column per region (by `region_index`).
pub struct EndpointTable {
    pub rows: Vec<Vec<String>>,
}

impl EndpointTable {
    /// Every service has a row, and every row a URL for each region.
    pub open spec fn well_formed(&self) -> bool {
        &&& self.rows@.len() == 15
        &&& forall|i: int| 0 <= i < 15 ==> #[trigger] self.rows@[i]@.len() == 8
    }

    /// The endpoint listed for a service and region.
    pub open spec fn entry(&self, t: SwqosType, r: SwqosRegion) -> Seq<char> {
        self.rows@[swqos_index(t)]@[region_index(r)]@
    }
}

/// The endpoint a service is reached at: the custom URL when one is given; none
/// (empty) for Lightspeed, which needs a custom URL, and for the default RPC;
/// otherwise the table's URL for the region.
pub open spec fn spec_endpoint(
    t: SwqosType,
    r: SwqosRegion,
    url: Option<String>,
    table: EndpointTable,
) -> Seq<char> {
    match url {
        Some(u) => u@,
        None => if t == SwqosType::Lightspeed || t == SwqosType::Default {
            Seq::empty()
        } else {
            table.entry(t, r)
        },
    }
}

impl SwqosConfig {
    /// The service this configuration selects.
    pub fn swqos_type(&self) -> (r: SwqosType)
        ensures
            r == spec_config_type(*self),
    {
        match self {
            SwqosConfig::Default(_) => SwqosType::Default,
            SwqosConfig::Jito(_, _, _) => SwqosType::Jito,
            SwqosConfig::NextBlock(_, _, _) => SwqosType::NextBlock,
            SwqosConfig::Bloxroute(_, _, _) => SwqosType::Bloxroute,
            SwqosConfig::Temporal(_, _, _) => SwqosType::Temporal,
            SwqosConfig::ZeroSlot(_, _, _) => SwqosType::ZeroSlot,
            SwqosConfig::Node1(_, _, _) => SwqosType::Node1,
            SwqosConfig::FlashBlock(_, _, _) => SwqosType::FlashBlock,
            SwqosConfig::BlockRazor(_, _, _) => SwqosType::BlockRazor,
            SwqosConfig::Astralane(_, _, _) => SwqosType::Astralane,
            SwqosConfig::Stellium(_, _, _) => SwqosType::Stellium,
            SwqosConfig::Lightspeed(_, _, _) => SwqosType::Lightspeed,
            SwqosConfig::Soyas(_, _, _) => SwqosType::Soyas,
            SwqosConfig::Speedlanding(_, _, _) => SwqosType::Speedlanding,
            SwqosConfig::Helius(_, _, _, _) => SwqosType::Helius,
        }
    }

    /// A copy of this configuration.
    pub fn clone_config(&self) -> (r: Self)
        ensures
            r == *self,
    {
        match self {
            SwqosConfig::Default(e) => SwqosConfig::Default(e.clone()),
            SwqosConfig::Jito(t, r, u) => SwqosConfig::Jito(t.clone(), *r, clone_url(u)),
            SwqosConfig::NextBlock(t, r, u) => SwqosConfig::NextBlock(t.clone(), *r, clone_url(u)),
            SwqosConfig::Bloxroute(t, r, u) => SwqosConfig::Bloxroute(t.clone(), *r, clone_url(u)),
            SwqosConfig::Temporal(t, r, u) => SwqosConfig::Temporal(t.clone(), *r, clone_url(u)),
            SwqosConfig::ZeroSlot(t, r, u) => SwqosConfig::ZeroSlot(t.clone(), *r, clone_url(u)),
            SwqosConfig::Node1(t, r, u) => SwqosConfig::Node1(t.clone(), *r, clone_url(u)),
            SwqosConfig::FlashBlock(t, r, u) => SwqosConfig::FlashBlock(t.clone(), *r, clone_url(u)),
            SwqosConfig::BlockRazor(t, r, u) => SwqosConfig::BlockRazor(t.clone(), *r, clone_url(u)),
            SwqosConfig::Astralane(t, r, u) => SwqosConfig::Astralane(t.clone(), *r, clone_url(u)),
            SwqosConfig::Stellium(t, r, u) => SwqosConfig::Stellium(t.clone(), *r, clone_url(u)),
            SwqosConfig::Lightspeed(t, r, u) => SwqosConfig::Lightspeed(t.clone(), *r, clone_url(u)),
            SwqosConfig::Soyas(t, r, u) => SwqosConfig::Soyas(t.clone(), *r, clone_url(u)),
            SwqosConfig::Speedlanding(t, r, u) => SwqosConfig::Speedlanding(t.clone(), *r, clone_url(u)),
            SwqosConfig::Helius(t, r, u, o) => SwqosConfig::Helius(t.clone(), *r, clone_url(u), *o),
        }
    }

    /// Whether the configured service is on the blacklist.
    pub fn is_blacklisted(&self) -> (r: bool)
        ensures
            r == spec_blacklisted(spec_config_type(*self)),
    {
        swqos_blacklisted(self.swqos_type())
    }

    /// The endpoint to send to for a service and region (see `spec_endpoint`).
    pub fn get_endpoint(
        swqos_type: SwqosType,
        region: SwqosRegion,
        url: Option<String>,
        table: &EndpointTable,
    ) -> (r: String)
        requires
            table.well_formed(),
        ensures
            r@ == spec_endpoint(swqos_type, region, url, *table),
    {
        if let Some(custom_url) = url {
            return custom_url;
        }
        if swqos_type == SwqosType::Lightspeed || swqos_type == SwqosType::Default {
            return String::new();
        }
        let row = &table.rows[swqos_type.index()];
        row[region.index()].clone()
    }
}


/// Credential, region and custom URL of a token-authenticated service configuration
/// (every variant but `Default` and `Helius`).
pub open spec fn token_parts(c: SwqosConfig) -> (String, SwqosRegion, Option<String>) {
    match c {
        SwqosConfig::Jito(t, r, u) => (t, r, u),
        SwqosConfig::NextBlock(t, r, u) => (t, r, u),
        SwqosConfig::Bloxroute(t, r, u) => (t, r, u),
        SwqosConfig::Temporal(t, r, u) => (t, r, u),
        SwqosConfig::ZeroSlot(t, r, u) => (t, r, u),
        SwqosConfig::Node1(t, r, u) => (t, r, u),
        SwqosConfig::FlashBlock(t, r, u) => (t, r, u),
        SwqosConfig::BlockRazor(t, r, u) => (t, r, u),
        SwqosConfig::Astralane(t, r, u) => (t, r, u),
        SwqosConfig::Stellium(t, r, u) => (t, r, u),
        SwqosConfig::Lightspeed(t, r, u) => (t, r, u),
        SwqosConfig::Soyas(t, r, u) => (t, r, u),
        SwqosConfig::Speedlanding(t, r, u) => (t, r, u),
        SwqosConfig::Helius(t, r, u, _) => (t, r, u),
        SwqosConfig::Default(e) => (e, SwqosRegion::Default, None),
    }
}

/// What it takes to build the client of one configured service.
#[derive(Debug, Clone)]
pub struct SwqosClientPlan {
    /// The service the client talks to.
    pub swqos_type: SwqosType,
    /// URL the client sends to (for the default client, the RPC URL).
    pub endpoint: String,
    /// The token of a token-authenticated service; the Helius API key when one is
    /// given; none for the default RPC client.
    pub credential: Option<String>,
    /// Helius only: route through SWQOS alone.
    pub swqos_only: bool,
}

/// The plan a configuration yields (see `SwqosConfig::plan_client`).
pub open spec fn spec_client_plan(c: SwqosConfig, table: EndpointTable, p: SwqosClientPlan) -> bool {
    &&& p.swqos_type == spec_config_type(c)
    &&& match c {
        SwqosConfig::Default(e) => p.endpoint@ == e@ && p.credential is None && !p.swqos_only,
        SwqosConfig::Helius(key, region, url, only) => {
            &&& p.endpoint@ == spec_endpoint(SwqosType::Helius, region, url, table)
            &&& p.credential == (if key@.len() == 0 { None } else { Some(key) })
            &&& p.swqos_only == (only == Some(true))
        },
        _ => {
            &&& p.endpoint@ == spec_endpoint(
                spec_config_type(c),
                token_parts(c).1,
                token_parts(c).2,
                table,
            )
            &&& p.credential == Some(token_parts(c).0)
            &&& !p.swqos_only
        },
    }
}

impl SwqosConfig {
    /// Decides which client a configuration needs and how it is reached: the
    /// endpoint (custom URL, or the table's URL for the region), the credential,
    /// and the Helius routing flag (`None` means not SWQOS-only).
    pub fn plan_client(self, table: &EndpointTable) -> (r: SwqosClientPlan)
        requires
            table.well_formed(),
        ensures
            spec_client_plan(self, *table, r),
    {
        let t = self.swqos_type();
        match self {
            SwqosConfig::Default(endpoint) => SwqosClientPlan {
                swqos_type: t,
                endpoint,
                credential: None,
                swqos_only: false,
            },
            SwqosConfig::Helius(api_key, region, url, swqos_only) => {
                let endpoint = SwqosConfig::get_endpoint(SwqosType::Helius, region, url, table);
                let credential = if api_key.as_str().is_empty() {
                    None
                } else {
                    Some(api_key)
                };
                let only = match swqos_only {
                    Some(b) => b,
                    None => false,
                };
                SwqosClientPlan { swqos_type: t, endpoint, credential, swqos_only: only }
            },
            SwqosConfig::Jito(token, region, url)
            | SwqosConfig::NextBlock(token, region, url)
            | SwqosConfig::Bloxroute(token, region, url)
            | SwqosConfig::Temporal(token, region, url)
            | SwqosConfig::ZeroSlot(token, region, url)
            | SwqosConfig::Node1(token, region, url)
            | SwqosConfig::FlashBlock(token, region, url)
            | SwqosConfig::BlockRazor(token, region, url)
            | SwqosConfig::Astralane(token, region, url)
            | SwqosConfig::Stellium(token, region, url)
            | SwqosConfig::Lightspeed(token, region, url)
            | SwqosConfig::Soyas(token, region, url)
            | SwqosConfig::Speedlanding(token, region, url) => {
                let endpoint = SwqosConfig::get_endpoint(t, region, url, table);
                SwqosClientPlan { swqos_type: t, endpoint, credential: Some(token), swqos_only: false }
            },
        }
    }
}

/// Keeps the configurations whose service is not blacklisted, in order.
pub open spec fn enabled_configs(cs: Seq<SwqosConfig>) -> Seq<SwqosConfig> {
    cs.filter(|c: SwqosConfig| !spec_blacklisted(spec_config_type(c)))
}

/// The configurations a trading infrastructure builds clients for: those whose
/// service is not blacklisted, in the order given.
pub fn enabled_swqos_configs(configs: &Vec<SwqosConfig>) -> (r: Vec<SwqosConfig>)
    ensures
        r@ == enabled_configs(configs@),
{
    let mut r: Vec<SwqosConfig> = Vec::new();
    let mut i: usize = 0;
    while i < configs.len()
        invariant
            i <= configs@.len(),
            r@ == enabled_configs(configs@.take(i as int)),
        decreases configs@.len() - i,
    {
        let c = configs[i].clone_config();
        proof {
            assert(configs@.take(i + 1) =~= configs@.take(i as int).push(configs@[i as int]));
            configs@.take(i as int).lemma_filter_push(
                configs@[i as int],
                |c: SwqosConfig| !spec_blacklisted(spec_config_type(c)),
            );
        }
        if !c.is_blacklisted() {
            r.push(c);
        }
        i = i + 1;
    }
    assert(configs@.take(configs@.len() as int) =~= configs@);
    r
}

} // verus!
