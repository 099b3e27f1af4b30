//! Relay configuration: the listening endpoint, the upstream connection
//! settings, and the switches that select which protocols and event kinds
//! are relayed.
//!
//! Reading and writing the configuration file is I/O and lives outside this
//! library; `load_or_default` takes the outcome of such a load attempt and
//! decides what configuration the relay runs with.

use vstd::prelude::*;
use vstd::string::*;

verus! {

/// Top-level relay configuration.
#[derive(Debug, Clone)]
pub struct Config {
    pub server: ServerConfig,
    pub grpc: GrpcConfig,
    pub protocols: ProtocolsConfig,
    pub events: EventsConfig,
}

/// Where the relay listens for client connections.
#[derive(Debug, Clone)]
pub struct ServerConfig {
    pub host: String,
    pub port: u16,
}

/// How the upstream event source is reached.
#[derive(Debug, Clone)]
pub struct GrpcConfig {
    pub endpoint: String,
    pub token: Option<String>,
    pub enable_metrics: bool,
    pub enable_tls: bool,
    pub connection_timeout_ms: u64,
    pub request_timeout_ms: u64,
}

/// Which upstream protocols are subscribed to.
#[derive(Debug, Clone)]
pub struct ProtocolsConfig {
    pub pumpfun: bool,
    pub pumpswap: bool,
    pub bonk: bool,
    pub raydium_amm_v4: bool,
    pub raydium_clmm: bool,
    pub raydium_cpmm: bool,
}

/// Which event kinds are relayed to clients.
#[derive(Debug, Clone)]
pub struct EventsConfig {
    pub block_meta: bool,
    pub bonk_trade: bool,
    pub bonk_pool_create: bool,
    pub bonk_migrate_amm: bool,
    pub pumpfun_trade: bool,
    pub pumpfun_create: bool,
    pub pumpfun_complete: bool,
    pub pumpfun_migrate: bool,
    pub pumpswap_buy: bool,
    pub pumpswap_sell: bool,
    pub pumpswap_create_pool: bool,
    pub pumpswap_pool_created: bool,
    pub pumpswap_trade: bool,
    pub pumpswap_liquidity_added: bool,
    pub pumpswap_liquidity_removed: bool,
    pub pumpswap_pool_updated: bool,
    pub pumpswap_fees_claimed: bool,
    pub raydium_cpmm_swap: bool,
    pub raydium_cpmm_deposit: bool,
    pub raydium_cpmm_withdraw: bool,
    pub raydium_cpmm_initialize: bool,
    pub raydium_clmm_swap: bool,
    pub raydium_clmm_create_pool: bool,
    pub raydium_clmm_open_position: bool,
    pub raydium_clmm_close_position: bool,
    pub raydium_clmm_increase_liquidity: bool,
    pub raydium_clmm_decrease_liquidity: bool,
    pub raydium_clmm_open_position_with_token_ext_nft: bool,
    pub raydium_clmm_collect_fee: bool,
    pub raydium_amm_v4_swap: bool,
    pub raydium_amm_v4_deposit: bool,
    pub raydium_amm_v4_withdraw: bool,
    pub raydium_amm_v4_initialize2: bool,
    pub raydium_amm_v4_withdraw_pnl: bool,
    pub orca_whirlpool_swap: bool,
    pub orca_whirlpool_liquidity_increased: bool,
    pub orca_whirlpool_liquidity_decreased: bool,
    pub orca_whirlpool_pool_initialized: bool,
    pub meteora_pools_swap: bool,
    pub meteora_pools_add_liquidity: bool,
    pub meteora_pools_remove_liquidity: bool,
    pub meteora_pools_bootstrap_liquidity: bool,
    pub meteora_pools_pool_created: bool,
    pub meteora_pools_set_pool_fees: bool,
    pub meteora_damm_v2_swap: bool,
    pub meteora_damm_v2_add_liquidity: bool,
    pub meteora_damm_v2_remove_liquidity: bool,
    pub meteora_damm_v2_initialize_pool: bool,
    pub meteora_damm_v2_create_position: bool,
    pub meteora_damm_v2_close_position: bool,
    pub meteora_damm_v2_claim_position_fee: bool,
    pub meteora_damm_v2_initialize_reward: bool,
    pub meteora_damm_v2_fund_reward: bool,
    pub meteora_damm_v2_claim_reward: bool,
    pub token_account: bool,
    pub nonce_account: bool,
    pub token_info: bool,
}

/// The built-in listening endpoint: localhost, port 9001.
pub open spec fn is_default_server(s: ServerConfig) -> bool {
    &&& s.host@ == "127.0.0.1"@
    &&& s.port == 9001
}

/// The built-in upstream settings: a public endpoint, no token, metrics and
/// TLS on, ten-second connect and thirty-second request timeouts.
pub open spec fn is_default_grpc(g: GrpcConfig) -> bool {
    &&& g.endpoint@ == "https://solana-yellowstone-grpc.publicnode.com:443"@
    &&& g.token is None
    &&& g.enable_metrics == true
    &&& g.enable_tls == true
    &&& g.connection_timeout_ms == 10000
    &&& g.request_timeout_ms == 30000
}

/// The built-in protocol selection: only pumpfun.
pub open spec fn is_default_protocols(p: ProtocolsConfig) -> bool {
    &&& p.pumpfun == true
    &&& p.pumpswap == false
    &&& p.bonk == false
    &&& p.raydium_amm_v4 == false
    &&& p.raydium_clmm == false
    &&& p.raydium_cpmm == false
}

/// The built-in event selection: only pumpfun trades and creations.
pub open spec fn is_default_events(e: EventsConfig) -> bool {
    &&& e.block_meta == false
    &&& e.bonk_trade == false
    &&& e.bonk_pool_create == false
    &&& e.bonk_migrate_amm == false
    &&& e.pumpfun_trade == true
    &&& e.pumpfun_create == true
    &&& e.pumpfun_complete == false
    &&& e.pumpfun_migrate == false
    &&& e.pumpswap_buy == false
    &&& e.pumpswap_sell == false
    &&& e.pumpswap_create_pool == false
    &&& e.pumpswap_pool_created == false
    &&& e.pumpswap_trade == false
    &&& e.pumpswap_liquidity_added == false
    &&& e.pumpswap_liquidity_removed == false
    &&& e.pumpswap_pool_updated == false
    &&& e.pumpswap_fees_claimed == false
    &&& e.raydium_cpmm_swap == false
    &&& e.raydium_cpmm_deposit == false
    &&& e.raydium_cpmm_withdraw == false
    &&& e.raydium_cpmm_initialize == false
    &&& e.raydium_clmm_swap == false
    &&& e.raydium_clmm_create_pool == false
    &&& e.raydium_clmm_open_position == false
    &&& e.raydium_clmm_close_position == false
    &&& e.raydium_clmm_increase_liquidity == false
    &&& e.raydium_clmm_decrease_liquidity == false
    &&& e.raydium_clmm_open_position_with_token_ext_nft == false
    &&& e.raydium_clmm_collect_fee == false
    &&& e.raydium_amm_v4_swap == false
    &&& e.raydium_amm_v4_deposit == false
    &&& e.raydium_amm_v4_withdraw == false
    &&& e.raydium_amm_v4_initialize2 == false
    &&& e.raydium_amm_v4_withdraw_pnl == false
    &&& e.orca_whirlpool_swap == false
    &&& e.orca_whirlpool_liquidity_increased == false
    &&& e.orca_whirlpool_liquidity_decreased == false
    &&& e.orca_whirlpool_pool_initialized == false
    &&& e.meteora_pools_swap == false
    &&& e.meteora_pools_add_liquidity == false
    &&& e.meteora_pools_remove_liquidity == false
    &&& e.meteora_pools_bootstrap_liquidity == false
    &&& e.meteora_pools_pool_created == false
    &&& e.meteora_pools_set_pool_fees == false
    &&& e.meteora_damm_v2_swap == false
    &&& e.meteora_damm_v2_add_liquidity == false
    &&& e.meteora_damm_v2_remove_liquidity == false
    &&& e.meteora_damm_v2_initialize_pool == false
    &&& e.meteora_damm_v2_create_position == false
    &&& e.meteora_damm_v2_close_position == false
    &&& e.meteora_damm_v2_claim_position_fee == false
    &&& e.meteora_damm_v2_initialize_reward == false
    &&& e.meteora_damm_v2_fund_reward == false
    &&& e.meteora_damm_v2_claim_reward == false
    &&& e.token_account == false
    &&& e.nonce_account == false
    &&& e.token_info == false
}

/// The configuration the relay runs with when none was loaded.
pub open spec fn is_default_config(c: Config) -> bool {
    &&& is_default_server(c.server)
    &&& is_default_grpc(c.grpc)
    &&& is_default_protocols(c.protocols)
    &&& is_default_events(c.events)
}

impl Default for Config {
    fn default() -> (c: Self)
        ensures
            is_default_config(c),
    {
        Config {
            server: ServerConfig { host: String::from_str("127.0.0.1"), port: 9001 },
            grpc: GrpcConfig {
                endpoint: String::from_str("https://solana-yellowstone-grpc.publicnode.com:443"),
                token: None,
                enable_metrics: true,
                enable_tls: true,
                connection_timeout_ms: 10000,
                request_timeout_ms: 30000,
            },
            protocols: ProtocolsConfig {
                pumpfun: true,
                pumpswap: false,
                bonk: false,
                raydium_amm_v4: false,
                raydium_clmm: false,
                raydium_cpmm: false,
            },
            events: EventsConfig {
                block_meta: false,
                bonk_trade: false,
                bonk_pool_create: false,
                bonk_migrate_amm: false,
                pumpfun_trade: true,
                pumpfun_create: true,
                pumpfun_complete: false,
                pumpfun_migrate: false,
                pumpswap_buy: false,
                pumpswap_sell: false,
                pumpswap_create_pool: false,
                pumpswap_pool_created: false,
                pumpswap_trade: false,
                pumpswap_liquidity_added: false,
                pumpswap_liquidity_removed: false,
                pumpswap_pool_updated: false,
                pumpswap_fees_claimed: false,
                raydium_cpmm_swap: false,
                raydium_cpmm_deposit: false,
                raydium_cpmm_withdraw: false,
                raydium_cpmm_initialize: false,
                raydium_clmm_swap: false,
                raydium_clmm_create_pool: false,
                raydium_clmm_open_position: false,
                raydium_clmm_close_position: false,
                raydium_clmm_increase_liquidity: false,
                raydium_clmm_decrease_liquidity: false,
                raydium_clmm_open_position_with_token_ext_nft: false,
                raydium_clmm_collect_fee: false,
                raydium_amm_v4_swap: false,
                raydium_amm_v4_deposit: false,
                raydium_amm_v4_withdraw: false,
                raydium_amm_v4_initialize2: false,
                raydium_amm_v4_withdraw_pnl: false,
                orca_whirlpool_swap: false,
                orca_whirlpool_liquidity_increased: false,
                orca_whirlpool_liquidity_decreased: false,
                orca_whirlpool_pool_initialized: false,
                meteora_pools_swap: false,
                meteora_pools_add_liquidity: false,
                meteora_pools_remove_liquidity: false,
                meteora_pools_bootstrap_liquidity: false,
                meteora_pools_pool_created: false,
                meteora_pools_set_pool_fees: false,
                meteora_damm_v2_swap: false,
                meteora_damm_v2_add_liquidity: false,
                meteora_damm_v2_remove_liquidity: false,
                meteora_damm_v2_initialize_pool: false,
                meteora_damm_v2_create_position: false,
                meteora_damm_v2_close_position: false,
                meteora_damm_v2_claim_position_fee: false,
                meteora_damm_v2_initialize_reward: false,
                meteora_damm_v2_fund_reward: false,
                meteora_damm_v2_claim_reward: false,
                token_account: false,
                nonce_account: false,
                token_info: false,
            },
        }
    }
}

impl Config {
    /// Settle which configuration the relay runs with: the one a load
    /// attempt produced, or the built-in default when the attempt came up
    /// empty. The load attempt itself (reading and parsing a file) is I/O
    /// and is done by the caller.
    pub fn load_or_default(loaded: Option<Config>) -> (c: Config)
        ensures
            match loaded {
                Some(l) => c == l,
                None => is_default_config(c),
            },
    {
        match loaded {
            Some(c) => c,
            None => Config::default(),
        }
    }
}

} // verus!
