//! The protocols and event kinds the relay can subscribe to, and the
//! selection of them that a configuration enables. The upstream client
//! library has its own mirror of these names; converting between the two is
//! a concern of the code that talks to it, not of the relay's logic.

use vstd::prelude::*;

use crate::config::Config;
use crate::config::EventsConfig;
use crate::config::ProtocolsConfig;

verus! {

/// An upstream protocol the relay can subscribe to.
#[derive(Clone, Copy, Debug, PartialEq, Eq, Structural)]
pub enum Protocol {
    PumpFun,
    PumpSwap,
    Bonk,
    RaydiumAmmV4,
    RaydiumClmm,
    RaydiumCpmm,
}

/// An event kind the relay can ask the upstream source for.
#[derive(Clone, Copy, Debug, PartialEq, Eq, Structural)]
pub enum EventType {
    BlockMeta,
    BonkTrade,
    BonkPoolCreate,
    BonkMigrateAmm,
    PumpFunTrade,
    PumpFunCreate,
    PumpFunComplete,
    PumpFunMigrate,
    PumpSwapBuy,
    PumpSwapSell,
    PumpSwapCreatePool,
    PumpSwapPoolCreated,
    PumpSwapTrade,
    PumpSwapLiquidityAdded,
    PumpSwapLiquidityRemoved,
    PumpSwapPoolUpdated,
    PumpSwapFeesClaimed,
    RaydiumCpmmSwap,
    RaydiumCpmmDeposit,
    RaydiumCpmmWithdraw,
    RaydiumCpmmInitialize,
    RaydiumClmmSwap,
    RaydiumClmmCreatePool,
    RaydiumClmmOpenPosition,
    RaydiumClmmClosePosition,
    RaydiumClmmIncreaseLiquidity,
    RaydiumClmmDecreaseLiquidity,
    RaydiumClmmOpenPositionWithTokenExtNft,
    RaydiumClmmCollectFee,
    RaydiumAmmV4Swap,
    RaydiumAmmV4Deposit,
    RaydiumAmmV4Withdraw,
    RaydiumAmmV4Initialize2,
    RaydiumAmmV4WithdrawPnl,
    OrcaWhirlpoolSwap,
    OrcaWhirlpoolLiquidityIncreased,
    OrcaWhirlpoolLiquidityDecreased,
    OrcaWhirlpoolPoolInitialized,
    MeteoraPoolsSwap,
    MeteoraPoolsAddLiquidity,
    MeteoraPoolsRemoveLiquidity,
    MeteoraPoolsBootstrapLiquidity,
    MeteoraPoolsPoolCreated,
    MeteoraPoolsSetPoolFees,
    MeteoraDammV2Swap,
    MeteoraDammV2AddLiquidity,
    MeteoraDammV2RemoveLiquidity,
    MeteoraDammV2InitializePool,
    MeteoraDammV2CreatePosition,
    MeteoraDammV2ClosePosition,
    MeteoraDammV2ClaimPositionFee,
    MeteoraDammV2InitializeReward,
    MeteoraDammV2FundReward,
    MeteoraDammV2ClaimReward,
    TokenAccount,
    NonceAccount,
    TokenInfo,
}

/// The protocols a configuration enables, in the fixed order the relay
/// announces them.
pub open spec fn enabled_protocols(p: ProtocolsConfig) -> Seq<Protocol> {
    let s = Seq::<Protocol>::empty();
    let s = if p.pumpfun { s.push(Protocol::PumpFun) } else { s };
    let s = if p.pumpswap { s.push(Protocol::PumpSwap) } else { s };
    let s = if p.bonk { s.push(Protocol::Bonk) } else { s };
    let s = if p.raydium_amm_v4 { s.push(Protocol::RaydiumAmmV4) } else { s };
    let s = if p.raydium_clmm { s.push(Protocol::RaydiumClmm) } else { s };
    let s = if p.raydium_cpmm { s.push(Protocol::RaydiumCpmm) } else { s };
    s
}

/// The block-meta and bonk event kinds a configuration enables, appended to `s`.
pub open spec fn with_meta_and_bonk_events(s: Seq<EventType>, e: EventsConfig) -> Seq<EventType> {
    let s = if e.block_meta { s.push(EventType::BlockMeta) } else { s };
    let s = if e.bonk_trade { s.push(EventType::BonkTrade) } else { s };
    let s = if e.bonk_pool_create { s.push(EventType::BonkPoolCreate) } else { s };
    let s = if e.bonk_migrate_amm { s.push(EventType::BonkMigrateAmm) } else { s };
    s
}

/// The pumpfun event kinds a configuration enables, appended to `s`.
pub open spec fn with_pumpfun_events(s: Seq<EventType>, e: EventsConfig) -> Seq<EventType> {
    let s = if e.pumpfun_trade { s.push(EventType::PumpFunTrade) } else { s };
    let s = if e.pumpfun_create { s.push(EventType::PumpFunCreate) } else { s };
    let s = if e.pumpfun_complete { s.push(EventType::PumpFunComplete) } else { s };
    let s = if e.pumpfun_migrate { s.push(EventType::PumpFunMigrate) } else { s };
    s
}

/// The pumpswap event kinds a configuration enables, appended to `s`.
pub open spec fn with_pumpswap_events(s: Seq<EventType>, e: EventsConfig) -> Seq<EventType> {
    let s = if e.pumpswap_buy { s.push(EventType::PumpSwapBuy) } else { s };
    let s = if e.pumpswap_sell { s.push(EventType::PumpSwapSell) } else { s };
    let s = if e.pumpswap_create_pool { s.push(EventType::PumpSwapCreatePool) } else { s };
    let s = if e.pumpswap_pool_created { s.push(EventType::PumpSwapPoolCreated) } else { s };
    let s = if e.pumpswap_trade { s.push(EventType::PumpSwapTrade) } else { s };
    let s = if e.pumpswap_liquidity_added { s.push(EventType::PumpSwapLiquidityAdded) } else { s };
    let s = if e.pumpswap_liquidity_removed { s.push(EventType::PumpSwapLiquidityRemoved) } else { s };
    let s = if e.pumpswap_pool_updated { s.push(EventType::PumpSwapPoolUpdated) } else { s };
    let s = if e.pumpswap_fees_claimed { s.push(EventType::PumpSwapFeesClaimed) } else { s };
    s
}

/// The raydium cpmm event kinds a configuration enables, appended to `s`.
pub open spec fn with_raydium_cpmm_events(s: Seq<EventType>, e: EventsConfig) -> Seq<EventType> {
    let s = if e.raydium_cpmm_swap { s.push(EventType::RaydiumCpmmSwap) } else { s };
    let s = if e.raydium_cpmm_deposit { s.push(EventType::RaydiumCpmmDeposit) } else { s };
    let s = if e.raydium_cpmm_withdraw { s.push(EventType::RaydiumCpmmWithdraw) } else { s };
    let s = if e.raydium_cpmm_initialize { s.push(EventType::RaydiumCpmmInitialize) } else { s };
    s
}

/// The raydium clmm event kinds a configuration enables, appended to `s`.
pub open spec fn with_raydium_clmm_events(s: Seq<EventType>, e: EventsConfig) -> Seq<EventType> {
    let s = if e.raydium_clmm_swap { s.push(EventType::RaydiumClmmSwap) } else { s };
    let s = if e.raydium_clmm_create_pool { s.push(EventType::RaydiumClmmCreatePool) } else { s };
    let s = if e.raydium_clmm_open_position { s.push(EventType::RaydiumClmmOpenPosition) } else { s };
    let s = if e.raydium_clmm_close_position { s.push(EventType::RaydiumClmmClosePosition) } else { s };
    let s = if e.raydium_clmm_increase_liquidity { s.push(EventType::RaydiumClmmIncreaseLiquidity) } else { s };
    let s = if e.raydium_clmm_decrease_liquidity { s.push(EventType::RaydiumClmmDecreaseLiquidity) } else { s };
    let s = if e.raydium_clmm_open_position_with_token_ext_nft { s.push(EventType::RaydiumClmmOpenPositionWithTokenExtNft) } else { s };
    let s = if e.raydium_clmm_collect_fee { s.push(EventType::RaydiumClmmCollectFee) } else { s };
    s
}

/// The raydium amm v4 event kinds a configuration enables, appended to `s`.
pub open spec fn with_raydium_amm_v4_events(s: Seq<EventType>, e: EventsConfig) -> Seq<EventType> {
    let s = if e.raydium_amm_v4_swap { s.push(EventType::RaydiumAmmV4Swap) } else { s };
    let s = if e.raydium_amm_v4_deposit { s.push(EventType::RaydiumAmmV4Deposit) } else { s };
    let s = if e.raydium_amm_v4_withdraw { s.push(EventType::RaydiumAmmV4Withdraw) } else { s };
    let s = if e.raydium_amm_v4_initialize2 { s.push(EventType::RaydiumAmmV4Initialize2) } else { s };
    let s = if e.raydium_amm_v4_withdraw_pnl { s.push(EventType::RaydiumAmmV4WithdrawPnl) } else { s };
    s
}

/// The orca whirlpool event kinds a configuration enables, appended to `s`.
pub open spec fn with_orca_events(s: Seq<EventType>, e: EventsConfig) -> Seq<EventType> {
    let s = if e.orca_whirlpool_swap { s.push(EventType::OrcaWhirlpoolSwap) } else { s };
    let s = if e.orca_whirlpool_liquidity_increased { s.push(EventType::OrcaWhirlpoolLiquidityIncreased) } else { s };
    let s = if e.orca_whirlpool_liquidity_decreased { s.push(EventType::OrcaWhirlpoolLiquidityDecreased) } else { s };
    let s = if e.orca_whirlpool_pool_initialized { s.push(EventType::OrcaWhirlpoolPoolInitialized) } else { s };
    s
}

/// The meteora pools event kinds a configuration enables, appended to `s`.
pub open spec fn with_meteora_pools_events(s: Seq<EventType>, e: EventsConfig) -> Seq<EventType> {
    let s = if e.meteora_pools_swap { s.push(EventType::MeteoraPoolsSwap) } else { s };
    let s = if e.meteora_pools_add_liquidity { s.push(EventType::MeteoraPoolsAddLiquidity) } else { s };
    let s = if e.meteora_pools_remove_liquidity { s.push(EventType::MeteoraPoolsRemoveLiquidity) } else { s };
    let s = if e.meteora_pools_bootstrap_liquidity { s.push(EventType::MeteoraPoolsBootstrapLiquidity) } else { s };
    let s = if e.meteora_pools_pool_created { s.push(EventType::MeteoraPoolsPoolCreated) } else { s };
    let s = if e.meteora_pools_set_pool_fees { s.push(EventType::MeteoraPoolsSetPoolFees) } else { s };
    s
}

/// The meteora damm v2 event kinds a configuration enables, appended to `s`.
pub open spec fn with_meteora_damm_events(s: Seq<EventType>, e: EventsConfig) -> Seq<EventType> {
    let s = if e.meteora_damm_v2_swap { s.push(EventType::MeteoraDammV2Swap) } else { s };
    let s = if e.meteora_damm_v2_add_liquidity { s.push(EventType::MeteoraDammV2AddLiquidity) } else { s };
    let s = if e.meteora_damm_v2_remove_liquidity { s.push(EventType::MeteoraDammV2RemoveLiquidity) } else { s };
    let s = if e.meteora_damm_v2_initialize_pool { s.push(EventType::MeteoraDammV2InitializePool) } else { s };
    let s = if e.meteora_damm_v2_create_position { s.push(EventType::MeteoraDammV2CreatePosition) } else { s };
    let s = if e.meteora_damm_v2_close_position { s.push(EventType::MeteoraDammV2ClosePosition) } else { s };
    let s = if e.meteora_damm_v2_claim_position_fee { s.push(EventType::MeteoraDammV2ClaimPositionFee) } else { s };
    let s = if e.meteora_damm_v2_initialize_reward { s.push(EventType::MeteoraDammV2InitializeReward) } else { s };
    let s = if e.meteora_damm_v2_fund_reward { s.push(EventType::MeteoraDammV2FundReward) } else { s };
    let s = if e.meteora_damm_v2_claim_reward { s.push(EventType::MeteoraDammV2ClaimReward) } else { s };
    s
}

/// The account-level event kinds a configuration enables, appended to `s`.
pub open spec fn with_account_events(s: Seq<EventType>, e: EventsConfig) -> Seq<EventType> {
    let s = if e.token_account { s.push(EventType::TokenAccount) } else { s };
    let s = if e.nonce_account { s.push(EventType::NonceAccount) } else { s };
    let s = if e.token_info { s.push(EventType::TokenInfo) } else { s };
    s
}

/// The event kinds a configuration enables, in the fixed order the relay
/// announces them: block meta and bonk first, then pumpfun, pumpswap, the
/// raydium families, orca, the meteora families, and the account kinds.
pub open spec fn enabled_event_types(e: EventsConfig) -> Seq<EventType> {
    let s = Seq::<EventType>::empty();
    let s = with_meta_and_bonk_events(s, e);
    let s = with_pumpfun_events(s, e);
    let s = with_pumpswap_events(s, e);
    let s = with_raydium_cpmm_events(s, e);
    let s = with_raydium_clmm_events(s, e);
    let s = with_raydium_amm_v4_events(s, e);
    let s = with_orca_events(s, e);
    let s = with_meteora_pools_events(s, e);
    let s = with_meteora_damm_events(s, e);
    let s = with_account_events(s, e);
    s
}

impl Config {
    /// The protocols this configuration subscribes to, in announcement order.
    pub fn get_enabled_protocols(&self) -> (r: Vec<Protocol>)
        ensures
            r@ == enabled_protocols(self.protocols),
    {
        let mut protocols: Vec<Protocol> = Vec::new();

        if self.protocols.pumpfun {
            protocols.push(Protocol::PumpFun);
        }
        if self.protocols.pumpswap {
            protocols.push(Protocol::PumpSwap);
        }
        if self.protocols.bonk {
            protocols.push(Protocol::Bonk);
        }
        if self.protocols.raydium_amm_v4 {
            protocols.push(Protocol::RaydiumAmmV4);
        }
        if self.protocols.raydium_clmm {
            protocols.push(Protocol::RaydiumClmm);
        }
        if self.protocols.raydium_cpmm {
            protocols.push(Protocol::RaydiumCpmm);
        }

        protocols
    }

    /// The event kinds this configuration relays, in announcement order.
    pub fn get_enabled_event_types(&self) -> (r: Vec<EventType>)
        ensures
            r@ == enabled_event_types(self.events),
    {
        let e = &self.events;
        let mut v: Vec<EventType> = Vec::new();

        push_meta_and_bonk_events(&mut v, e);
        push_pumpfun_events(&mut v, e);
        push_pumpswap_events(&mut v, e);
        push_raydium_cpmm_events(&mut v, e);
        push_raydium_clmm_events(&mut v, e);
        push_raydium_amm_v4_events(&mut v, e);
        push_orca_events(&mut v, e);
        push_meteora_pools_events(&mut v, e);
        push_meteora_damm_events(&mut v, e);
        push_account_events(&mut v, e);

        v
    }
}

fn push_meta_and_bonk_events(v: &mut Vec<EventType>, e: &EventsConfig)
    ensures
        final(v)@ == with_meta_and_bonk_events(old(v)@, *e),
{
    if e.block_meta { v.push(EventType::BlockMeta); }
    if e.bonk_trade { v.push(EventType::BonkTrade); }
    if e.bonk_pool_create { v.push(EventType::BonkPoolCreate); }
    if e.bonk_migrate_amm { v.push(EventType::BonkMigrateAmm); }
}

fn push_pumpfun_events(v: &mut Vec<EventType>, e: &EventsConfig)
    ensures
        final(v)@ == with_pumpfun_events(old(v)@, *e),
{
    if e.pumpfun_trade { v.push(EventType::PumpFunTrade); }
    if e.pumpfun_create { v.push(EventType::PumpFunCreate); }
    if e.pumpfun_complete { v.push(EventType::PumpFunComplete); }
    if e.pumpfun_migrate { v.push(EventType::PumpFunMigrate); }
}

fn push_pumpswap_events(v: &mut Vec<EventType>, e: &EventsConfig)
    ensures
        final(v)@ == with_pumpswap_events(old(v)@, *e),
{
    if e.pumpswap_buy { v.push(EventType::PumpSwapBuy); }
    if e.pumpswap_sell { v.push(EventType::PumpSwapSell); }
    if e.pumpswap_create_pool { v.push(EventType::PumpSwapCreatePool); }
    if e.pumpswap_pool_created { v.push(EventType::PumpSwapPoolCreated); }
    if e.pumpswap_trade { v.push(EventType::PumpSwapTrade); }
    if e.pumpswap_liquidity_added { v.push(EventType::PumpSwapLiquidityAdded); }
    if e.pumpswap_liquidity_removed { v.push(EventType::PumpSwapLiquidityRemoved); }
    if e.pumpswap_pool_updated { v.push(EventType::PumpSwapPoolUpdated); }
    if e.pumpswap_fees_claimed { v.push(EventType::PumpSwapFeesClaimed); }
}

fn push_raydium_cpmm_events(v: &mut Vec<EventType>, e: &EventsConfig)
    ensures
        final(v)@ == with_raydium_cpmm_events(old(v)@, *e),
{
    if e.raydium_cpmm_swap { v.push(EventType::RaydiumCpmmSwap); }
    if e.raydium_cpmm_deposit { v.push(EventType::RaydiumCpmmDeposit); }
    if e.raydium_cpmm_withdraw { v.push(EventType::RaydiumCpmmWithdraw); }
    if e.raydium_cpmm_initialize { v.push(EventType::RaydiumCpmmInitialize); }
}

fn push_raydium_clmm_events(v: &mut Vec<EventType>, e: &EventsConfig)
    ensures
        final(v)@ == with_raydium_clmm_events(old(v)@, *e),
{
    if e.raydium_clmm_swap { v.push(EventType::RaydiumClmmSwap); }
    if e.raydium_clmm_create_pool { v.push(EventType::RaydiumClmmCreatePool); }
    if e.raydium_clmm_open_position { v.push(EventType::RaydiumClmmOpenPosition); }
    if e.raydium_clmm_close_position { v.push(EventType::RaydiumClmmClosePosition); }
    if e.raydium_clmm_increase_liquidity { v.push(EventType::RaydiumClmmIncreaseLiquidity); }
    if e.raydium_clmm_decrease_liquidity { v.push(EventType::RaydiumClmmDecreaseLiquidity); }
    if e.raydium_clmm_open_position_with_token_ext_nft { v.push(EventType::RaydiumClmmOpenPositionWithTokenExtNft); }
    if e.raydium_clmm_collect_fee { v.push(EventType::RaydiumClmmCollectFee); }
}

fn push_raydium_amm_v4_events(v: &mut Vec<EventType>, e: &EventsConfig)
    ensures
        final(v)@ == with_raydium_amm_v4_events(old(v)@, *e),
{
    if e.raydium_amm_v4_swap { v.push(EventType::RaydiumAmmV4Swap); }
    if e.raydium_amm_v4_deposit { v.push(EventType::RaydiumAmmV4Deposit); }
    if e.raydium_amm_v4_withdraw { v.push(EventType::RaydiumAmmV4Withdraw); }
    if e.raydium_amm_v4_initialize2 { v.push(EventType::RaydiumAmmV4Initialize2); }
    if e.raydium_amm_v4_withdraw_pnl { v.push(EventType::RaydiumAmmV4WithdrawPnl); }
}

fn push_orca_events(v: &mut Vec<EventType>, e: &EventsConfig)
    ensures
        final(v)@ == with_orca_events(old(v)@, *e),
{
    if e.orca_whirlpool_swap { v.push(EventType::OrcaWhirlpoolSwap); }
    if e.orca_whirlpool_liquidity_increased { v.push(EventType::OrcaWhirlpoolLiquidityIncreased); }
    if e.orca_whirlpool_liquidity_decreased { v.push(EventType::OrcaWhirlpoolLiquidityDecreased); }
    if e.orca_whirlpool_pool_initialized { v.push(EventType::OrcaWhirlpoolPoolInitialized); }
}

fn push_meteora_pools_events(v: &mut Vec<EventType>, e: &EventsConfig)
    ensures
        final(v)@ == with_meteora_pools_events(old(v)@, *e),
{
    if e.meteora_pools_swap { v.push(EventType::MeteoraPoolsSwap); }
    if e.meteora_pools_add_liquidity { v.push(EventType::MeteoraPoolsAddLiquidity); }
    if e.meteora_pools_remove_liquidity { v.push(EventType::MeteoraPoolsRemoveLiquidity); }
    if e.meteora_pools_bootstrap_liquidity { v.push(EventType::MeteoraPoolsBootstrapLiquidity); }
    if e.meteora_pools_pool_created { v.push(EventType::MeteoraPoolsPoolCreated); }
    if e.meteora_pools_set_pool_fees { v.push(EventType::MeteoraPoolsSetPoolFees); }
}

fn push_meteora_damm_events(v: &mut Vec<EventType>, e: &EventsConfig)
    ensures
        final(v)@ == with_meteora_damm_events(old(v)@, *e),
{
    if e.meteora_damm_v2_swap { v.push(EventType::MeteoraDammV2Swap); }
    if e.meteora_damm_v2_add_liquidity { v.push(EventType::MeteoraDammV2AddLiquidity); }
    if e.meteora_damm_v2_remove_liquidity { v.push(EventType::MeteoraDammV2RemoveLiquidity); }
    if e.meteora_damm_v2_initialize_pool { v.push(EventType::MeteoraDammV2InitializePool); }
    if e.meteora_damm_v2_create_position { v.push(EventType::MeteoraDammV2CreatePosition); }
    if e.meteora_damm_v2_close_position { v.push(EventType::MeteoraDammV2ClosePosition); }
    if e.meteora_damm_v2_claim_position_fee { v.push(EventType::MeteoraDammV2ClaimPositionFee); }
    if e.meteora_damm_v2_initialize_reward { v.push(EventType::MeteoraDammV2InitializeReward); }
    if e.meteora_damm_v2_fund_reward { v.push(EventType::MeteoraDammV2FundReward); }
    if e.meteora_damm_v2_claim_reward { v.push(EventType::MeteoraDammV2ClaimReward); }
}

fn push_account_events(v: &mut Vec<EventType>, e: &EventsConfig)
    ensures
        final(v)@ == with_account_events(old(v)@, *e),
{
    if e.token_account { v.push(EventType::TokenAccount); }
    if e.nonce_account { v.push(EventType::NonceAccount); }
    if e.token_info { v.push(EventType::TokenInfo); }
}

} // verus!
