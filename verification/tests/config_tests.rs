use parser_proxy_ws::Config;
use parser_proxy_ws::ParserProxyServer;
use parser_proxy_ws::SubscriptionPlan;
use parser_proxy_ws::events::EventType;
use parser_proxy_ws::events::Protocol;

#[test]
fn default_config_server_values() {
    let c = Config::default();
    assert_eq!(c.server.host, "127.0.0.1");
    assert_eq!(c.server.port, 9001);
}

#[test]
fn default_config_grpc_values() {
    let c = Config::default();
    assert_eq!(c.grpc.endpoint, "https://solana-yellowstone-grpc.publicnode.com:443");
    assert!(c.grpc.token.is_none());
    assert!(c.grpc.enable_metrics);
    assert!(c.grpc.enable_tls);
    assert_eq!(c.grpc.connection_timeout_ms, 10000);
    assert_eq!(c.grpc.request_timeout_ms, 30000);
}

#[test]
fn load_or_default_keeps_loaded_config() {
    let mut c = Config::default();
    c.server.port = 7777;
    c.server.host = String::from("0.0.0.0");
    let got = Config::load_or_default(Some(c));
    assert_eq!(got.server.port, 7777);
    assert_eq!(got.server.host, "0.0.0.0");
}

#[test]
fn load_or_default_falls_back_to_default() {
    let got = Config::load_or_default(None);
    assert_eq!(got.server.host, "127.0.0.1");
    assert_eq!(got.server.port, 9001);
    assert!(got.protocols.pumpfun);
    assert!(!got.protocols.pumpswap);
    assert!(got.events.pumpfun_trade);
    assert!(got.events.pumpfun_create);
    assert!(!got.events.pumpfun_complete);
}

#[test]
fn default_enabled_protocols_is_pumpfun_only() {
    let c = Config::default();
    let protocols = c.get_enabled_protocols();
    assert_eq!(protocols, vec![Protocol::PumpFun]);
}

#[test]
fn enabled_protocols_keeps_announcement_order() {
    let mut c = Config::default();
    c.protocols.pumpfun = true;
    c.protocols.bonk = true;
    c.protocols.raydium_cpmm = true;
    let protocols = c.get_enabled_protocols();
    assert_eq!(protocols, vec![Protocol::PumpFun, Protocol::Bonk, Protocol::RaydiumCpmm]);
}

#[test]
fn default_enabled_event_types_are_pumpfun_trade_and_create() {
    let c = Config::default();
    let kinds = c.get_enabled_event_types();
    assert_eq!(kinds, vec![EventType::PumpFunTrade, EventType::PumpFunCreate]);
}

#[test]
fn enabled_event_types_keeps_announcement_order() {
    let mut c = Config::default();
    c.events.block_meta = true;
    c.events.token_info = true;
    c.events.meteora_pools_swap = true;
    let kinds = c.get_enabled_event_types();
    assert_eq!(
        kinds,
        vec![
            EventType::BlockMeta,
            EventType::PumpFunTrade,
            EventType::PumpFunCreate,
            EventType::MeteoraPoolsSwap,
            EventType::TokenInfo,
        ]
    );
}

#[test]
fn no_enabled_event_types_when_all_off() {
    let mut c = Config::default();
    c.events.pumpfun_trade = false;
    c.events.pumpfun_create = false;
    let kinds = c.get_enabled_event_types();
    assert!(kinds.is_empty());
}

#[test]
fn ws_url_formats_host_and_port() {
    let server = ParserProxyServer::with_config(Config::default());
    assert_eq!(server.config().server.host, "127.0.0.1");
    assert_eq!(server.config().server.port, 9001);
    assert_eq!(server.ws_url(), "ws://127.0.0.1:9001");
}

#[test]
fn ws_url_formats_other_ports() {
    let mut c = Config::default();
    c.server.host = String::from("example.org");
    c.server.port = 80;
    let server = ParserProxyServer::with_config(c);
    assert_eq!(server.ws_url(), "ws://example.org:80");

    let mut c = Config::default();
    c.server.port = 65535;
    let server = ParserProxyServer::with_config(c);
    assert_eq!(server.ws_url(), "ws://127.0.0.1:65535");

    let mut c = Config::default();
    c.server.port = 7;
    let server = ParserProxyServer::with_config(c);
    assert_eq!(server.ws_url(), "ws://127.0.0.1:7");
}

#[test]
fn subscription_plan_subscribes_with_default_config() {
    let server = ParserProxyServer::with_config(Config::default());
    match server.subscription_plan() {
        SubscriptionPlan::Subscribe(protocols, kinds) => {
            assert_eq!(protocols, vec![Protocol::PumpFun]);
            assert_eq!(kinds, vec![EventType::PumpFunTrade, EventType::PumpFunCreate]);
        }
        _ => panic!("expected a subscription"),
    }
}

#[test]
fn subscription_plan_reports_missing_protocols() {
    let mut c = Config::default();
    c.protocols.pumpfun = false;
    let server = ParserProxyServer::with_config(c);
    assert!(matches!(server.subscription_plan(), SubscriptionPlan::NoProtocols));
}

#[test]
fn subscription_plan_reports_missing_event_types() {
    let mut c = Config::default();
    c.events.pumpfun_trade = false;
    c.events.pumpfun_create = false;
    let server = ParserProxyServer::with_config(c);
    assert!(matches!(server.subscription_plan(), SubscriptionPlan::NoEventTypes));
}
