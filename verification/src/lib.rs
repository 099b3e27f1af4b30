//! Event relay over WebSocket: a client fan-out registry backed by a
//! concurrent map, a broadcaster that prunes dead clients, a queue-drain
//! backoff policy, and the configuration that selects which upstream
//! protocols and event kinds are relayed.
//!
//! The relay's logic lives here; the code that owns the sockets, the
//! scheduler, and the configuration file drives it and performs the
//! actions it decides on.

pub mod config;
pub mod drain;
pub mod events;
pub mod ws_server;

pub use config::Config;
pub use config::EventsConfig;
pub use config::GrpcConfig;
pub use config::ProtocolsConfig;
pub use config::ServerConfig;

use vstd::prelude::*;
use vstd::string::*;

use crate::events::EventType;
use crate::events::Protocol;
use crate::events::enabled_event_types;
use crate::events::enabled_protocols;

verus! {

/// The decimal digit characters.
pub open spec fn digit_char(d: nat) -> char {
    if d == 0 {
        '0'
    } else if d == 1 {
        '1'
    } else if d == 2 {
        '2'
    } else if d == 3 {
        '3'
    } else if d == 4 {
        '4'
    } else if d == 5 {
        '5'
    } else if d == 6 {
        '6'
    } else if d == 7 {
        '7'
    } else if d == 8 {
        '8'
    } else {
        '9'
    }
}

/// The decimal digits of a number, most significant first, with no leading
/// zeros (zero itself is the single digit `0`).
pub open spec fn dec_digits(n: nat) -> Seq<char>
    decreases n,
{
    if n < 10 {
        seq![digit_char(n)]
    } else {
        dec_digits(n / 10).push(digit_char(n % 10))
    }
}

fn digit_str(d: u16) -> (s: String)
    requires
        d < 10,
    ensures
        s@ == seq![digit_char(d as nat)],
{
    let s = match d {
        0 => String::from_str("0"),
        1 => String::from_str("1"),
        2 => String::from_str("2"),
        3 => String::from_str("3"),
        4 => String::from_str("4"),
        5 => String::from_str("5"),
        6 => String::from_str("6"),
        7 => String::from_str("7"),
        8 => String::from_str("8"),
        _ => String::from_str("9"),
    };
    proof {
        reveal_strlit("0");
        reveal_strlit("1");
        reveal_strlit("2");
        reveal_strlit("3");
        reveal_strlit("4");
        reveal_strlit("5");
        reveal_strlit("6");
        reveal_strlit("7");
        reveal_strlit("8");
        reveal_strlit("9");
        assert(s@ =~= seq![digit_char(d as nat)]);
    }
    s
}

fn u16_digits(n: u16) -> (s: String)
    ensures
        s@ == dec_digits(n as nat),
    decreases n,
{
    if n < 10 {
        digit_str(n)
    } else {
        let mut s = u16_digits(n / 10);
        let d = digit_str(n % 10);
        s.append(d.as_str());
        proof {
            assert(s@ =~= dec_digits((n / 10) as nat).push(digit_char((n % 10) as nat)));
        }
        s
    }
}

/// The URL clients connect to for a listening endpoint.
pub open spec fn ws_url_of(s: ServerConfig) -> Seq<char> {
    "ws://"@ + s.host@ + ":"@ + dec_digits(s.port as nat)
}

/// What the relay asks the upstream source for, settled from the
/// configuration before anything is subscribed: nothing, because no
/// protocol or no event kind is enabled (the relay then serves no events),
/// or the non-empty protocol and event-kind selections.
pub enum SubscriptionPlan {
    NoProtocols,
    NoEventTypes,
    Subscribe(Vec<Protocol>, Vec<EventType>),
}

/// The relay: its configuration, and the decisions the code around the
/// sockets asks of it.
pub struct ParserProxyServer {
    pub config: Config,
}

impl ParserProxyServer {
    /// A relay over an already-settled configuration.
    pub fn with_config(config: Config) -> (s: Self)
        ensures
            s.config == config,
    {
        ParserProxyServer { config }
    }

    /// The configuration the relay runs with.
    pub fn config(&self) -> (c: &Config)
        ensures
            *c == self.config,
    {
        &self.config
    }

    /// The URL clients connect to.
    pub fn ws_url(&self) -> (url: String)
        ensures
            url@ == ws_url_of(self.config.server),
    {
        let mut url = String::from_str("ws://");
        url.append(self.config.server.host.as_str());
        url.append(":");
        let digits = u16_digits(self.config.server.port);
        url.append(digits.as_str());
        url
    }

    /// Settle what to subscribe to upstream. The subscription is owed
    /// exactly when at least one protocol and at least one event kind are
    /// enabled; otherwise the plan names what is missing.
    pub fn subscription_plan(&self) -> (p: SubscriptionPlan)
        ensures
            match p {
                SubscriptionPlan::NoProtocols => enabled_protocols(self.config.protocols).len()
                    == 0,
                SubscriptionPlan::NoEventTypes => enabled_protocols(self.config.protocols).len()
                    > 0 && enabled_event_types(self.config.events).len() == 0,
                SubscriptionPlan::Subscribe(protocols, event_types) => {
                    &&& protocols@ == enabled_protocols(self.config.protocols)
                    &&& protocols@.len() > 0
                    &&& event_types@ == enabled_event_types(self.config.events)
                    &&& event_types@.len() > 0
                },
            },
    {
        let protocols = self.config.get_enabled_protocols();
        if protocols.len() == 0 {
            return SubscriptionPlan::NoProtocols;
        }
        let event_types = self.config.get_enabled_event_types();
        if event_types.len() == 0 {
            return SubscriptionPlan::NoEventTypes;
        }
        SubscriptionPlan::Subscribe(protocols, event_types)
    }
}

} // verus!
