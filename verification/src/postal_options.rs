//! An earlier shape of the settings panel: options and protocol toggles in
//! one list.

use std::collections::HashMap;

use vstd::prelude::*;

verus! {

/// One entry of the combined option/protocol list.
#[derive(Hash, Eq, PartialEq, Debug, Clone, Copy, Structural)]
pub enum PostalOptions {
    Autoscroll,
    Tcp,
    Udp,
    Icmp,
    Http,
    Https,
}

impl PostalOptions {
    /// The combined list with its default states: TCP and UDP shown,
    /// everything else off.
    pub fn as_map() -> HashMap<PostalOptions, bool> {
        let mut map = HashMap::new();
        map.insert(PostalOptions::Autoscroll, false);
        map.insert(PostalOptions::Tcp, true);
        map.insert(PostalOptions::Udp, true);
        map.insert(PostalOptions::Icmp, false);
        map.insert(PostalOptions::Http, false);
        map.insert(PostalOptions::Https, false);
        map
    }

    /// The entry's display name.
    pub fn as_str(&self) -> (r: &'static str)
        ensures
            r@ == match self {
                PostalOptions::Autoscroll => "Autoscroll"@,
                PostalOptions::Tcp => "TCP"@,
                PostalOptions::Udp => "UDP"@,
                PostalOptions::Icmp => "ICMP"@,
                PostalOptions::Http => "HTTP"@,
                PostalOptions::Https => "HTTPS"@,
            },
    {
        match self {
            PostalOptions::Autoscroll => "Autoscroll",
            PostalOptions::Tcp => "TCP",
            PostalOptions::Udp => "UDP",
            PostalOptions::Icmp => "ICMP",
            PostalOptions::Http => "HTTP",
            PostalOptions::Https => "HTTPS",
        }
    }
}

} // verus!
