//! The capture options offered in the settings panel, with their default
//! state and the explanation shown beside each.

use std::collections::HashMap;

use vstd::prelude::*;

verus! {

/// One capture option.
#[derive(Hash, Eq, PartialEq, Debug, Clone, Copy, Structural)]
pub enum PostalOption {
    /// Scroll the packet list to the newest packet automatically.
    Autoscroll,
    /// Discard every captured packet that is not HTTP(S) at parse time.
    HttpOnly,
}

impl PostalOption {
    /// The options the settings panel offers, each with its default state
    /// and its explanation. Autoscroll is not offered while the newest
    /// packet is shown at the top.
    pub fn as_map() -> HashMap<PostalOption, (bool, &'static str)> {
        let mut map = HashMap::new();
        map.insert(
            PostalOption::HttpOnly,
            (
                false,
                "Prefilters the received packets and discards them, if they are not HTTP(S).\n
                Takes effect when a new capture is started.",
            ),
        );
        map
    }

    /// The option's display name.
    pub fn as_str(&self) -> (r: &'static str)
        ensures
            r@ == match self {
                PostalOption::Autoscroll => "Autoscroll"@,
                PostalOption::HttpOnly => "HTTP(S) only"@,
            },
    {
        match self {
            PostalOption::Autoscroll => "Autoscroll",
            PostalOption::HttpOnly => "HTTP(S) only",
        }
    }
}

} // verus!
