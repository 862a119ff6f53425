//! Resolved runtime settings and the configuration-file search policy.
//!
//! Discovery and parsing of the settings source are left to the process
//! around this crate; what is verified here is the policy: which candidate
//! location wins, and which default fills each field the source left out.

use vstd::prelude::*;

verus! {

/// Default delay after the measure command, in milliseconds.
pub const DEFAULT_RATE_MS: u64 = 14000;

/// The settings this system runs on, with every default already filled in:
/// the device path, the measure delay, the broker URI and the topic.
pub struct Settings {
    pub device: String,
    pub rate_ms: u64,
    pub broker: String,
    pub topic: String,
}

impl Settings {
    /// Resolve the external settings object: each field keeps its stated
    /// value, and a field the source left out gets its default — device
    /// `/dev/gpioals_device`, rate 14000 ms, broker `localhost`, topic
    /// `alsd`.
    pub fn resolve(
        device: Option<String>,
        rate_ms: Option<u64>,
        broker: Option<String>,
        topic: Option<String>,
    ) -> (s: Settings)
        ensures
            match device {
                Some(d) => s.device == d,
                None => s.device@ == "/dev/gpioals_device"@,
            },
            match rate_ms {
                Some(r) => s.rate_ms == r,
                None => s.rate_ms == DEFAULT_RATE_MS,
            },
            match broker {
                Some(b) => s.broker == b,
                None => s.broker@ == "localhost"@,
            },
            match topic {
                Some(t) => s.topic == t,
                None => s.topic@ == "alsd"@,
            },
    {
        let device = match device {
            Some(d) => d,
            None => String::from_str("/dev/gpioals_device"),
        };
        let rate_ms = match rate_ms {
            Some(r) => r,
            None => DEFAULT_RATE_MS,
        };
        let broker = match broker {
            Some(b) => b,
            None => String::from_str("localhost"),
        };
        let topic = match topic {
            Some(t) => t,
            None => String::from_str("alsd"),
        };
        Settings { device, rate_ms, broker, topic }
    }
}

/// The configuration-file search policy: among the candidate locations, in
/// the order tried (working directory, then the user configuration
/// directory, then the system-wide directory), the first one present wins.
/// `present[i]` says whether candidate `i` exists; the result is the index
/// of the winner, or nothing when no candidate exists.
pub fn first_present(present: &Vec<bool>) -> (r: Option<usize>)
    ensures
        match r {
            Some(i) => {
                &&& i < present@.len()
                &&& present@[i as int]
                &&& forall|j: int| 0 <= j < i ==> !present@[j]
            },
            None => forall|j: int| 0 <= j < present@.len() ==> !present@[j],
        },
{
    let mut k: usize = 0;
    while k < present.len()
        invariant
            k <= present@.len(),
            forall|j: int| 0 <= j < k ==> !present@[j],
        decreases present@.len() - k,
    {
        if present[k] {
            return Some(k);
        }
        k = k + 1;
    }
    None
}

} // verus!
