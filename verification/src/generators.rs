//! Event generators for the emitter half: canned-message cursors and the
//! random pick of message, hostname and application name.
//!
//! The canned message tables themselves and the clock live with the
//! caller; what stands here is the cursor arithmetic and the selection.

use vstd::prelude::*;

verus! {

/// Relies on rand::random_range: a uniformly random index below `n`,
/// different from call to call, so nothing holds of it beyond its range.
/// The range must be non-empty or the call panics.
#[verifier::external_body]
fn rand_below(n: usize) -> (r: usize)
    requires
        n > 0,
    ensures
        r < n,
{
    rand::random_range(0..n)
}

/// Pools of message, hostname and application-name texts that events
/// draw from at random.
#[derive(Clone, Debug)]
pub struct RandomStringGenerator {
    pub messages: Vec<String>,
    pub hostnames: Vec<String>,
    pub appnames: Vec<String>,
}

impl RandomStringGenerator {
    /// Builds the pools from loaded line lists; an empty list falls back
    /// to a single stock entry so that a draw always succeeds.
    pub fn new(messages: Vec<String>, hostnames: Vec<String>, appnames: Vec<String>) -> (r:
        RandomStringGenerator)
        ensures
            r.messages@.len() > 0,
            r.hostnames@.len() > 0,
            r.appnames@.len() > 0,
            messages@.len() > 0 ==> r.messages == messages,
            messages@.len() == 0 ==> r.messages@.len() == 1 && r.messages@[0]@
                == "default message"@,
            hostnames@.len() > 0 ==> r.hostnames == hostnames,
            hostnames@.len() == 0 ==> r.hostnames@.len() == 1 && r.hostnames@[0]@
                == "localhost"@,
            appnames@.len() > 0 ==> r.appnames == appnames,
            appnames@.len() == 0 ==> r.appnames@.len() == 1 && r.appnames@[0]@ == "myapp"@,
    {
        let messages = if messages.len() == 0 {
            let mut v: Vec<String> = Vec::new();
            v.push("default message".to_owned());
            v
        } else {
            messages
        };
        let hostnames = if hostnames.len() == 0 {
            let mut v: Vec<String> = Vec::new();
            v.push("localhost".to_owned());
            v
        } else {
            hostnames
        };
        let appnames = if appnames.len() == 0 {
            let mut v: Vec<String> = Vec::new();
            v.push("myapp".to_owned());
            v
        } else {
            appnames
        };
        RandomStringGenerator { messages, hostnames, appnames }
    }

    /// Draws one message text at random.
    pub fn generate_message(&self) -> (r: String)
        requires
            self.messages@.len() > 0,
        ensures
            exists|i: int| 0 <= i < self.messages@.len() && r@ == (#[trigger] self.messages@[i])@,
    {
        let i = rand_below(self.messages.len());
        self.messages[i].clone()
    }

    /// Draws one hostname at random.
    pub fn generate_hostname(&self) -> (r: String)
        requires
            self.hostnames@.len() > 0,
        ensures
            exists|i: int|
                0 <= i < self.hostnames@.len() && r@ == (#[trigger] self.hostnames@[i])@,
    {
        let i = rand_below(self.hostnames.len());
        self.hostnames[i].clone()
    }

    /// Draws one application name at random.
    pub fn generate_appname(&self) -> (r: String)
        requires
            self.appnames@.len() > 0,
        ensures
            exists|i: int| 0 <= i < self.appnames@.len() && r@ == (#[trigger] self.appnames@[i])@,
    {
        let i = rand_below(self.appnames.len());
        self.appnames[i].clone()
    }
}

/// Draws a facility and a severity for a generated syslog event.
pub fn random_facility_severity() -> (r: (u8, u8))
    ensures
        r.0 < 24,
        r.1 < 8,
{
    let f = rand_below(24);
    let s = rand_below(8);
    (f as u8, s as u8)
}

/// A cursor over a caller-held table of canned NDJSON messages.
#[derive(Clone, Copy, Debug, PartialEq, Eq, Structural)]
pub struct NdJsonEventGenerator {
    pub message_index: u64,
}

impl NdJsonEventGenerator {
    /// Starts at the first message.
    pub fn new() -> (r: NdJsonEventGenerator)
        ensures
            r.message_index == 0,
    {
        NdJsonEventGenerator { message_index: 0 }
    }

    /// Advances the cursor by one and hands back its position in a table
    /// of `count` messages.
    pub fn next_index(&mut self, count: usize) -> (r: usize)
        requires
            count > 0,
            old(self).message_index + 1 <= u64::MAX,
        ensures
            final(self).message_index == old(self).message_index + 1,
            r == final(self).message_index as nat % count as nat,
            r < count,
    {
        self.message_index = self.message_index + 1;
        (self.message_index % (count as u64)) as usize
    }
}

/// A cursor over a caller-held table of canned RFC 5424 messages.
#[derive(Clone, Copy, Debug, PartialEq, Eq, Structural)]
pub struct Syslog5424EventGenerator {
    pub message_index: u64,
}

impl Syslog5424EventGenerator {
    /// Starts at the first message.
    pub fn new() -> (r: Syslog5424EventGenerator)
        ensures
            r.message_index == 0,
    {
        Syslog5424EventGenerator { message_index: 0 }
    }

    /// Advances the cursor by one and hands back its position in a table
    /// of `count` messages.
    pub fn next_index(&mut self, count: usize) -> (r: usize)
        requires
            count > 0,
            old(self).message_index + 1 <= u64::MAX,
        ensures
            final(self).message_index == old(self).message_index + 1,
            r == final(self).message_index as nat % count as nat,
            r < count,
    {
        self.message_index = self.message_index + 1;
        (self.message_index % (count as u64)) as usize
    }
}

} // verus!
