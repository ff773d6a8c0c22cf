//! Process configuration, as the archival service consumes it: already-parsed
//! plain values. Loading it from and saving it to disk is the surrounding
//! program's business.

use vstd::prelude::*;

verus! {

/// The values a run of the service is configured with.
#[derive(Clone, Debug, PartialEq)]
pub struct Config {
    pub discor_token: String,
    pub mong_connstring: String,
    pub guild_whitelist: Vec<u64>,
}

impl Default for Config {
    /// The placeholder configuration: stand-in credential strings that no
    /// real deployment would use, and no listed guilds.
    fn default() -> (r: Self)
        ensures
            r.discor_token@ == "\u{1F480}"@,
            r.mong_connstring@ == "skull emoji"@,
            r.guild_whitelist@ == Seq::<u64>::empty(),
    {
        Config {
            discor_token: "\u{1F480}".to_owned(),
            mong_connstring: "skull emoji".to_owned(),
            guild_whitelist: Vec::new(),
        }
    }
}

} // verus!
