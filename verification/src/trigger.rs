//! Classification of an incoming message as a planting trigger: the
//! glyph-token extraction (backed by a regular expression) and the match
//! against the community's catalog and growth rules.

use vstd::prelude::*;
use crate::server::Server;

verus! {

/// The catalog-lookup key of a message that consists of planting glyphs
/// (emoji presentation characters, `:name:` shortcodes or custom-emoji
/// tags, blank-separated), or None for any other message. The key is
/// the last glyph token; for a custom-emoji tag it is the emoji's
/// numeric id followed by `>`, which can never match a catalog glyph.
pub uninterp spec fn trigger_token_of(content: Seq<char>) -> Option<Seq<char>>;

/// Relies on regex::Regex::captures with the fixed planting-trigger
/// pattern: whether the whole message is glyph tokens and, if so, the
/// catalog-lookup key described by `trigger_token_of`. The result
/// depends on the message text alone.
#[verifier::external_body]
fn extract_trigger_token(content: &str) -> (r: Option<String>)
    ensures
        r is Some <==> trigger_token_of(content@) is Some,
        r is Some ==> r->Some_0@ == trigger_token_of(content@)->Some_0,
{
    let pattern = r"^(?:(\p{Emoji_Presentation}|:\w+:|<:\w+:(\d{17,18})>) *)+$";
    let re = regex::Regex::new(pattern).unwrap();
    re.captures(content).map(
        |caps| match caps.get(2) {
            Some(id) => format!("{}>", id.as_str()),
            None => caps[1].to_owned(),
        },
    )
}

/// What an incoming message means for the planting action.
#[derive(Debug, Clone, Copy, PartialEq, Eq, Structural)]
pub enum TriggerDecision {
    /// Not a glyph message, or no catalog species matches: ignored in
    /// silence.
    NotATrigger,
    /// A glyph message, but the growth rules deny this channel: ignored
    /// in silence.
    Denied,
    /// A planting attempt of this catalog species.
    Plant { species_id: i16 },
}

impl Server {
    /// What `classify_trigger` decides: glyph extraction first, then the
    /// channel gate, then the catalog match.
    pub open spec fn spec_classify_trigger(
        self,
        content: Seq<char>,
        channel_id: u64,
    ) -> TriggerDecision {
        match trigger_token_of(content) {
            Option::None => TriggerDecision::NotATrigger,
            Option::Some(tok) => if !self.forest_rules.spec_check(channel_id) {
                TriggerDecision::Denied
            } else {
                match self.spec_species_by_emoji(tok) {
                    Option::Some(id) => TriggerDecision::Plant { species_id: id },
                    Option::None => TriggerDecision::NotATrigger,
                }
            },
        }
    }

    /// Classify an incoming message in a channel as a planting trigger
    /// against this community's catalog and growth rules.
    pub fn classify_trigger(&self, content: &str, channel_id: u64) -> (d: TriggerDecision)
        requires
            self.wf(),
        ensures
            d == self.spec_classify_trigger(content@, channel_id),
    {
        match extract_trigger_token(content) {
            Option::None => TriggerDecision::NotATrigger,
            Option::Some(tok) => {
                if !self.forest_rules.check(&channel_id) {
                    TriggerDecision::Denied
                } else {
                    match self.species_by_emoji(&tok) {
                        Option::Some(id) => TriggerDecision::Plant { species_id: id },
                        Option::None => TriggerDecision::NotATrigger,
                    }
                }
            },
        }
    }
}

} // verus!
