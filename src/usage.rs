//! Token usage as the provider reports it.
use vstd::prelude::*;
use crate::json::{json_member, json_u64, member_of, u64_of};
use crate::types::Usage;

verus! {

/// The provider's token counts.
#[derive(Clone, Copy, Debug, PartialEq, Eq)]
pub struct GCPVertexAnthropic {
    pub input_tokens: u32,
    pub output_tokens: u32,
}

impl From<GCPVertexAnthropic> for Usage {
    fn from(value: GCPVertexAnthropic) -> (r: Usage)
        ensures
            r.input_tokens == value.input_tokens,
            r.output_tokens == value.output_tokens,
    {
        Usage { input_tokens: value.input_tokens, output_tokens: value.output_tokens }
    }
}

impl vstd::std_specs::convert::FromSpecImpl<GCPVertexAnthropic> for Usage {
    open spec fn obeys_from_spec() -> bool {
        true
    }

    open spec fn from_spec(value: GCPVertexAnthropic) -> Usage {
        Usage { input_tokens: value.input_tokens, output_tokens: value.output_tokens }
    }
}

/// The count under `key` in a usage object: zero when it is missing or not a `u64`,
/// and truncated to 32 bits otherwise.
pub open spec fn token_count(usage: Seq<char>, key: Seq<char>) -> u32 {
    match member_of(usage, key) {
        Some(member) => match u64_of(member) {
            Some(n) => n as u32,
            None => 0,
        },
        None => 0,
    }
}

pub open spec fn usage_of(usage: Seq<char>) -> GCPVertexAnthropic {
    GCPVertexAnthropic {
        input_tokens: token_count(usage, "input_tokens"@),
        output_tokens: token_count(usage, "output_tokens"@),
    }
}

fn read_count(usage_info: &str, key: &str) -> (r: u32)
    ensures
        r == token_count(usage_info@, key@),
{
    match json_member(usage_info, key) {
        Some(member) => match json_u64(member.as_str()) {
            Some(n) => n as u32,
            None => 0,
        },
        None => 0,
    }
}

/// Reads the token counts out of a usage object given as JSON text; a missing or
/// non-numeric count reads as zero.
pub fn parse_usage_info(usage_info: &str) -> (r: GCPVertexAnthropic)
    ensures
        r == usage_of(usage_info@),
{
    GCPVertexAnthropic {
        input_tokens: read_count(usage_info, "input_tokens"),
        output_tokens: read_count(usage_info, "output_tokens"),
    }
}

} // verus!
