//! Agent configuration: how a VPS's override is merged into the global
//! configuration, and what status a configuration push leaves behind.

use vstd::prelude::*;

verus! {

/// The configuration pushed to an agent.
#[derive(Debug)]
pub struct AgentConfig {
    pub metrics_collect_interval_seconds: u32,
    pub metrics_upload_batch_max_size: u32,
    pub metrics_upload_interval_seconds: u32,
    pub docker_info_collect_interval_seconds: u32,
    pub docker_info_upload_interval_seconds: u32,
    pub generic_metrics_upload_batch_max_size: u32,
    pub generic_metrics_upload_interval_seconds: u32,
    pub log_level: String,
    pub heartbeat_interval_seconds: u32,
    /// Feature flags in insertion order; a later entry for a key wins.
    pub feature_flags: Vec<(String, bool)>,
}

/// The feature flags as a map, later entries winning.
pub open spec fn flags_map(flags: Seq<(String, bool)>) -> Map<Seq<char>, bool>
    decreases flags.len(),
{
    if flags.len() == 0 {
        Map::empty()
    } else {
        flags_map(flags.drop_last()).insert(flags.last().0@, flags.last().1)
    }
}

/// An override value replaces the base value when it is set (non-zero).
pub open spec fn override_u32(base: u32, over: u32) -> u32 {
    if over > 0 { over } else { base }
}

/// Whether `r` is `global` with `over` merged in: each positive number and a
/// non-empty log level of the override replace the global value, and the
/// override's feature flags are added, replacing flags of the same name.
pub open spec fn spec_merged(r: AgentConfig, global: AgentConfig, over: AgentConfig) -> bool {
    &&& r.metrics_collect_interval_seconds == override_u32(global.metrics_collect_interval_seconds, over.metrics_collect_interval_seconds)
    &&& r.metrics_upload_batch_max_size == override_u32(global.metrics_upload_batch_max_size, over.metrics_upload_batch_max_size)
    &&& r.metrics_upload_interval_seconds == override_u32(global.metrics_upload_interval_seconds, over.metrics_upload_interval_seconds)
    &&& r.docker_info_collect_interval_seconds == override_u32(global.docker_info_collect_interval_seconds, over.docker_info_collect_interval_seconds)
    &&& r.docker_info_upload_interval_seconds == override_u32(global.docker_info_upload_interval_seconds, over.docker_info_upload_interval_seconds)
    &&& r.generic_metrics_upload_batch_max_size == override_u32(global.generic_metrics_upload_batch_max_size, over.generic_metrics_upload_batch_max_size)
    &&& r.generic_metrics_upload_interval_seconds == override_u32(global.generic_metrics_upload_interval_seconds, over.generic_metrics_upload_interval_seconds)
    &&& r.log_level@ == (if over.log_level@.len() > 0 { over.log_level@ } else { global.log_level@ })
    &&& r.heartbeat_interval_seconds == override_u32(global.heartbeat_interval_seconds, over.heartbeat_interval_seconds)
    &&& flags_map(r.feature_flags@) == flags_map(global.feature_flags@).union_prefer_right(flags_map(over.feature_flags@))
}

proof fn lemma_flags_map_append(a: Seq<(String, bool)>, b: Seq<(String, bool)>)
    ensures
        flags_map(a + b) == flags_map(a).union_prefer_right(flags_map(b)),
    decreases b.len(),
{
    if b.len() == 0 {
        assert(a + b =~= a);
        assert(flags_map(a).union_prefer_right(Map::empty()) =~= flags_map(a));
    } else {
        lemma_flags_map_append(a, b.drop_last());
        assert((a + b).drop_last() =~= a + b.drop_last());
        assert((a + b).last() == b.last());
        assert(flags_map(a + b) =~= flags_map(a).union_prefer_right(flags_map(b)));
    }
}

/// The configuration in effect for a VPS: the global configuration with the
/// VPS's override merged in.
pub fn merge_agent_config(global: AgentConfig, over: AgentConfig) -> (r: AgentConfig)
    ensures
        spec_merged(r, global, over),
{
    let ghost g = global;
    let ghost o = over;
    let log_level = if over.log_level.as_str().is_empty() { global.log_level } else { over.log_level };
    let mut flags = global.feature_flags;
    let mut extra = over.feature_flags;
    proof {
        lemma_flags_map_append(g.feature_flags@, o.feature_flags@);
    }
    flags.append(&mut extra);
    AgentConfig {
        metrics_collect_interval_seconds: if over.metrics_collect_interval_seconds > 0 { over.metrics_collect_interval_seconds } else { global.metrics_collect_interval_seconds },
        metrics_upload_batch_max_size: if over.metrics_upload_batch_max_size > 0 { over.metrics_upload_batch_max_size } else { global.metrics_upload_batch_max_size },
        metrics_upload_interval_seconds: if over.metrics_upload_interval_seconds > 0 { over.metrics_upload_interval_seconds } else { global.metrics_upload_interval_seconds },
        docker_info_collect_interval_seconds: if over.docker_info_collect_interval_seconds > 0 { over.docker_info_collect_interval_seconds } else { global.docker_info_collect_interval_seconds },
        docker_info_upload_interval_seconds: if over.docker_info_upload_interval_seconds > 0 { over.docker_info_upload_interval_seconds } else { global.docker_info_upload_interval_seconds },
        generic_metrics_upload_batch_max_size: if over.generic_metrics_upload_batch_max_size > 0 { over.generic_metrics_upload_batch_max_size } else { global.generic_metrics_upload_batch_max_size },
        generic_metrics_upload_interval_seconds: if over.generic_metrics_upload_interval_seconds > 0 { over.generic_metrics_upload_interval_seconds } else { global.generic_metrics_upload_interval_seconds },
        log_level,
        heartbeat_interval_seconds: if over.heartbeat_interval_seconds > 0 { over.heartbeat_interval_seconds } else { global.heartbeat_interval_seconds },
        feature_flags: flags,
    }
}

/// Whether an override sets nothing: all numbers zero, no log level, no flags.
pub open spec fn is_empty_override(o: AgentConfig) -> bool {
    &&& o.metrics_collect_interval_seconds == 0
    &&& o.metrics_upload_batch_max_size == 0
    &&& o.metrics_upload_interval_seconds == 0
    &&& o.docker_info_collect_interval_seconds == 0
    &&& o.docker_info_upload_interval_seconds == 0
    &&& o.generic_metrics_upload_batch_max_size == 0
    &&& o.generic_metrics_upload_interval_seconds == 0
    &&& o.log_level@.len() == 0
    &&& o.heartbeat_interval_seconds == 0
    &&& o.feature_flags@.len() == 0
}

/// Merging an override that sets nothing leaves the global configuration as
/// it is.
pub proof fn lemma_empty_override_is_identity(r: AgentConfig, global: AgentConfig, over: AgentConfig)
    requires
        is_empty_override(over),
        spec_merged(r, global, over),
    ensures
        r.metrics_collect_interval_seconds == global.metrics_collect_interval_seconds,
        r.metrics_upload_batch_max_size == global.metrics_upload_batch_max_size,
        r.metrics_upload_interval_seconds == global.metrics_upload_interval_seconds,
        r.docker_info_collect_interval_seconds == global.docker_info_collect_interval_seconds,
        r.docker_info_upload_interval_seconds == global.docker_info_upload_interval_seconds,
        r.generic_metrics_upload_batch_max_size == global.generic_metrics_upload_batch_max_size,
        r.generic_metrics_upload_interval_seconds == global.generic_metrics_upload_interval_seconds,
        r.log_level@ == global.log_level@,
        r.heartbeat_interval_seconds == global.heartbeat_interval_seconds,
        flags_map(r.feature_flags@) == flags_map(global.feature_flags@),
{
    assert(flags_map(over.feature_flags@) =~= Map::<Seq<char>, bool>::empty());
    assert(flags_map(global.feature_flags@).union_prefer_right(Map::empty()) =~= flags_map(global.feature_flags@));
}

/// Merging the same override twice gives what merging it once gives.
pub proof fn lemma_merge_is_idempotent(r1: AgentConfig, r2: AgentConfig, global: AgentConfig, over: AgentConfig)
    requires
        spec_merged(r1, global, over),
        spec_merged(r2, r1, over),
    ensures
        r2.metrics_collect_interval_seconds == r1.metrics_collect_interval_seconds,
        r2.metrics_upload_batch_max_size == r1.metrics_upload_batch_max_size,
        r2.metrics_upload_interval_seconds == r1.metrics_upload_interval_seconds,
        r2.docker_info_collect_interval_seconds == r1.docker_info_collect_interval_seconds,
        r2.docker_info_upload_interval_seconds == r1.docker_info_upload_interval_seconds,
        r2.generic_metrics_upload_batch_max_size == r1.generic_metrics_upload_batch_max_size,
        r2.generic_metrics_upload_interval_seconds == r1.generic_metrics_upload_interval_seconds,
        r2.log_level@ == r1.log_level@,
        r2.heartbeat_interval_seconds == r1.heartbeat_interval_seconds,
        flags_map(r2.feature_flags@) == flags_map(r1.feature_flags@),
{
    let g = flags_map(global.feature_flags@);
    let o = flags_map(over.feature_flags@);
    assert(g.union_prefer_right(o).union_prefer_right(o) =~= g.union_prefer_right(o));
}

/// The configuration status a push leaves: `pending` when the configuration
/// was sent, `failed` with the reason when the agent's channel is closed or
/// the agent is not connected.
pub fn config_push_status(agent_connected: bool, sent: bool) -> (r: (&'static str, Option<&'static str>))
    ensures
        agent_connected && sent ==> r.0@ == "pending"@ && r.1 is None,
        agent_connected && !sent ==> r.0@ == "failed"@ && (r.1 matches Some(m)
            && m@ == "Failed to send config to agent (channel closed)."@),
        !agent_connected ==> r.0@ == "failed"@ && (r.1 matches Some(m) && m@ == "Agent is not connected."@),
{
    if agent_connected {
        if sent {
            ("pending", None)
        } else {
            ("failed", Some("Failed to send config to agent (channel closed)."))
        }
    } else {
        ("failed", Some("Agent is not connected."))
    }
}

} // verus!
