//! Resource descriptors and their left-to-right merge.

use opentelemetry_sdk::resource::{
    EnvResourceDetector, OsResourceDetector, ProcessResourceDetector, ResourceDetector,
    SdkProvidedResourceDetector, TelemetryResourceDetector,
};
use opentelemetry_sdk::Resource;
use std::time::Duration;
use vstd::prelude::*;

verus! {

#[verifier::external_type_specification]
#[verifier::external_body]
pub struct ExResource(Resource);

/// What a resource holds: the text of each attribute key, mapped to the
/// text form of its value.
pub uninterp spec fn resource_attrs(r: Resource) -> Map<Seq<char>, Seq<char>>;

/// The attributes that a sequence of detected parts yields when merged
/// from first to last, a later part's value winning on a shared key.
pub open spec fn merged_attrs(parts: Seq<Map<Seq<char>, Seq<char>>>) -> Map<Seq<char>, Seq<char>>
    decreases parts.len(),
{
    if parts.len() == 0 {
        Map::empty()
    } else {
        merged_attrs(parts.drop_last()).union_prefer_right(parts.last())
    }
}

/// The attributes of a resource that has none.
pub open spec fn no_attrs() -> Map<Seq<char>, Seq<char>> {
    Map::empty()
}

/// The attribute maps of a sequence of resources.
pub open spec fn attrs_of(rs: Seq<Resource>) -> Seq<Map<Seq<char>, Seq<char>>> {
    rs.map_values(|r: Resource| resource_attrs(r))
}

/// Relies on `Resource::merge`: it inserts every attribute of `a`, then
/// every attribute of `b`, into one map (an empty side yields a clone of
/// the other).
#[verifier::external_body]
fn merge_pair(a: &Resource, b: &Resource) -> (r: Resource)
    ensures
        resource_attrs(r) == resource_attrs(*a).union_prefer_right(resource_attrs(*b)),
{
    a.merge(b)
}

/// Relies on `Resource::empty`: a resource without attributes.
#[verifier::external_body]
fn empty_resource() -> (r: Resource)
    ensures
        resource_attrs(r) == no_attrs(),
{
    Resource::empty()
}

/// Merges `parts` from first to last; on a key that several parts define,
/// the value of the last of them is kept.
pub fn merge_in_order(parts: &Vec<Resource>) -> (r: Resource)
    ensures
        resource_attrs(r) == merged_attrs(attrs_of(parts@)),
{
    let mut acc = empty_resource();
    let mut i: usize = 0;
    while i < parts.len()
        invariant
            i <= parts.len(),
            resource_attrs(acc) == merged_attrs(attrs_of(parts@.subrange(0, i as int))),
        decreases parts.len() - i,
    {
        acc = merge_pair(&acc, &parts[i]);
        proof {
            let next = attrs_of(parts@.subrange(0, i + 1));
            assert(next.drop_last() =~= attrs_of(parts@.subrange(0, i as int)));
        }
        i = i + 1;
    }
    assert(parts@.subrange(0, parts.len() as int) =~= parts@);
    acc
}

/// Seconds that each detector may spend collecting: none, so that a
/// detector that would have to wait yields what it has at once.
pub const DETECT_TIMEOUT_SECS: u64 = 0;

pub open spec fn key_os_type() -> Seq<char> {
    "os.type"@
}

pub open spec fn key_command_args() -> Seq<char> {
    "process.command_args"@
}

pub open spec fn key_pid() -> Seq<char> {
    "process.pid"@
}

pub open spec fn key_service_name() -> Seq<char> {
    "service.name"@
}

pub open spec fn key_sdk_name() -> Seq<char> {
    "telemetry.sdk.name"@
}

pub open spec fn key_sdk_language() -> Seq<char> {
    "telemetry.sdk.language"@
}

pub open spec fn key_sdk_version() -> Seq<char> {
    "telemetry.sdk.version"@
}

/// The attributes that identify the telemetry library itself.
pub open spec fn telemetry_attrs() -> Map<Seq<char>, Seq<char>> {
    map![
        key_sdk_name() => "opentelemetry"@,
        key_sdk_language() => "rust"@,
        key_sdk_version() => "0.21.2"@,
    ]
}

/// Relies on `OsResourceDetector::detect`: one attribute, `os.type`, the
/// target's operating system.
#[verifier::external_body]
fn detect_os(timeout_secs: u64) -> (r: Resource)
    ensures
        resource_attrs(r).dom() == set![key_os_type()],
{
    OsResourceDetector.detect(Duration::from_secs(timeout_secs))
}

/// Relies on `ProcessResourceDetector::detect`: the command line and the
/// process id, under two keys.
#[verifier::external_body]
fn detect_process(timeout_secs: u64) -> (r: Resource)
    ensures
        resource_attrs(r).dom() == set![key_command_args(), key_pid()],
{
    ProcessResourceDetector.detect(Duration::from_secs(timeout_secs))
}

/// Relies on `SdkProvidedResourceDetector::detect`: one attribute,
/// `service.name`, taken from the environment or a fixed fallback.
#[verifier::external_body]
fn detect_sdk(timeout_secs: u64) -> (r: Resource)
    ensures
        resource_attrs(r).dom() == set![key_service_name()],
{
    SdkProvidedResourceDetector.detect(Duration::from_secs(timeout_secs))
}

/// Relies on `EnvResourceDetector::detect`: whatever pairs the
/// environment lists; nothing is promised of them.
#[verifier::external_body]
fn detect_env(timeout_secs: u64) -> (r: Resource) {
    EnvResourceDetector::new().detect(Duration::from_secs(timeout_secs))
}

/// Relies on `TelemetryResourceDetector::detect`: the name, language and
/// version of the telemetry SDK, fixed when the SDK was built.
#[verifier::external_body]
fn detect_telemetry(timeout_secs: u64) -> (r: Resource)
    ensures
        resource_attrs(r) == telemetry_attrs(),
{
    TelemetryResourceDetector.detect(Duration::from_secs(timeout_secs))
}

/// Queries the operating-system, process, SDK, environment and telemetry
/// detectors, each with a zero timeout, and merges their results in that
/// order.
pub fn get_resource_attr() -> (r: Resource)
    ensures
        exists|parts: Seq<Map<Seq<char>, Seq<char>>>|
            {
                &&& parts.len() == 5
                &&& parts[0].dom() == set![key_os_type()]
                &&& parts[1].dom() == set![key_command_args(), key_pid()]
                &&& parts[2].dom() == set![key_service_name()]
                &&& parts[4] == telemetry_attrs()
                &&& resource_attrs(r) == merged_attrs(parts)
            },
        resource_attrs(r).contains_key(key_os_type()),
        resource_attrs(r).contains_key(key_command_args()),
        resource_attrs(r).contains_key(key_pid()),
        resource_attrs(r).contains_key(key_service_name()),
        resource_attrs(r)[key_sdk_name()] == "opentelemetry"@,
        resource_attrs(r)[key_sdk_language()] == "rust"@,
        resource_attrs(r)[key_sdk_version()] == "0.21.2"@,
{
    let os = detect_os(DETECT_TIMEOUT_SECS);
    let process = detect_process(DETECT_TIMEOUT_SECS);
    let sdk = detect_sdk(DETECT_TIMEOUT_SECS);
    let env = detect_env(DETECT_TIMEOUT_SECS);
    let telemetry = detect_telemetry(DETECT_TIMEOUT_SECS);
    let parts = vec![os, process, sdk, env, telemetry];
    let r = merge_in_order(&parts);
    proof {
        let ps = attrs_of(parts@);
        assert(ps.len() == 5);
        assert(ps[0] == resource_attrs(parts@[0]));
        assert(ps[1] == resource_attrs(parts@[1]));
        assert(ps[2] == resource_attrs(parts@[2]));
        assert(ps[4] == resource_attrs(parts@[4]));
        assert(set![key_os_type()].contains(key_os_type()));
        assert(set![key_command_args(), key_pid()].contains(key_command_args()));
        assert(set![key_command_args(), key_pid()].contains(key_pid()));
        assert(set![key_service_name()].contains(key_service_name()));
        reveal_strlit("telemetry.sdk.name");
        reveal_strlit("telemetry.sdk.language");
        reveal_strlit("telemetry.sdk.version");
        assert(key_sdk_name().len() != key_sdk_language().len());
        assert(key_sdk_name().len() != key_sdk_version().len());
        assert(key_sdk_language().len() != key_sdk_version().len());
        assert(telemetry_attrs()[key_sdk_name()] == "opentelemetry"@);
        assert(telemetry_attrs()[key_sdk_language()] == "rust"@);
        lemma_merged_keeps_key(ps, 0, key_os_type());
        lemma_merged_keeps_key(ps, 1, key_command_args());
        lemma_merged_keeps_key(ps, 1, key_pid());
        lemma_merged_keeps_key(ps, 2, key_service_name());
        lemma_last_part_wins(ps, key_sdk_name());
        lemma_last_part_wins(ps, key_sdk_language());
        lemma_last_part_wins(ps, key_sdk_version());
    }
    r
}

/// A key that some part defines is defined in the merge.
pub proof fn lemma_merged_keeps_key(parts: Seq<Map<Seq<char>, Seq<char>>>, i: int, k: Seq<char>)
    requires
        0 <= i < parts.len(),
        parts[i].contains_key(k),
    ensures
        merged_attrs(parts).contains_key(k),
    decreases parts.len(),
{
    if i < parts.len() - 1 {
        lemma_merged_keeps_key(parts.drop_last(), i, k);
    }
}

/// A key that the last part defines takes the last part's value.
pub proof fn lemma_last_part_wins(parts: Seq<Map<Seq<char>, Seq<char>>>, k: Seq<char>)
    requires
        parts.len() > 0,
        parts.last().contains_key(k),
    ensures
        merged_attrs(parts).contains_key(k),
        merged_attrs(parts)[k] == parts.last()[k],
{
}

/// On a key that an earlier part and a later part both define, the merge
/// holds the later part's value, provided no part after the later one
/// defines the key as well.
pub proof fn lemma_later_part_wins(
    parts: Seq<Map<Seq<char>, Seq<char>>>,
    i: int,
    j: int,
    k: Seq<char>,
)
    requires
        0 <= i < j < parts.len(),
        parts[i].contains_key(k),
        parts[j].contains_key(k),
        forall|l: int| j < l < parts.len() ==> !(#[trigger] parts[l]).contains_key(k),
    ensures
        merged_attrs(parts).contains_key(k),
        merged_attrs(parts)[k] == parts[j][k],
    decreases parts.len(),
{
    if j < parts.len() - 1 {
        let front = parts.drop_last();
        assert(!parts[parts.len() - 1].contains_key(k));
        assert forall|l: int| j < l < front.len() implies !(#[trigger] front[l]).contains_key(k) by {
            assert(front[l] == parts[l]);
        }
        lemma_later_part_wins(front, i, j, k);
    }
}

/// The merged attributes are determined by the detected parts alone: two
/// merges of parts that hold the same attributes yield the same attributes.
pub proof fn lemma_merge_deterministic(a: Seq<Resource>, b: Seq<Resource>)
    requires
        attrs_of(a) == attrs_of(b),
    ensures
        merged_attrs(attrs_of(a)) == merged_attrs(attrs_of(b)),
{
}

} // verus!
