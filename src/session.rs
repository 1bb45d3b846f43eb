//! The path-mappings records, the identity of the running pod, and the choice
//! of its most recent session.
use vstd::prelude::*;
use crate::path_map::same_text;

verus! {

/// One record of the path-mappings file.
#[derive(Debug, Clone, PartialEq, Eq)]
pub struct PathMapping {
    pub namespace: String,
    pub pod_name: String,
    pub container_name: String,
    /// An RFC 3339 instant.
    pub created_at: String,
    pub pod_hash: String,
    pub snapshot_hash: String,
    pub snapshot_id: Option<String>,
    pub last_accessed: Option<String>,
}

/// The records of the path-mappings file, each under its key, in file order.
#[derive(Debug, Clone, PartialEq, Eq)]
pub struct PathMappings {
    pub mappings: Vec<(String, PathMapping)>,
}

/// The namespace of a record that names none.
pub fn default_namespace() -> (r: String)
    ensures
        r@ == "default"@,
{
    String::from_str("default")
}

/// The identity of the running container.
#[derive(Debug, Clone, PartialEq, Eq)]
pub struct PodInfo {
    pub namespace: String,
    pub pod_name: String,
    pub container_name: String,
}

/// Which part of the pod's identity is missing.
#[derive(Debug, Clone, Copy, PartialEq, Eq, Structural)]
pub enum PodInfoError {
    MissingNamespace,
    MissingPodName,
    MissingContainerName,
}

impl PodInfo {
    /// The pod's identity: each part from its argument, else from its
    /// environment variable (`CURRENT_NAMESPACE`, `HOSTNAME`,
    /// `CURRENT_CONTAINER_NAME`, read by the caller); the first part missing
    /// from both is the error.
    pub fn from_args_and_env(
        namespace: Option<String>,
        pod_name: Option<String>,
        container_name: Option<String>,
        env_namespace: Option<String>,
        env_hostname: Option<String>,
        env_container_name: Option<String>,
    ) -> (r: Result<PodInfo, PodInfoError>)
        ensures
            namespace is None && env_namespace is None ==> r == Err::<PodInfo, PodInfoError>(
                PodInfoError::MissingNamespace,
            ),
            (namespace is Some || env_namespace is Some) && pod_name is None && env_hostname is None
                ==> r == Err::<PodInfo, PodInfoError>(PodInfoError::MissingPodName),
            (namespace is Some || env_namespace is Some) && (pod_name is Some
                || env_hostname is Some) && container_name is None && env_container_name is None
                ==> r == Err::<PodInfo, PodInfoError>(PodInfoError::MissingContainerName),
            r matches Ok(p) ==> {
                &&& p.namespace == if namespace is Some {
                    namespace->0
                } else {
                    env_namespace->0
                }
                &&& p.pod_name == if pod_name is Some {
                    pod_name->0
                } else {
                    env_hostname->0
                }
                &&& p.container_name == if container_name is Some {
                    container_name->0
                } else {
                    env_container_name->0
                }
            },
            (namespace is Some || env_namespace is Some) && (pod_name is Some || env_hostname is Some)
                && (container_name is Some || env_container_name is Some) ==> r is Ok,
    {
        let namespace = match namespace {
            Some(n) => n,
            None => match env_namespace {
                Some(n) => n,
                None => {
                    return Err(PodInfoError::MissingNamespace);
                },
            },
        };
        let pod_name = match pod_name {
            Some(n) => n,
            None => match env_hostname {
                Some(n) => n,
                None => {
                    return Err(PodInfoError::MissingPodName);
                },
            },
        };
        let container_name = match container_name {
            Some(n) => n,
            None => match env_container_name {
                Some(n) => n,
                None => {
                    return Err(PodInfoError::MissingContainerName);
                },
            },
        };
        Ok(PodInfo { namespace, pod_name, container_name })
    }
}

/// An instant as UTC seconds since the Unix epoch and nanoseconds within the
/// second.
#[derive(Debug, Clone, Copy, PartialEq, Eq, Structural)]
pub struct Timestamp {
    pub seconds: i64,
    pub nanos: u32,
}

/// `a` is strictly later than `b`.
pub open spec fn later(a: Timestamp, b: Timestamp) -> bool {
    a.seconds > b.seconds || (a.seconds == b.seconds && a.nanos > b.nanos)
}

/// Whether `a` is strictly later than `b`.
pub fn is_later(a: Timestamp, b: Timestamp) -> (r: bool)
    ensures
        r == later(a, b),
{
    a.seconds > b.seconds || (a.seconds == b.seconds && a.nanos > b.nanos)
}

/// What `chrono::DateTime::parse_from_rfc3339` makes of a text, as UTC epoch
/// seconds and nanoseconds; `None` when the text is not an RFC 3339 instant.
pub uninterp spec fn rfc3339_instant(s: Seq<char>) -> Option<(i64, u32)>;

/// Relies on `chrono::DateTime::parse_from_rfc3339`, with `timestamp` and
/// `timestamp_subsec_nanos` of its result: the instant depends on the text
/// alone.
#[verifier::external_body]
fn parse_rfc3339(s: &str) -> (r: Option<(i64, u32)>)
    ensures
        r == rfc3339_instant(s@),
{
    match chrono::DateTime::parse_from_rfc3339(s) {
        Ok(d) => Some((d.timestamp(), d.timestamp_subsec_nanos())),
        Err(_) => None,
    }
}

/// The instant a record was created, when its text parses.
pub open spec fn created_instant(m: PathMapping) -> Option<Timestamp> {
    match rfc3339_instant(m.created_at@) {
        Some(p) => Some(Timestamp { seconds: p.0, nanos: p.1 }),
        None => None,
    }
}

/// Parses an RFC 3339 instant.
pub fn parse_timestamp(s: &str) -> (r: Option<Timestamp>)
    ensures
        r == match rfc3339_instant(s@) {
            Some(p) => Some(Timestamp { seconds: p.0, nanos: p.1 }),
            None => None,
        },
{
    match parse_rfc3339(s) {
        Some((seconds, nanos)) => Some(Timestamp { seconds, nanos }),
        None => None,
    }
}

/// The record belongs to the pod.
pub open spec fn matches_pod(m: PathMapping, pod: PodInfo) -> bool {
    m.namespace@ == pod.namespace@ && m.pod_name@ == pod.pod_name@ && m.container_name@
        == pod.container_name@
}

/// Whether the record belongs to the pod.
pub fn mapping_matches_pod(m: &PathMapping, pod: &PodInfo) -> (r: bool)
    ensures
        r == matches_pod(*m, *pod),
{
    same_text(m.namespace.as_str(), pod.namespace.as_str()) && same_text(
        m.pod_name.as_str(),
        pod.pod_name.as_str(),
    ) && same_text(m.container_name.as_str(), pod.container_name.as_str())
}

/// The current session of a pod.
#[derive(Debug, Clone, PartialEq, Eq)]
pub struct SessionInfo {
    pub pod_hash: String,
    pub snapshot_hash: String,
    pub created_at: Timestamp,
}

/// Why no session could be chosen.
#[derive(Debug, Clone, PartialEq, Eq)]
pub enum SessionError {
    /// The record under `key`, which belongs to the pod, has a `created_at`
    /// that is not an RFC 3339 instant.
    InvalidTimestamp { key: String, created_at: String },
}

/// Picks the pod's most recent record among `entries`, given the instant of
/// each record that belongs to the pod (`stamps[i]`; ignored for the others).
/// The first record of the pod with no instant is the error (its index);
/// among the latest, the first in order wins; `None` when no record belongs
/// to the pod.
pub fn select_latest(
    entries: &Vec<(String, PathMapping)>,
    pod: &PodInfo,
    stamps: &Vec<Option<Timestamp>>,
) -> (r: Result<Option<usize>, usize>)
    requires
        entries@.len() == stamps@.len(),
    ensures
        match r {
            Err(i) => {
                &&& 0 <= i < entries@.len()
                &&& matches_pod(entries@[i as int].1, *pod)
                &&& stamps@[i as int] is None
                &&& forall|j: int|
                    0 <= j < i && matches_pod(#[trigger] entries@[j].1, *pod) ==> stamps@[j] is Some
            },
            Ok(None) => forall|j: int|
                0 <= j < entries@.len() ==> !matches_pod(#[trigger] entries@[j].1, *pod),
            Ok(Some(i)) => {
                &&& 0 <= i < entries@.len()
                &&& matches_pod(entries@[i as int].1, *pod)
                &&& stamps@[i as int] is Some
                &&& forall|j: int|
                    0 <= j < entries@.len() && matches_pod(#[trigger] entries@[j].1, *pod)
                        ==> stamps@[j] is Some && !later(stamps@[j]->0, stamps@[i as int]->0)
                &&& forall|j: int|
                    0 <= j < i && matches_pod(#[trigger] entries@[j].1, *pod) ==> later(
                        stamps@[i as int]->0,
                        stamps@[j]->0,
                    )
            },
        },
{
    let mut best: Option<usize> = None;
    let mut i: usize = 0;
    while i < entries.len()
        invariant
            entries@.len() == stamps@.len(),
            i <= entries@.len(),
            forall|j: int|
                0 <= j < i && matches_pod(#[trigger] entries@[j].1, *pod) ==> stamps@[j] is Some,
            match best {
                None => forall|j: int|
                    0 <= j < i ==> !matches_pod(#[trigger] entries@[j].1, *pod),
                Some(b) => {
                    &&& 0 <= b < i
                    &&& matches_pod(entries@[b as int].1, *pod)
                    &&& stamps@[b as int] is Some
                    &&& forall|j: int|
                        0 <= j < i && matches_pod(#[trigger] entries@[j].1, *pod) ==> !later(
                            stamps@[j]->0,
                            stamps@[b as int]->0,
                        )
                    &&& forall|j: int|
                        0 <= j < b && matches_pod(#[trigger] entries@[j].1, *pod) ==> later(
                            stamps@[b as int]->0,
                            stamps@[j]->0,
                        )
                },
            },
        decreases entries@.len() - i,
    {
        if mapping_matches_pod(&entries[i].1, pod) {
            match stamps[i] {
                None => {
                    return Err(i);
                },
                Some(t) => {
                    match best {
                        None => {
                            best = Some(i);
                        },
                        Some(b) => {
                            let bt = stamps[b].unwrap();
                            if is_later(t, bt) {
                                best = Some(i);
                            }
                        },
                    }
                },
            }
        }
        i += 1;
    }
    Ok(best)
}

/// Finds the pod's current session in the records: the one of the pod with
/// the latest creation instant (the first of them in order).
pub fn find_current_session(mappings: &PathMappings, pod: &PodInfo) -> (r: Result<
    Option<SessionInfo>,
    SessionError,
>)
    ensures
        ({
            let entries = mappings.mappings@;
            match r {
                Err(SessionError::InvalidTimestamp { key, created_at }) => exists|i: int|
                    0 <= i < entries.len() && matches_pod(entries[i].1, *pod) && created_instant(
                        entries[i].1,
                    ) is None && key == entries[i].0 && created_at == entries[i].1.created_at
                        && forall|j: int|
                        0 <= j < i && matches_pod(#[trigger] entries[j].1, *pod) ==> created_instant(
                            entries[j].1,
                        ) is Some,
                Ok(None) => forall|j: int|
                    0 <= j < entries.len() ==> !matches_pod(#[trigger] entries[j].1, *pod),
                Ok(Some(s)) => exists|i: int|
                    {
                        &&& 0 <= i < entries.len()
                        &&& matches_pod(entries[i].1, *pod)
                        &&& created_instant(entries[i].1) == Some(s.created_at)
                        &&& s.pod_hash == entries[i].1.pod_hash
                        &&& s.snapshot_hash == entries[i].1.snapshot_hash
                        &&& forall|j: int|
                            0 <= j < entries.len() && matches_pod(#[trigger] entries[j].1, *pod)
                                ==> created_instant(entries[j].1) is Some && !later(
                                created_instant(entries[j].1)->0,
                                s.created_at,
                            )
                        &&& forall|j: int|
                            0 <= j < i && matches_pod(#[trigger] entries[j].1, *pod) ==> later(
                                s.created_at,
                                created_instant(entries[j].1)->0,
                            )
                    },
            }
        }),
{
    let entries = &mappings.mappings;
    let mut stamps: Vec<Option<Timestamp>> = Vec::new();
    let mut i: usize = 0;
    while i < entries.len()
        invariant
            i <= entries@.len(),
            stamps@.len() == i,
            forall|j: int|
                0 <= j < i && matches_pod(#[trigger] entries@[j].1, *pod) ==> stamps@[j]
                    == created_instant(entries@[j].1),
        decreases entries@.len() - i,
    {
        if mapping_matches_pod(&entries[i].1, pod) {
            stamps.push(parse_timestamp(entries[i].1.created_at.as_str()));
        } else {
            stamps.push(None);
        }
        i += 1;
    }
    match select_latest(entries, pod, &stamps) {
        Err(k) => Err(
            SessionError::InvalidTimestamp {
                key: entries[k].0.clone(),
                created_at: entries[k].1.created_at.clone(),
            },
        ),
        Ok(None) => Ok(None),
        Ok(Some(k)) => {
            let m = &entries[k].1;
            Ok(
                Some(
                    SessionInfo {
                        pod_hash: m.pod_hash.clone(),
                        snapshot_hash: m.snapshot_hash.clone(),
                        created_at: stamps[k].unwrap(),
                    },
                ),
            )
        },
    }
}

/// A session directory found on disk for a pod.
#[derive(Debug, Clone, PartialEq, Eq)]
pub struct SessionCandidate {
    pub snapshot_hash: String,
    /// Whether its file tree holds at least one file.
    pub has_content: bool,
}

/// The previous session to restore from: the first of `sessions` (newest
/// first) that is not the current one and has content.
pub fn select_previous_session(sessions: &Vec<SessionCandidate>, current_snapshot_hash: &str) -> (r:
    Option<usize>)
    ensures
        match r {
            Some(i) => {
                &&& 0 <= i < sessions@.len()
                &&& sessions@[i as int].snapshot_hash@ != current_snapshot_hash@
                &&& sessions@[i as int].has_content
                &&& forall|j: int|
                    0 <= j < i ==> (#[trigger] sessions@[j]).snapshot_hash@
                        == current_snapshot_hash@ || !sessions@[j].has_content
            },
            None => forall|j: int|
                0 <= j < sessions@.len() ==> (#[trigger] sessions@[j]).snapshot_hash@
                    == current_snapshot_hash@ || !sessions@[j].has_content,
        },
{
    let mut i: usize = 0;
    while i < sessions.len()
        invariant
            i <= sessions@.len(),
            forall|j: int|
                0 <= j < i ==> (#[trigger] sessions@[j]).snapshot_hash@ == current_snapshot_hash@
                    || !sessions@[j].has_content,
        decreases sessions@.len() - i,
    {
        let s = &sessions[i];
        if !same_text(s.snapshot_hash.as_str(), current_snapshot_hash) && s.has_content {
            return Some(i);
        }
        i += 1;
    }
    None
}

/// Session directories modified less than this many seconds ago are kept.
pub const RECENT_SESSION_SECS: u64 = 300;

/// Whether an old session directory may be removed: it is neither the
/// current nor the previous session, and it was not modified within the last
/// five minutes (`age_secs`, `None` when the clock cannot tell).
pub fn session_dir_removable(
    snapshot_hash: &str,
    current_session: &str,
    previous_session: &str,
    age_secs: Option<u64>,
) -> (r: bool)
    ensures
        r == (snapshot_hash@ != current_session@ && snapshot_hash@ != previous_session@
            && match age_secs {
            Some(a) => a >= RECENT_SESSION_SECS,
            None => true,
        }),
{
    if same_text(snapshot_hash, current_session) || same_text(snapshot_hash, previous_session) {
        return false;
    }
    match age_secs {
        Some(a) => a >= RECENT_SESSION_SECS,
        None => true,
    }
}

} // verus!
