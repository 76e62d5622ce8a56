//! Compose-style volume strings and the bind-mount descriptors built from
//! them.
use vstd::prelude::*;

use crate::error::ComposeError;
use crate::text::{lemma_split_on_join, lemma_split_on_without_sep, split_fields, split_on};

verus! {

/// A bind mount requested by a service.
#[derive(Debug, Clone, PartialEq, Eq)]
pub struct VolumePattern {
    pub host_path: String,
    pub container_path: String,
    pub read_only: bool,
}

pub open spec fn read_only_mode() -> Seq<char> {
    seq!['r', 'o']
}

/// What a volume string denotes, as (host path, container path, read-only):
/// `"hostPath:containerPath"` is read-write, and
/// `"hostPath:containerPath:mode"` is read-only exactly when the mode is `ro`.
pub open spec fn volume_mapping(s: Seq<char>) -> Option<(Seq<char>, Seq<char>, bool)> {
    let f = split_on(s, ':');
    if f.len() == 2 {
        Some((f[0], f[1], false))
    } else if f.len() == 3 {
        Some((f[0], f[1], f[2] == read_only_mode()))
    } else {
        None
    }
}

impl VolumePattern {
    pub open spec fn describes(&self, m: (Seq<char>, Seq<char>, bool)) -> bool {
        &&& self.host_path@ == m.0
        &&& self.container_path@ == m.1
        &&& self.read_only == m.2
    }
}

/// Every string of `volumes` is a valid volume mapping.
pub open spec fn all_volume_mappings_valid(volumes: Seq<String>) -> bool {
    forall|i: int| 0 <= i < volumes.len() ==> (#[trigger] volume_mapping(volumes[i]@)).is_some()
}

fn is_read_only_mode(s: &str) -> (r: bool)
    ensures
        r == (s@ == read_only_mode()),
{
    if s.unicode_len() == 2 {
        let a = s.get_char(0);
        let b = s.get_char(1);
        proof {
            if a == 'r' && b == 'o' {
                assert(s@ =~= read_only_mode());
            }
        }
        a == 'r' && b == 'o'
    } else {
        false
    }
}

/// Realizes the named volumes of a spec and reads the volume strings of
/// services.
#[derive(Debug, Clone)]
pub struct VolumeManager {}

impl VolumeManager {
    pub fn new() -> (r: VolumeManager) {
        VolumeManager {  }
    }

    /// Translates compose-style volume strings into mount patterns, in
    /// order. Fails when any one of them has fewer than two or more than
    /// three fields.
    pub fn string_to_pattern(volumes: Vec<String>) -> (r: Result<Vec<VolumePattern>, ComposeError>)
        ensures
            r.is_ok() == all_volume_mappings_valid(volumes@),
            match r {
                Ok(v) => v.len() == volumes.len() && forall|i: int|
                    0 <= i < v.len() ==> (#[trigger] v@[i]).describes(
                        volume_mapping(volumes@[i]@).unwrap(),
                    ),
                Err(e) => e == ComposeError::InvalidVolumeMapping,
            },
    {
        let mut out: Vec<VolumePattern> = Vec::new();
        let mut i: usize = 0;
        while i < volumes.len()
            invariant
                i <= volumes.len(),
                out.len() == i,
                forall|k: int| 0 <= k < i ==> (#[trigger] volume_mapping(volumes@[k]@)).is_some(),
                forall|k: int|
                    0 <= k < i ==> (#[trigger] out@[k]).describes(
                        volume_mapping(volumes@[k]@).unwrap(),
                    ),
            decreases volumes.len() - i,
        {
            let parts = split_fields(volumes[i].as_str(), ':');
            let ghost f = split_on(volumes@[i as int]@, ':');
            assert(parts@.map_values(|x: String| x@) == f);
            assert(parts.len() == f.len());
            if parts.len() == 2 || parts.len() == 3 {
                assert(parts@[0]@ == f[0]);
                assert(parts@[1]@ == f[1]);
                let read_only = if parts.len() == 3 {
                    assert(parts@[2]@ == f[2]);
                    is_read_only_mode(parts[2].as_str())
                } else {
                    false
                };
                out.push(
                    VolumePattern {
                        host_path: parts[0].clone(),
                        container_path: parts[1].clone(),
                        read_only,
                    },
                );
            } else {
                assert(volume_mapping(volumes@[i as int]@).is_none());
                return Err(ComposeError::InvalidVolumeMapping);
            }
            i = i + 1;
        }
        Ok(out)
    }
}

/// `"A:B"` is a read-write mount of `A` at `B`; `"A:B:M"` mounts `A` at `B`,
/// read-only exactly when `M` is `ro`. No other suffix makes a mount
/// read-only.
pub proof fn lemma_volume_read_only(a: Seq<char>, b: Seq<char>, m: Seq<char>)
    requires
        !a.contains(':'),
        !b.contains(':'),
        !m.contains(':'),
    ensures
        volume_mapping(a.push(':') + b) == Some((a, b, false)),
        volume_mapping(a.push(':') + b.push(':') + m) == Some((a, b, m == read_only_mode())),
        forall|s: Seq<char>| #[trigger] volume_mapping(s) matches Some(v) && v.2 ==> split_on(s, ':').len() == 3
            && split_on(s, ':')[2] == read_only_mode(),
{
    lemma_split_on_without_sep(a, ':');
    lemma_split_on_without_sep(b, ':');
    lemma_split_on_without_sep(m, ':');
    lemma_split_on_join(a, b, ':');
    assert(split_on(a.push(':') + b, ':') =~= seq![a, b]);
    lemma_split_on_join(b, m, ':');
    assert(a.push(':') + b.push(':') + m =~= a.push(':') + (b.push(':') + m));
    lemma_split_on_join(a, b.push(':') + m, ':');
    assert(split_on(a.push(':') + b.push(':') + m, ':') =~= seq![a, b, m]);
}

} // verus!
