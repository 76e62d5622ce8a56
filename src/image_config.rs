//! The image configuration recorded by an image build: labels, environment,
//! entrypoint and command.
use vstd::prelude::*;

verus! {

/// A string-to-string table as a map; a later entry for a key wins.
pub open spec fn entries_map(s: Seq<(String, String)>) -> Map<Seq<char>, Seq<char>>
    decreases s.len(),
{
    if s.len() == 0 {
        Map::empty()
    } else {
        entries_map(s.drop_last()).insert(s.last().0@, s.last().1@)
    }
}

/// No key occurs twice.
pub open spec fn keys_distinct(s: Seq<(String, String)>) -> bool {
    forall|i: int, j: int| 0 <= i < j < s.len() ==> s[i].0@ != s[j].0@
}

proof fn lemma_entries_map_update(s: Seq<(String, String)>, i: int, k: String, v: String)
    requires
        0 <= i < s.len(),
        s[i].0@ == k@,
        keys_distinct(s),
    ensures
        entries_map(s.update(i, (k, v))) == entries_map(s).insert(k@, v@),
    decreases s.len(),
{
    let t = s.update(i, (k, v));
    if i == s.len() - 1 {
        assert(t.drop_last() =~= s.drop_last());
        assert(entries_map(t) =~= entries_map(s).insert(k@, v@));
    } else {
        assert(t.drop_last() =~= s.drop_last().update(i, (k, v)));
        lemma_entries_map_update(s.drop_last(), i, k, v);
        assert(s.last().0@ != k@);
        assert(entries_map(t) =~= entries_map(s).insert(k@, v@));
    }
}

fn set_entry(table: &mut Vec<(String, String)>, key: String, value: String)
    requires
        keys_distinct(old(table)@),
    ensures
        keys_distinct(final(table)@),
        entries_map(final(table)@) == entries_map(old(table)@).insert(key@, value@),
{
    let mut i: usize = 0;
    while i < table.len()
        invariant
            i <= table.len(),
            table@ == old(table)@,
            keys_distinct(table@),
            forall|a: int| 0 <= a < i ==> table@[a].0@ != key@,
        decreases table.len() - i,
    {
        if table[i].0 == key {
            proof {
                lemma_entries_map_update(table@, i as int, key, value);
            }
            let ghost before = table@;
            table.set(i, (key, value));
            proof {
                assert(table@ == before.update(i as int, (key, value)));
                assert forall|a: int, b: int| 0 <= a < b < table@.len() implies table@[a].0@
                    != table@[b].0@ by {
                    assert(before[a].0@ != before[b].0@);
                }
            }
            return;
        }
        i = i + 1;
    }
    let ghost before = table@;
    table.push((key, value));
    proof {
        assert(table@.drop_last() =~= before);
    }
}

/// Image configuration: labels and environment keyed by name, in the order
/// they were first set, plus entrypoint and command.
#[derive(Debug)]
pub struct ImageConfig {
    pub labels: Vec<(String, String)>,
    pub envp: Vec<(String, String)>,
    pub entrypoint: Option<Vec<String>>,
    pub cmd: Option<Vec<String>>,
}

impl ImageConfig {
    pub open spec fn wf(&self) -> bool {
        keys_distinct(self.labels@) && keys_distinct(self.envp@)
    }

    pub open spec fn label_map(&self) -> Map<Seq<char>, Seq<char>> {
        entries_map(self.labels@)
    }

    pub open spec fn env_map(&self) -> Map<Seq<char>, Seq<char>> {
        entries_map(self.envp@)
    }

    /// An empty configuration.
    pub fn new() -> (r: ImageConfig)
        ensures
            r.wf(),
            r.labels@.len() == 0,
            r.envp@.len() == 0,
            r.entrypoint is None,
            r.cmd is None,
    {
        ImageConfig { labels: Vec::new(), envp: Vec::new(), entrypoint: None, cmd: None }
    }

    /// Sets label `key` to `value`, replacing an earlier value.
    pub fn add_label(&mut self, key: String, value: String)
        requires
            old(self).wf(),
        ensures
            final(self).wf(),
            final(self).label_map() == old(self).label_map().insert(key@, value@),
            final(self).envp@ == old(self).envp@,
            final(self).entrypoint == old(self).entrypoint,
            final(self).cmd == old(self).cmd,
    {
        set_entry(&mut self.labels, key, value);
    }

    /// Sets environment variable `key` to `value`, replacing an earlier value.
    pub fn add_envp(&mut self, key: String, value: String)
        requires
            old(self).wf(),
        ensures
            final(self).wf(),
            final(self).env_map() == old(self).env_map().insert(key@, value@),
            final(self).labels@ == old(self).labels@,
            final(self).entrypoint == old(self).entrypoint,
            final(self).cmd == old(self).cmd,
    {
        set_entry(&mut self.envp, key, value);
    }

    pub fn set_entrypoint(&mut self, entrypoint: Vec<String>)
        ensures
            final(self).entrypoint == Some(entrypoint),
            final(self).labels@ == old(self).labels@,
            final(self).envp@ == old(self).envp@,
            final(self).cmd == old(self).cmd,
    {
        self.entrypoint = Some(entrypoint);
    }

    pub fn set_cmd(&mut self, cmd: Vec<String>)
        ensures
            final(self).cmd == Some(cmd),
            final(self).labels@ == old(self).labels@,
            final(self).envp@ == old(self).envp@,
            final(self).entrypoint == old(self).entrypoint,
    {
        self.cmd = Some(cmd);
    }

    /// The environment as `KEY=value` strings, in table order.
    pub fn env_entries(&self) -> (r: Vec<String>)
        ensures
            r.len() == self.envp.len(),
            forall|i: int|
                0 <= i < r.len() ==> (#[trigger] r@[i])@ == self.envp@[i].0@ + "="@ + self.envp@[i].1@,
    {
        let mut out: Vec<String> = Vec::new();
        let mut i: usize = 0;
        while i < self.envp.len()
            invariant
                i <= self.envp.len(),
                out.len() == i,
                forall|a: int|
                    0 <= a < i ==> (#[trigger] out@[a])@ == self.envp@[a].0@ + "="@ + self.envp@[a].1@,
            decreases self.envp.len() - i,
        {
            let mut entry = self.envp[i].0.clone();
            entry.append("=");
            entry.append(self.envp[i].1.as_str());
            out.push(entry);
            i = i + 1;
        }
        out
    }
}

} // verus!
