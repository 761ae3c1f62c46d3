use vstd::prelude::*;
use crate::text::chars_equal;

verus! {

/// The mapping that a list of (trigger, replacement) entries stands for.
pub open spec fn section_map(s: Seq<(String, String)>) -> Map<Seq<char>, Seq<char>>
    decreases s.len(),
{
    if s.len() == 0 {
        Map::empty()
    } else {
        section_map(s.drop_last()).insert(s.last().0@, s.last().1@)
    }
}

pub open spec fn keys_unique(s: Seq<(String, String)>) -> bool {
    forall|i: int, j: int| 0 <= i < j < s.len() ==> s[i].0@ != s[j].0@
}

/// What the trigger table gives for `key`: the case-sensitive section is
/// consulted first, then the case-insensitive one, both by exact match.
pub open spec fn resolve(
    sensitive: Map<Seq<char>, Seq<char>>,
    insensitive: Map<Seq<char>, Seq<char>>,
    key: Seq<char>,
) -> Option<Seq<char>> {
    if sensitive.contains_key(key) {
        Some(sensitive[key])
    } else if insensitive.contains_key(key) {
        Some(insensitive[key])
    } else {
        None
    }
}

proof fn lemma_section_map_at(s: Seq<(String, String)>, i: int)
    requires
        keys_unique(s),
        0 <= i < s.len(),
    ensures
        section_map(s).contains_key(s[i].0@),
        section_map(s)[s[i].0@] == s[i].1@,
    decreases s.len(),
{
    if i < s.len() - 1 {
        lemma_section_map_at(s.drop_last(), i);
        assert(s.drop_last()[i] == s[i]);
    }
}

proof fn lemma_section_map_absent(s: Seq<(String, String)>, k: Seq<char>)
    requires
        forall|i: int| 0 <= i < s.len() ==> (#[trigger] s[i]).0@ != k,
    ensures
        !section_map(s).contains_key(k),
    decreases s.len(),
{
    if s.len() > 0 {
        assert(s.last() == s[s.len() - 1]);
        assert forall|i: int| 0 <= i < s.drop_last().len() implies (#[trigger] s.drop_last()[i]).0@ != k by {
            assert(s.drop_last()[i] == s[i]);
        }
        lemma_section_map_absent(s.drop_last(), k);
    }
}

proof fn lemma_section_map_update(s: Seq<(String, String)>, i: int, p: (String, String))
    requires
        keys_unique(s),
        0 <= i < s.len(),
        p.0@ == s[i].0@,
    ensures
        section_map(s.update(i, p)) == section_map(s).insert(p.0@, p.1@),
    decreases s.len(),
{
    let u = s.update(i, p);
    if i == s.len() - 1 {
        assert(u.drop_last() =~= s.drop_last());
        assert(section_map(u) =~= section_map(s).insert(p.0@, p.1@));
    } else {
        assert(u.drop_last() =~= s.drop_last().update(i, p));
        lemma_section_map_update(s.drop_last(), i, p);
        assert(s[i].0@ != s.last().0@);
        assert(section_map(u) =~= section_map(s).insert(p.0@, p.1@));
    }
}

/// The trigger table: a case-sensitive and a case-insensitive section, each
/// mapping a trigger to its replacement. The case-insensitive section is
/// expected to hold lower-cased triggers; both sections are matched exactly.
pub struct ExpansionFile {
    case_sensitive: Vec<(String, String)>,
    case_insensitive: Vec<(String, String)>,
}

fn find_entry(s: &Vec<(String, String)>, key: &Vec<char>) -> (r: Option<usize>)
    ensures
        match r {
            Some(i) => i < s@.len() && s@[i as int].0@ == key@,
            None => forall|i: int| 0 <= i < s@.len() ==> (#[trigger] s@[i]).0@ != key@,
        },
{
    let mut i: usize = 0;
    while i < s.len()
        invariant
            i <= s@.len(),
            forall|j: int| 0 <= j < i ==> (#[trigger] s@[j]).0@ != key@,
        decreases s.len() - i,
    {
        if chars_equal(key, s[i].0.as_str()) {
            return Some(i);
        }
        i = i + 1;
    }
    None
}

fn insert_entry(s: &mut Vec<(String, String)>, trigger: String, replacement: String)
    requires
        keys_unique(old(s)@),
    ensures
        keys_unique(final(s)@),
        section_map(final(s)@) == section_map(old(s)@).insert(trigger@, replacement@),
{
    let key = crate::text::chars_of(trigger.as_str());
    match find_entry(s, &key) {
        Some(i) => {
            proof {
                lemma_section_map_update(s@, i as int, (trigger, replacement));
            }
            let ghost before = s@;
            s[i] = (trigger, replacement);
            assert(s@ == before.update(i as int, (trigger, replacement)));
        },
        None => {
            let ghost before = s@;
            s.push((trigger, replacement));
            assert(s@.drop_last() =~= before);
        },
    }
}

fn lookup_entry(s: &Vec<(String, String)>, key: &Vec<char>) -> (r: Option<String>)
    requires
        keys_unique(s@),
    ensures
        match r {
            Some(v) => section_map(s@).contains_key(key@) && section_map(s@)[key@] == v@,
            None => !section_map(s@).contains_key(key@),
        },
{
    match find_entry(s, key) {
        Some(i) => {
            proof {
                lemma_section_map_at(s@, i as int);
            }
            Some(s[i].1.clone())
        },
        None => {
            proof {
                lemma_section_map_absent(s@, key@);
            }
            None
        },
    }
}

impl ExpansionFile {
    pub closed spec fn wf(&self) -> bool {
        keys_unique(self.case_sensitive@) && keys_unique(self.case_insensitive@)
    }

    pub closed spec fn sensitive_map(&self) -> Map<Seq<char>, Seq<char>> {
        section_map(self.case_sensitive@)
    }

    pub closed spec fn insensitive_map(&self) -> Map<Seq<char>, Seq<char>> {
        section_map(self.case_insensitive@)
    }

    /// An empty table.
    pub fn new() -> (r: ExpansionFile)
        ensures
            r.wf(),
            r.sensitive_map() == Map::<Seq<char>, Seq<char>>::empty(),
            r.insensitive_map() == Map::<Seq<char>, Seq<char>>::empty(),
    {
        ExpansionFile { case_sensitive: Vec::new(), case_insensitive: Vec::new() }
    }

    /// Sets the replacement of `trigger` in the case-sensitive section.
    pub fn insert_case_sensitive(&mut self, trigger: String, replacement: String)
        requires
            old(self).wf(),
        ensures
            final(self).wf(),
            final(self).sensitive_map() == old(self).sensitive_map().insert(trigger@, replacement@),
            final(self).insensitive_map() == old(self).insensitive_map(),
    {
        insert_entry(&mut self.case_sensitive, trigger, replacement);
    }

    /// Sets the replacement of `trigger` in the case-insensitive section.
    pub fn insert_case_insensitive(&mut self, trigger: String, replacement: String)
        requires
            old(self).wf(),
        ensures
            final(self).wf(),
            final(self).insensitive_map() == old(self).insensitive_map().insert(trigger@, replacement@),
            final(self).sensitive_map() == old(self).sensitive_map(),
    {
        insert_entry(&mut self.case_insensitive, trigger, replacement);
    }

    /// The entries of the case-sensitive section.
    pub fn case_sensitive_entries(&self) -> (r: &Vec<(String, String)>)
        requires
            self.wf(),
        ensures
            keys_unique(r@),
            section_map(r@) == self.sensitive_map(),
    {
        &self.case_sensitive
    }

    /// The entries of the case-insensitive section.
    pub fn case_insensitive_entries(&self) -> (r: &Vec<(String, String)>)
        requires
            self.wf(),
        ensures
            keys_unique(r@),
            section_map(r@) == self.insensitive_map(),
    {
        &self.case_insensitive
    }

    /// The replacement for exactly the characters of `key`, from the
    /// case-sensitive section first and then the case-insensitive one.
    pub fn lookup(&self, key: &Vec<char>) -> (r: Option<String>)
        requires
            self.wf(),
        ensures
            match r {
                Some(v) => resolve(self.sensitive_map(), self.insensitive_map(), key@) == Some(v@),
                None => resolve(self.sensitive_map(), self.insensitive_map(), key@) is None,
            },
    {
        match lookup_entry(&self.case_sensitive, key) {
            Some(v) => Some(v),
            None => lookup_entry(&self.case_insensitive, key),
        }
    }
}

} // verus!
