use vstd::prelude::*;

verus! {

use crate::text::str_eq;
use vstd::string::StringExecFns;

/// The five kinds of segment the line can show, in their fixed rendering
/// order.
#[derive(Debug, Clone, Copy, PartialEq, Eq, Structural)]
pub enum SegmentId {
    Model,
    Directory,
    Git,
    Context,
    Usage,
}

/// What one segment shows for one render pass: a primary text, an optional
/// secondary text (empty means absent), and string metadata under unique keys.
#[derive(Debug)]
pub struct SegmentData {
    pub primary: String,
    pub secondary: String,
    pub metadata: Vec<(String, String)>,
}

/// First value stored under `k`, walking the pairs front to back.
pub open spec fn assoc_find(m: Seq<(String, String)>, k: Seq<char>) -> Option<Seq<char>>
    decreases m.len(),
{
    if m.len() == 0 {
        None
    } else if m[0].0@ == k {
        Some(m[0].1@)
    } else {
        assoc_find(m.drop_first(), k)
    }
}

/// No two pairs share a key.
pub open spec fn md_keys_unique(m: Seq<(String, String)>) -> bool {
    forall|i: int, j: int| 0 <= i < j < m.len() ==> (#[trigger] m[i]).0@ != (#[trigger] m[j]).0@
}

proof fn lemma_assoc_find_first_match(m: Seq<(String, String)>, k: Seq<char>, i: int)
    requires
        0 <= i < m.len(),
        m[i].0@ == k,
        forall|j: int| 0 <= j < i ==> (#[trigger] m[j]).0@ != k,
    ensures
        assoc_find(m, k) == Some(m[i].1@),
    decreases i,
{
    if i > 0 {
        lemma_assoc_find_first_match(m.drop_first(), k, i - 1);
    }
}

proof fn lemma_assoc_find_no_match(m: Seq<(String, String)>, k: Seq<char>)
    requires
        forall|j: int| 0 <= j < m.len() ==> (#[trigger] m[j]).0@ != k,
    ensures
        assoc_find(m, k) is None,
    decreases m.len(),
{
    if m.len() > 0 {
        lemma_assoc_find_no_match(m.drop_first(), k);
    }
}

/// Replacing the value stored under `k` leaves every other lookup unchanged.
proof fn lemma_assoc_find_same_except(
    m1: Seq<(String, String)>,
    m2: Seq<(String, String)>,
    i: int,
    k: Seq<char>,
    k2: Seq<char>,
)
    requires
        m1.len() == m2.len(),
        0 <= i < m1.len(),
        forall|j: int| 0 <= j < m1.len() && j != i ==> m1[j] == m2[j],
        m1[i].0@ == k,
        m2[i].0@ == k,
        k2 != k,
    ensures
        assoc_find(m1, k2) == assoc_find(m2, k2),
    decreases m1.len(),
{
    if i == 0 {
        assert(m1.drop_first() =~= m2.drop_first());
    } else {
        assert(m1[0] == m2[0]);
        if m1[0].0@ != k2 {
            lemma_assoc_find_same_except(m1.drop_first(), m2.drop_first(), i - 1, k, k2);
        }
    }
}

/// Appending a pair only affects a lookup of that pair's key, and only when
/// the key was absent.
proof fn lemma_assoc_find_push(m: Seq<(String, String)>, p: (String, String), k2: Seq<char>)
    ensures
        assoc_find(m.push(p), k2) == if assoc_find(m, k2) is Some {
            assoc_find(m, k2)
        } else if p.0@ == k2 {
            Some(p.1@)
        } else {
            None
        },
    decreases m.len(),
{
    reveal_with_fuel(assoc_find, 2);
    if m.len() == 0 {
        assert(m.push(p)[0] == p);
        if p.0@ == k2 {
            assert(assoc_find(m.push(p), k2) == Some(p.1@));
        } else {
            assert(m.push(p).drop_first() =~= Seq::<(String, String)>::empty());
            assert(assoc_find(m.push(p), k2) is None);
        }
        assert(assoc_find(m, k2) is None);
    } else {
        assert(m.push(p)[0] == m[0]);
        if m[0].0@ == k2 {
            assert(assoc_find(m.push(p), k2) == Some(m[0].1@));
            assert(assoc_find(m, k2) == Some(m[0].1@));
        } else {
            assert(m.push(p).drop_first() =~= m.drop_first().push(p));
            lemma_assoc_find_push(m.drop_first(), p, k2);
            assert(assoc_find(m.push(p), k2) == assoc_find(m.drop_first().push(p), k2));
            assert(assoc_find(m, k2) == assoc_find(m.drop_first(), k2));
        }
    }
}

/// The metadata keys the collectors use are pairwise distinct: they differ
/// in their first character, or, for `tokens`/`type` and `branch`/`behind`,
/// in their second.
pub proof fn lemma_metadata_keys_distinct()
    ensures
        "percent"@ != "tokens"@,
        "percent"@ != "type"@,
        "percent"@ != "dynamic_icon"@,
        "percent"@ != "resets_at"@,
        "tokens"@ != "type"@,
        "tokens"@ != "dynamic_icon"@,
        "type"@ != "dynamic_icon"@,
        "dynamic_icon"@ != "resets_at"@,
        "dynamic_icon"@ != "full_path"@,
        "branch"@ != "status"@,
        "branch"@ != "ahead"@,
        "branch"@ != "behind"@,
        "branch"@ != "dynamic_icon"@,
        "status"@ != "ahead"@,
        "status"@ != "behind"@,
        "status"@ != "dynamic_icon"@,
        "ahead"@ != "behind"@,
        "ahead"@ != "dynamic_icon"@,
        "behind"@ != "dynamic_icon"@,
{
    reveal_strlit("percent");
    reveal_strlit("tokens");
    reveal_strlit("type");
    reveal_strlit("dynamic_icon");
    reveal_strlit("resets_at");
    reveal_strlit("full_path");
    reveal_strlit("branch");
    reveal_strlit("status");
    reveal_strlit("ahead");
    reveal_strlit("behind");
    assert("percent"@[0] == 'p');
    assert("tokens"@[0] == 't');
    assert("type"@[0] == 't');
    assert("dynamic_icon"@[0] == 'd');
    assert("resets_at"@[0] == 'r');
    assert("full_path"@[0] == 'f');
    assert("branch"@[0] == 'b');
    assert("status"@[0] == 's');
    assert("ahead"@[0] == 'a');
    assert("behind"@[0] == 'b');
    assert("tokens"@[1] == 'o');
    assert("type"@[1] == 'y');
    assert("branch"@[1] == 'r');
    assert("behind"@[1] == 'e');
}

impl SegmentData {
    /// Well-formed segment data: the metadata keys are unique.
    pub open spec fn wf(&self) -> bool {
        md_keys_unique(self.metadata@)
    }

    pub fn new(primary: &str) -> (r: Self)
        ensures
            r.primary@ == primary@,
            r.secondary@ == Seq::<char>::empty(),
            r.metadata@ == Seq::<(String, String)>::empty(),
            r.wf(),
            forall|k: Seq<char>| assoc_find(r.metadata@, k) is None,
    {
        let r = SegmentData {
            primary: primary.to_owned(),
            secondary: String::new(),
            metadata: Vec::new(),
        };
        proof {
            assert(r.metadata@ =~= Seq::<(String, String)>::empty());
        }
        r
    }

    pub fn with_secondary(self, secondary: &str) -> (r: Self)
        ensures
            r.primary == self.primary,
            r.secondary@ == secondary@,
            r.metadata == self.metadata,
    {
        SegmentData { secondary: secondary.to_owned(), ..self }
    }

    /// Stores `value` under `key`, replacing any value the key already had.
    pub fn with_metadata(self, key: &str, value: &str) -> (r: Self)
        requires
            self.wf(),
        ensures
            r.primary == self.primary,
            r.secondary == self.secondary,
            r.wf(),
            assoc_find(r.metadata@, key@) == Some(value@),
            forall|k2: Seq<char>| k2 != key@ ==> assoc_find(r.metadata@, k2) == assoc_find(
                self.metadata@,
                k2,
            ),
            r.metadata@.len() == if assoc_find(self.metadata@, key@) is Some {
                self.metadata@.len()
            } else {
                self.metadata@.len() + 1
            },
    {
        let SegmentData { primary, secondary, metadata } = self;
        let mut md = metadata;
        let ghost m0 = md@;
        let n = md.len();
        let mut i: usize = 0;
        while i < n
            invariant
                md@ == m0,
                n == m0.len(),
                0 <= i <= n,
                forall|j: int| 0 <= j < i ==> (#[trigger] m0[j]).0@ != key@,
                primary == self.primary,
                secondary == self.secondary,
                m0 == self.metadata@,
                md_keys_unique(m0),
            decreases n - i,
        {
            if str_eq(md[i].0.as_str(), key) {
                let k0 = md[i].0.clone();
                let v0 = value.to_owned();
                md.set(i, (k0, v0));
                proof {
                    assert(md@[i as int].0 == m0[i as int].0);
                    assert(md@[i as int].0@ == key@);
                    assert(md@[i as int].1@ == value@);
                    assert(forall|j: int|
                        0 <= j < m0.len() && j != i ==> md@[j] == #[trigger] m0[j]);
                    lemma_assoc_find_first_match(m0, key@, i as int);
                    lemma_assoc_find_first_match(md@, key@, i as int);
                    assert forall|k2: Seq<char>| k2 != key@ implies assoc_find(md@, k2)
                        == assoc_find(m0, k2) by {
                        lemma_assoc_find_same_except(md@, m0, i as int, key@, k2);
                    }
                    assert forall|a: int, b: int| 0 <= a < b < md@.len() implies (
                    #[trigger] md@[a]).0@ != (#[trigger] md@[b]).0@ by {
                        assert(md@[a].0@ == m0[a].0@);
                        assert(md@[b].0@ == m0[b].0@);
                        assert(m0[a].0@ != m0[b].0@);
                    }
                }
                return SegmentData { primary, secondary, metadata: md };
            }
            i = i + 1;
        }
        proof {
            lemma_assoc_find_no_match(m0, key@);
        }
        let kn = key.to_owned();
        let vn = value.to_owned();
        md.push((kn, vn));
        proof {
            let p = md@[n as int];
            assert(md@ == m0.push(p));
            assert(p.0@ == key@);
            assert(forall|j: int| 0 <= j < n ==> md@[j] == #[trigger] m0[j]);
            lemma_assoc_find_first_match(md@, key@, n as int);
            assert forall|k2: Seq<char>| k2 != key@ implies assoc_find(md@, k2) == assoc_find(
                m0,
                k2,
            ) by {
                lemma_assoc_find_push(m0, p, k2);
            }
            assert forall|a: int, b: int| 0 <= a < b < md@.len() implies (#[trigger] md@[a]).0@
                != (#[trigger] md@[b]).0@ by {
                if b < n {
                    assert(m0[a].0@ != m0[b].0@);
                } else {
                    assert(m0[a].0@ != key@);
                }
            }
        }
        SegmentData { primary, secondary, metadata: md }
    }

    /// Looks a key up in the metadata.
    pub fn metadata_get<'a>(&'a self, key: &str) -> (r: Option<&'a String>)
        ensures
            match r {
                Some(v) => assoc_find(self.metadata@, key@) == Some(v@),
                None => assoc_find(self.metadata@, key@) is None,
            },
    {
        let n = self.metadata.len();
        let mut i: usize = 0;
        while i < n
            invariant
                n == self.metadata@.len(),
                0 <= i <= n,
                forall|j: int| 0 <= j < i ==> (#[trigger] self.metadata@[j]).0@ != key@,
            decreases n - i,
        {
            if str_eq(self.metadata[i].0.as_str(), key) {
                proof {
                    lemma_assoc_find_first_match(self.metadata@, key@, i as int);
                }
                return Some(&self.metadata[i].1);
            }
            i = i + 1;
        }
        proof {
            lemma_assoc_find_no_match(self.metadata@, key@);
        }
        None
    }
}

impl Clone for SegmentData {
    fn clone(&self) -> (r: Self)
        ensures
            r.primary == self.primary,
            r.secondary == self.secondary,
            r.metadata@ == self.metadata@,
    {
        let mut md: Vec<(String, String)> = Vec::new();
        let n = self.metadata.len();
        let mut i: usize = 0;
        while i < n
            invariant
                n == self.metadata@.len(),
                0 <= i <= n,
                md@ =~= self.metadata@.take(i as int),
            decreases n - i,
        {
            md.push((self.metadata[i].0.clone(), self.metadata[i].1.clone()));
            i = i + 1;
        }
        proof {
            assert(md@ =~= self.metadata@);
        }
        SegmentData {
            primary: self.primary.clone(),
            secondary: self.secondary.clone(),
            metadata: md,
        }
    }
}

} // verus!
