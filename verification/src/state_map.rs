//! A small URL-keyed map, used by the image cache for its per-URL state and
//! its waiter lists. It is an association list with unique keys whose
//! mathematical value is a `Map` from URL to the value's view.

use crate::url::{Url, UrlView};
use vstd::prelude::*;

verus! {

/// No two entries carry the same URL.
pub open spec fn keys_unique<V>(s: Seq<(Url, V)>) -> bool {
    forall|i: int, j: int| 0 <= i < j < s.len() ==> s[i].0@ != s[j].0@
}

/// The map an entry sequence stands for; later entries win, which does not
/// matter once keys are unique.
pub open spec fn to_map<V: View>(s: Seq<(Url, V)>) -> Map<UrlView, V::V>
    decreases s.len(),
{
    if s.len() == 0 {
        Map::empty()
    } else {
        to_map(s.drop_last()).insert(s.last().0@, s.last().1@)
    }
}

pub proof fn lemma_to_map_contains<V: View>(s: Seq<(Url, V)>, k: UrlView)
    ensures
        to_map(s).contains_key(k) <==> exists|i: int| 0 <= i < s.len() && s[i].0@ == k,
    decreases s.len(),
{
    if s.len() == 0 {
    } else {
        lemma_to_map_contains(s.drop_last(), k);
        if s.last().0@ == k {
            assert(s[s.len() - 1].0@ == k);
        } else {
            if to_map(s).contains_key(k) {
                let i = choose|i: int| 0 <= i < s.drop_last().len() && s.drop_last()[i].0@ == k;
                assert(s[i].0@ == k);
            }
            if exists|i: int| 0 <= i < s.len() && s[i].0@ == k {
                let i = choose|i: int| 0 <= i < s.len() && s[i].0@ == k;
                assert(i < s.len() - 1);
                assert(s.drop_last()[i].0@ == k);
            }
        }
    }
}

pub proof fn lemma_to_map_index<V: View>(s: Seq<(Url, V)>, i: int)
    requires
        keys_unique(s),
        0 <= i < s.len(),
    ensures
        to_map(s).contains_key(s[i].0@),
        to_map(s)[s[i].0@] == s[i].1@,
    decreases s.len(),
{
    if i == s.len() - 1 {
    } else {
        assert(keys_unique(s.drop_last()));
        assert(s.drop_last()[i] == s[i]);
        lemma_to_map_index(s.drop_last(), i);
        assert(s[i].0@ != s.last().0@);
    }
}

pub proof fn lemma_to_map_update<V: View>(s: Seq<(Url, V)>, i: int, entry: (Url, V))
    requires
        keys_unique(s),
        0 <= i < s.len(),
        entry.0@ == s[i].0@,
    ensures
        keys_unique(s.update(i, entry)),
        to_map(s.update(i, entry)) == to_map(s).insert(s[i].0@, entry.1@),
    decreases s.len(),
{
    let t = s.update(i, entry);
    assert(keys_unique(t));
    if i == s.len() - 1 {
        assert(t.drop_last() =~= s.drop_last());
        assert(t.last() == entry);
        assert(to_map(t) =~= to_map(s).insert(s[i].0@, entry.1@));
    } else {
        assert(keys_unique(s.drop_last()));
        assert(s.drop_last()[i] == s[i]);
        lemma_to_map_update(s.drop_last(), i, entry);
        assert(t.drop_last() =~= s.drop_last().update(i, entry));
        assert(t.last() == s.last());
        assert(s[i].0@ != s.last().0@);
        assert(to_map(t) =~= to_map(s).insert(s[i].0@, entry.1@));
    }
}

pub proof fn lemma_to_map_push<V: View>(s: Seq<(Url, V)>, entry: (Url, V))
    requires
        keys_unique(s),
        forall|i: int| 0 <= i < s.len() ==> s[i].0@ != entry.0@,
    ensures
        keys_unique(s.push(entry)),
        to_map(s.push(entry)) == to_map(s).insert(entry.0@, entry.1@),
{
    let t = s.push(entry);
    assert forall|i: int, j: int| 0 <= i < j < t.len() implies t[i].0@ != t[j].0@ by {
        if j < s.len() {
            assert(s[i].0@ != s[j].0@);
        }
    }
    assert(t.drop_last() =~= s);
}

pub proof fn lemma_to_map_remove<V: View>(s: Seq<(Url, V)>, i: int)
    requires
        keys_unique(s),
        0 <= i < s.len(),
    ensures
        keys_unique(s.remove(i)),
        to_map(s.remove(i)) == to_map(s).remove(s[i].0@),
    decreases s.len(),
{
    let t = s.remove(i);
    assert forall|x: int, y: int| 0 <= x < y < t.len() implies t[x].0@ != t[y].0@ by {
        let sx: int = if x < i { x } else { x + 1 };
        let sy: int = if y < i { y } else { y + 1 };
        assert(t[x] == s[sx]);
        assert(t[y] == s[sy]);
    }
    if i == s.len() - 1 {
        assert(t =~= s.drop_last());
        lemma_to_map_contains(s.drop_last(), s[i].0@);
        assert(forall|j: int|
            0 <= j < s.drop_last().len() ==> #[trigger] s.drop_last()[j].0@ != s[i].0@);
        assert(!to_map(s.drop_last()).contains_key(s[i].0@));
        assert(to_map(t) =~= to_map(s).remove(s[i].0@));
    } else {
        assert(keys_unique(s.drop_last()));
        assert(s.drop_last()[i] == s[i]);
        lemma_to_map_remove(s.drop_last(), i);
        assert(t.drop_last() =~= s.drop_last().remove(i));
        assert(t.last() == s.last());
        assert(s[i].0@ != s.last().0@);
        assert(to_map(t) =~= to_map(s).remove(s[i].0@));
    }
}

/// A map from URL to `V`, backed by a vector of entries with unique keys.
pub struct UrlMap<V> {
    pub entries: Vec<(Url, V)>,
}

impl<V: View> View for UrlMap<V> {
    type V = Map<UrlView, V::V>;

    open spec fn view(&self) -> Map<UrlView, V::V> {
        to_map(self.entries@)
    }
}

impl<V: View> UrlMap<V> {
    /// The backing vector never carries a URL twice.
    pub open spec fn wf(&self) -> bool {
        keys_unique(self.entries@)
    }

    pub fn new() -> (m: UrlMap<V>)
        ensures
            m.wf(),
            m@ == Map::<UrlView, V::V>::empty(),
    {
        UrlMap { entries: Vec::new() }
    }

    /// The position of the entry for this URL, if there is one.
    fn index_of(&self, url: &Url) -> (r: Option<usize>)
        ensures
            match r {
                Some(i) => i < self.entries@.len() && self.entries@[i as int].0@ == url@,
                None => forall|i: int|
                    0 <= i < self.entries@.len() ==> self.entries@[i].0@ != url@,
            },
    {
        let n = self.entries.len();
        let mut i: usize = 0;
        while i < n
            invariant
                n == self.entries@.len(),
                i <= n,
                forall|j: int| 0 <= j < i ==> self.entries@[j].0@ != url@,
            decreases n - i,
        {
            if self.entries[i].0.eq_url(url) {
                return Some(i);
            }
            i = i + 1;
        }
        None
    }

    pub fn contains_key(&self, url: &Url) -> (r: bool)
        requires
            self.wf(),
        ensures
            r == self@.contains_key(url@),
    {
        proof {
            lemma_to_map_contains(self.entries@, url@);
        }
        self.index_of(url).is_some()
    }

    pub fn get<'a>(&'a self, url: &Url) -> (r: Option<&'a V>)
        requires
            self.wf(),
        ensures
            match r {
                Some(v) => self@.contains_key(url@) && v@ == self@[url@],
                None => !self@.contains_key(url@),
            },
    {
        proof {
            lemma_to_map_contains(self.entries@, url@);
        }
        match self.index_of(url) {
            Some(i) => {
                proof {
                    lemma_to_map_index(self.entries@, i as int);
                }
                Some(&self.entries[i].1)
            },
            None => None,
        }
    }

    /// Bind the URL to the value, returning the value it replaces.
    pub fn replace(&mut self, url: &Url, value: V) -> (r: Option<V>)
        requires
            old(self).wf(),
        ensures
            final(self).wf(),
            final(self)@ == old(self)@.insert(url@, value@),
            match r {
                Some(v) => old(self)@.contains_key(url@) && v@ == old(self)@[url@],
                None => !old(self)@.contains_key(url@),
            },
    {
        proof {
            lemma_to_map_contains(self.entries@, url@);
        }
        match self.index_of(url) {
            Some(i) => {
                let ghost s = self.entries@;
                let ghost stored = value;
                proof {
                    lemma_to_map_index(s, i as int);
                    lemma_to_map_update(s, i as int, (s[i as int].0, stored));
                }
                let (key, old_value) = self.entries.remove(i);
                self.entries.insert(i, (key, value));
                proof {
                    assert(self.entries@ =~= s.update(i as int, (s[i as int].0, stored)));
                }
                Some(old_value)
            },
            None => {
                let ghost s = self.entries@;
                self.entries.push((url.clone(), value));
                proof {
                    lemma_to_map_push(s, self.entries@.last());
                    assert(self.entries@.drop_last() =~= s);
                }
                None
            },
        }
    }

    /// Bind the URL to the value.
    pub fn set(&mut self, url: &Url, value: V)
        requires
            old(self).wf(),
        ensures
            final(self).wf(),
            final(self)@ == old(self)@.insert(url@, value@),
    {
        let _ = self.replace(url, value);
    }

    /// Drop the entry for the URL, returning the value it carried.
    pub fn remove(&mut self, url: &Url) -> (r: Option<V>)
        requires
            old(self).wf(),
        ensures
            final(self).wf(),
            final(self)@ == old(self)@.remove(url@),
            match r {
                Some(v) => old(self)@.contains_key(url@) && v@ == old(self)@[url@],
                None => !old(self)@.contains_key(url@),
            },
    {
        proof {
            lemma_to_map_contains(self.entries@, url@);
        }
        match self.index_of(url) {
            Some(i) => {
                proof {
                    lemma_to_map_index(self.entries@, i as int);
                    lemma_to_map_remove(self.entries@, i as int);
                }
                let (_key, value) = self.entries.remove(i);
                Some(value)
            },
            None => {
                proof {
                    assert(old(self)@ =~= old(self)@.remove(url@));
                }
                None
            },
        }
    }
}

} // verus!
