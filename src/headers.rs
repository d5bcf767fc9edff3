use vstd::prelude::*;
use vstd::string::*;

verus! {

/// A character with ASCII upper-case letters taken to lower case; every
/// other character stays as it is.
pub open spec fn fold_char(c: char) -> int {
    let n = c as int;
    if 65 <= n && n <= 90 {
        n + 32
    } else {
        n
    }
}

/// Header names compare without regard to ASCII case: two names stand for the
/// same header exactly when their keys are equal.
pub open spec fn header_key(name: Seq<char>) -> Seq<int> {
    name.map_values(|c: char| fold_char(c))
}

pub open spec fn entry_view(e: (String, String)) -> (Seq<char>, Seq<char>) {
    (e.0@, e.1@)
}

/// `entries` holds one pair for each header of `m`, and no two pairs for one
/// header; `m` maps the key of each name to the name and value written last.
pub open spec fn describes(
    entries: Seq<(String, String)>,
    m: Map<Seq<int>, (Seq<char>, Seq<char>)>,
) -> bool {
    &&& forall|i: int|
        #![trigger entries[i]]
        0 <= i < entries.len() ==> m.contains_key(header_key(entries[i].0@)) && m[header_key(
            entries[i].0@,
        )] == entry_view(entries[i])
    &&& forall|k: Seq<int>|
        #[trigger] m.contains_key(k) ==> exists|i: int|
            0 <= i < entries.len() && header_key(#[trigger] entries[i].0@) == k
    &&& forall|i: int, j: int|
        0 <= i < entries.len() && 0 <= j < entries.len() && i != j ==> header_key(
            #[trigger] entries[i].0@,
        ) != header_key(#[trigger] entries[j].0@)
}

fn fold_code(c: char) -> (r: u32)
    ensures
        r as int == fold_char(c),
{
    let n = c as u32;
    if 65 <= n && n <= 90 {
        n + 32
    } else {
        n
    }
}

/// Whether two header names stand for the same header.
pub fn same_name(a: &str, b: &str) -> (r: bool)
    ensures
        r == (header_key(a@) == header_key(b@)),
{
    let n = a.unicode_len();
    if n != b.unicode_len() {
        proof {
            assert(header_key(a@).len() != header_key(b@).len());
        }
        return false;
    }
    let mut i: usize = 0;
    while i < n
        invariant
            n == a@.len(),
            n == b@.len(),
            i <= n,
            forall|j: int| 0 <= j < i ==> fold_char(#[trigger] a@[j]) == fold_char(b@[j]),
        decreases n - i,
    {
        if fold_code(a.get_char(i)) != fold_code(b.get_char(i)) {
            proof {
                assert(header_key(a@)[i as int] != header_key(b@)[i as int]);
            }
            return false;
        }
        i = i + 1;
    }
    proof {
        assert(header_key(a@) =~= header_key(b@));
    }
    true
}

/// A set of headers: at most one value for each name, names compared without
/// regard to ASCII case. The name kept is the one written last.
#[derive(Clone)]
pub struct HeaderStore {
    entries: Vec<(String, String)>,
    map: Ghost<Map<Seq<int>, (Seq<char>, Seq<char>)>>,
}

impl View for HeaderStore {
    type V = Map<Seq<int>, (Seq<char>, Seq<char>)>;

    closed spec fn view(&self) -> Self::V {
        self.map@
    }
}

impl HeaderStore {
    pub closed spec fn wf(&self) -> bool {
        describes(self.entries@, self.map@)
    }

    /// An empty set of headers.
    pub fn new() -> (r: Self)
        ensures
            r.wf(),
            r@ == Map::<Seq<int>, (Seq<char>, Seq<char>)>::empty(),
    {
        HeaderStore { entries: Vec::new(), map: Ghost(Map::empty()) }
    }

    fn find(&self, name: &str) -> (r: Option<usize>)
        requires
            self.wf(),
        ensures
            match r {
                Some(i) => i < self.entries@.len() && header_key(self.entries@[i as int].0@)
                    == header_key(name@),
                None => !self@.contains_key(header_key(name@)),
            },
    {
        let mut i: usize = 0;
        while i < self.entries.len()
            invariant
                self.wf(),
                i <= self.entries@.len(),
                forall|j: int|
                    0 <= j < i ==> header_key(#[trigger] self.entries@[j].0@) != header_key(
                        name@,
                    ),
            decreases self.entries@.len() - i,
        {
            if same_name(self.entries[i].0.as_str(), name) {
                return Some(i);
            }
            i = i + 1;
        }
        None
    }

    /// Inserts a header, or overwrites the one of the same name.
    pub fn set(&mut self, name: String, value: String)
        requires
            old(self).wf(),
        ensures
            final(self).wf(),
            final(self)@ == old(self)@.insert(header_key(name@), (name@, value@)),
    {
        let ghost k = header_key(name@);
        let ghost e = (name, value);
        let ghost old_entries = self.entries@;
        let ghost old_map = self.map@;
        match self.find(name.as_str()) {
            Some(i) => {
                self.entries.set(i, (name, value));
                self.map = Ghost(old_map.insert(k, entry_view(e)));
                proof {
                    assert forall|kk: Seq<int>| #[trigger]
                        self.map@.contains_key(kk) implies exists|j: int|
                        0 <= j < self.entries@.len() && header_key(
                            #[trigger] self.entries@[j].0@,
                        ) == kk by {
                        if kk == k {
                            assert(header_key(self.entries@[i as int].0@) == kk);
                        } else {
                            let j = choose|j: int|
                                0 <= j < old_entries.len() && header_key(
                                    #[trigger] old_entries[j].0@,
                                ) == kk;
                            assert(self.entries@[j] == old_entries[j]);
                        }
                    }
                }
            },
            None => {
                self.entries.push((name, value));
                self.map = Ghost(old_map.insert(k, entry_view(e)));
                proof {
                    let n = old_entries.len() as int;
                    assert forall|kk: Seq<int>| #[trigger]
                        self.map@.contains_key(kk) implies exists|j: int|
                        0 <= j < self.entries@.len() && header_key(
                            #[trigger] self.entries@[j].0@,
                        ) == kk by {
                        if kk == k {
                            assert(header_key(self.entries@[n].0@) == kk);
                        } else {
                            let j = choose|j: int|
                                0 <= j < old_entries.len() && header_key(
                                    #[trigger] old_entries[j].0@,
                                ) == kk;
                            assert(self.entries@[j] == old_entries[j]);
                        }
                    }
                    assert forall|j: int|
                        0 <= j < old_entries.len() implies header_key(
                            #[trigger] self.entries@[j].0@,
                        ) != k by {
                        assert(self.entries@[j] == old_entries[j]);
                        assert(old_map.contains_key(header_key(old_entries[j].0@)));
                    }
                }
            },
        }
    }
    /// The value stored under a name, compared without regard to ASCII case.
    pub fn get(&self, name: &str) -> (r: Option<String>)
        requires
            self.wf(),
        ensures
            r is Some == self@.contains_key(header_key(name@)),
            r matches Some(v) ==> v@ == self@[header_key(name@)].1,
    {
        match self.find(name) {
            Some(i) => Some(self.entries[i].1.clone()),
            None => None,
        }
    }

    /// The headers as (name, value) pairs, one pair for each header.
    pub fn pairs(&self) -> (r: Vec<(String, String)>)
        requires
            self.wf(),
        ensures
            describes(r@, self@),
    {
        let mut r: Vec<(String, String)> = Vec::new();
        let mut i: usize = 0;
        while i < self.entries.len()
            invariant
                i <= self.entries@.len(),
                r@ == self.entries@.subrange(0, i as int),
            decreases self.entries@.len() - i,
        {
            let e = &self.entries[i];
            r.push((e.0.clone(), e.1.clone()));
            proof {
                assert(r@ =~= self.entries@.subrange(0, i + 1));
            }
            i = i + 1;
        }
        proof {
            assert(r@ =~= self.entries@);
        }
        r
    }

    /// A copy of this set with the headers of `extra` written over it: on a
    /// name that both hold, the value of `extra` wins.
    pub fn merged(&self, extra: &HeaderStore) -> (r: HeaderStore)
        requires
            self.wf(),
            extra.wf(),
        ensures
            r.wf(),
            r@ == self@.union_prefer_right(extra@),
    {
        let mut r = HeaderStore { entries: self.pairs(), map: Ghost(self@) };
        let mut i: usize = 0;
        while i < extra.entries.len()
            invariant
                extra.wf(),
                r.wf(),
                i <= extra.entries@.len(),
                r@ == self@.union_prefer_right(
                    extra@.restrict(
                        Set::new(
                            |k: Seq<int>|
                                exists|j: int|
                                    0 <= j < i && header_key(#[trigger] extra.entries@[j].0@)
                                        == k,
                        ),
                    ),
                ),
            decreases extra.entries@.len() - i,
        {
            let ghost before = r@;
            let e = &extra.entries[i];
            r.set(e.0.clone(), e.1.clone());
            proof {
                let ki = header_key(extra.entries@[i as int].0@);
                let seen = Set::new(
                    |k: Seq<int>|
                        exists|j: int|
                            0 <= j < i + 1 && header_key(#[trigger] extra.entries@[j].0@) == k,
                );
                let seen_before = Set::new(
                    |k: Seq<int>|
                        exists|j: int|
                            0 <= j < i && header_key(#[trigger] extra.entries@[j].0@) == k,
                );
                assert(seen =~= seen_before.insert(ki));
                assert(r@ =~= self@.union_prefer_right(extra@.restrict(seen)));
            }
            i = i + 1;
        }
        proof {
            let seen = Set::new(
                |k: Seq<int>|
                    exists|j: int|
                        0 <= j < extra.entries@.len() && header_key(
                            #[trigger] extra.entries@[j].0@,
                        ) == k,
            );
            assert(extra@.restrict(seen) =~= extra@);
        }
        r
    }
}

/// Writing one header twice leaves what one write leaves; of two writes to
/// one name, spelt in any case, the second stands.
pub proof fn lemma_last_write_wins(
    m: Map<Seq<int>, (Seq<char>, Seq<char>)>,
    k1: Seq<char>,
    v1: Seq<char>,
    k2: Seq<char>,
    v2: Seq<char>,
)
    requires
        header_key(k1) == header_key(k2),
    ensures
        m.insert(header_key(k1), (k1, v1)).insert(header_key(k2), (k2, v2)) == m.insert(
            header_key(k2),
            (k2, v2),
        ),
        m.insert(header_key(k1), (k1, v1)).insert(header_key(k1), (k1, v1)) == m.insert(
            header_key(k1),
            (k1, v1),
        ),
{
    assert(m.insert(header_key(k1), (k1, v1)).insert(header_key(k2), (k2, v2)) =~= m.insert(
        header_key(k2),
        (k2, v2),
    ));
    assert(m.insert(header_key(k1), (k1, v1)).insert(header_key(k1), (k1, v1)) =~= m.insert(
        header_key(k1),
        (k1, v1),
    ));
}

} // verus!
