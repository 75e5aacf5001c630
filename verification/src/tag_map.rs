//! An insertion-ordered map from names to lists of songs, used for tags and for the
//! artist index.

use vstd::prelude::*;
use crate::music_file::{MusicFile, MusicFileModel, songs, clone_songs};

verus! {

/// One name of a [`TagMap`] with its songs.
pub struct TagEntry {
    pub name: String,
    pub files: Vec<MusicFile>,
}

/// A map from names to lists of songs. Names are distinct; they keep the order in
/// which they were first inserted.
pub struct TagMap {
    entries: Vec<TagEntry>,
}

/// The names of a sequence of entries.
pub open spec fn entry_names(s: Seq<TagEntry>) -> Seq<Seq<char>> {
    s.map_values(|e: TagEntry| e.name@)
}

/// The texts of a sequence of strings.
pub open spec fn texts(v: Seq<String>) -> Seq<Seq<char>> {
    v.map_values(|s: String| s@)
}

/// Whether entry `i` of `s` carries the name `k`.
pub open spec fn names_at(s: Seq<TagEntry>, i: int, k: Seq<char>) -> bool {
    0 <= i < s.len() && s[i].name@ == k
}

/// The map that a sequence of entries with distinct names denotes.
pub open spec fn map_of(s: Seq<TagEntry>) -> Map<Seq<char>, Seq<MusicFileModel>> {
    Map::new(
        |k: Seq<char>| exists|i: int| #[trigger] names_at(s, i, k),
        |k: Seq<char>| songs(s[choose|i: int| #[trigger] names_at(s, i, k)].files@),
    )
}

proof fn lemma_map_of_at(s: Seq<TagEntry>, i: int)
    requires
        entry_names(s).no_duplicates(),
        0 <= i < s.len(),
    ensures
        map_of(s).contains_key(s[i].name@),
        map_of(s)[s[i].name@] == songs(s[i].files@),
{
    let k = s[i].name@;
    assert(names_at(s, i, k));
    let j = choose|j: int| #[trigger] names_at(s, j, k);
    assert(entry_names(s)[i] == entry_names(s)[j]);
}

proof fn lemma_map_of_absent(s: Seq<TagEntry>, k: Seq<char>)
    requires
        forall|i: int| 0 <= i < s.len() ==> s[i].name@ != k,
    ensures
        !map_of(s).contains_key(k),
{
}

proof fn lemma_map_of_update(s: Seq<TagEntry>, i: int, e: TagEntry)
    requires
        entry_names(s).no_duplicates(),
        0 <= i < s.len(),
        e.name@ == s[i].name@,
    ensures
        entry_names(s.update(i, e)) == entry_names(s),
        map_of(s.update(i, e)) == map_of(s).insert(e.name@, songs(e.files@)),
{
    let t = s.update(i, e);
    let m = map_of(s).insert(e.name@, songs(e.files@));
    assert(entry_names(t) =~= entry_names(s));
    lemma_map_of_at(t, i);
    lemma_map_of_at(s, i);
    assert forall|k: Seq<char>| #[trigger] map_of(t).contains_key(k) == m.contains_key(k) by {
        if map_of(s).contains_key(k) {
            let j = choose|j: int| #[trigger] names_at(s, j, k);
            assert(names_at(t, j, k));
        }
        if map_of(t).contains_key(k) {
            let j = choose|j: int| #[trigger] names_at(t, j, k);
            if j != i {
                assert(names_at(s, j, k));
            }
        }
    }
    assert forall|k: Seq<char>| #[trigger] map_of(t).contains_key(k) implies map_of(t)[k] == m[k] by {
        let j = choose|j: int| #[trigger] names_at(t, j, k);
        lemma_map_of_at(t, j);
        if j != i {
            assert(names_at(s, j, k));
            lemma_map_of_at(s, j);
        }
    }
    assert(map_of(t) =~= m);
}

proof fn lemma_map_of_push(s: Seq<TagEntry>, e: TagEntry)
    requires
        entry_names(s).no_duplicates(),
        !map_of(s).contains_key(e.name@),
    ensures
        entry_names(s.push(e)).no_duplicates(),
        map_of(s.push(e)) == map_of(s).insert(e.name@, songs(e.files@)),
{
    let t = s.push(e);
    assert(entry_names(t) =~= entry_names(s).push(e.name@));
    assert forall|i: int| 0 <= i < s.len() implies s[i].name@ != e.name@ by {
        if s[i].name@ == e.name@ {
            assert(names_at(s, i, e.name@));
        }
    }
    assert(entry_names(t).no_duplicates()) by {
        assert forall|a: int, b: int|
            0 <= a < entry_names(t).len() && 0 <= b < entry_names(t).len() && a != b implies
            entry_names(t)[a] != entry_names(t)[b] by {
            if a < s.len() && b < s.len() {
                assert(entry_names(s)[a] != entry_names(s)[b]);
            }
        }
    }
    let m = map_of(s).insert(e.name@, songs(e.files@));
    lemma_map_of_at(t, s.len() as int);
    assert forall|k: Seq<char>| #[trigger] map_of(t).contains_key(k) == m.contains_key(k) by {
        if map_of(s).contains_key(k) {
            let j = choose|j: int| #[trigger] names_at(s, j, k);
            assert(names_at(t, j, k));
        }
        if map_of(t).contains_key(k) {
            let j = choose|j: int| #[trigger] names_at(t, j, k);
            if j < s.len() {
                assert(names_at(s, j, k));
            }
        }
    }
    assert forall|k: Seq<char>| #[trigger] map_of(t).contains_key(k) implies map_of(t)[k] == m[k] by {
        let j = choose|j: int| #[trigger] names_at(t, j, k);
        lemma_map_of_at(t, j);
        if j < s.len() {
            assert(names_at(s, j, k));
            lemma_map_of_at(s, j);
        }
    }
    assert(map_of(t) =~= m);
}

proof fn lemma_map_of_remove(s: Seq<TagEntry>, i: int)
    requires
        entry_names(s).no_duplicates(),
        0 <= i < s.len(),
    ensures
        entry_names(s.remove(i)).no_duplicates(),
        map_of(s.remove(i)) == map_of(s).remove(s[i].name@),
{
    let t = s.remove(i);
    let k0 = s[i].name@;
    assert(entry_names(t) =~= entry_names(s).remove(i));
    assert(entry_names(t).no_duplicates()) by {
        assert forall|a: int, b: int|
            0 <= a < entry_names(t).len() && 0 <= b < entry_names(t).len() && a != b implies
            entry_names(t)[a] != entry_names(t)[b] by {
            let a2 = if a < i { a } else { a + 1 };
            let b2 = if b < i { b } else { b + 1 };
            assert(entry_names(s)[a2] != entry_names(s)[b2]);
        }
    }
    assert forall|j: int| 0 <= j < t.len() implies t[j].name@ != k0 by {
        let j2 = if j < i { j } else { j + 1 };
        assert(entry_names(s)[j2] != entry_names(s)[i]);
    }
    let m = map_of(s).remove(k0);
    assert forall|k: Seq<char>| #[trigger] map_of(t).contains_key(k) == m.contains_key(k) by {
        if map_of(s).contains_key(k) && k != k0 {
            let j = choose|j: int| #[trigger] names_at(s, j, k);
            let j2 = if j < i { j } else { j - 1 };
            assert(t[j2] == s[j]);
            assert(names_at(t, j2, k));
        }
        if map_of(t).contains_key(k) {
            let j = choose|j: int| #[trigger] names_at(t, j, k);
            let j2 = if j < i { j } else { j + 1 };
            assert(names_at(s, j2, k));
        }
    }
    assert forall|k: Seq<char>| #[trigger] map_of(t).contains_key(k) implies map_of(t)[k] == m[k] by {
        let j = choose|j: int| #[trigger] names_at(t, j, k);
        let j2 = if j < i { j } else { j + 1 };
        assert(t[j] == s[j2]);
        lemma_map_of_at(t, j);
        lemma_map_of_at(s, j2);
    }
    assert(map_of(t) =~= m);
}

impl View for TagMap {
    type V = Map<Seq<char>, Seq<MusicFileModel>>;

    closed spec fn view(&self) -> Map<Seq<char>, Seq<MusicFileModel>> {
        map_of(self.entries@)
    }
}

impl TagMap {
    #[verifier::type_invariant]
    closed spec fn distinct_names(self) -> bool {
        entry_names(self.entries@).no_duplicates()
    }

    /// The names in the order in which they were first inserted.
    pub closed spec fn name_order(self) -> Seq<Seq<char>> {
        entry_names(self.entries@)
    }

    /// An empty map.
    pub fn new() -> (r: TagMap)
        ensures
            r@ == Map::<Seq<char>, Seq<MusicFileModel>>::empty(),
    {
        let r = TagMap { entries: Vec::new() };
        assert(r@ =~= Map::<Seq<char>, Seq<MusicFileModel>>::empty());
        r
    }

    /// Removes every name.
    pub fn clear(&mut self)
        ensures
            final(self)@ == Map::<Seq<char>, Seq<MusicFileModel>>::empty(),
    {
        self.entries = Vec::new();
        assert(self@ =~= Map::<Seq<char>, Seq<MusicFileModel>>::empty());
    }

    fn find(&self, k: &String) -> (r: Option<usize>)
        ensures
            match r {
                Some(i) => names_at(self.entries@, i as int, k@),
                None => forall|i: int| 0 <= i < self.entries@.len() ==> self.entries@[i].name@ != k@,
            },
    {
        let mut i: usize = 0;
        while i < self.entries.len()
            invariant
                i <= self.entries@.len(),
                forall|j: int| 0 <= j < i ==> self.entries@[j].name@ != k@,
            decreases self.entries@.len() - i,
        {
            if self.entries[i].name == *k {
                return Some(i);
            }
            i = i + 1;
        }
        None
    }

    /// Whether the name is in the map.
    pub fn contains_key(&self, k: &String) -> (r: bool)
        ensures
            r == self@.contains_key(k@),
    {
        proof {
            use_type_invariant(self);
        }
        match self.find(k) {
            Some(i) => {
                proof {
                    lemma_map_of_at(self.entries@, i as int);
                }
                true
            },
            None => false,
        }
    }

    /// The songs under a name, if the name is in the map.
    pub fn get(&self, k: &String) -> (r: Option<&Vec<MusicFile>>)
        ensures
            match r {
                Some(v) => self@.contains_key(k@) && songs(v@) == self@[k@],
                None => !self@.contains_key(k@),
            },
    {
        proof {
            use_type_invariant(self);
        }
        match self.find(k) {
            Some(i) => {
                proof {
                    lemma_map_of_at(self.entries@, i as int);
                }
                Some(&self.entries[i].files)
            },
            None => None,
        }
    }

    /// Sets the songs under a name, adding the name if it is new.
    pub fn insert(&mut self, k: String, v: Vec<MusicFile>)
        ensures
            final(self)@ == old(self)@.insert(k@, songs(v@)),
    {
        proof {
            use_type_invariant(&*self);
        }
        let mut entries: Vec<TagEntry> = Vec::new();
        std::mem::swap(&mut entries, &mut self.entries);
        let ghost s = entries@;
        match self.find_in(&entries, &k) {
            Some(i) => {
                let e = TagEntry { name: k, files: v };
                proof {
                    lemma_map_of_update(s, i as int, e);
                }
                entries.set(i, e);
            },
            None => {
                let e = TagEntry { name: k, files: v };
                proof {
                    lemma_map_of_push(s, e);
                }
                entries.push(e);
            },
        }
        self.entries = entries;
    }

    fn find_in(&self, entries: &Vec<TagEntry>, k: &String) -> (r: Option<usize>)
        ensures
            match r {
                Some(i) => names_at(entries@, i as int, k@),
                None => !map_of(entries@).contains_key(k@),
            },
    {
        let mut i: usize = 0;
        while i < entries.len()
            invariant
                i <= entries@.len(),
                forall|j: int| 0 <= j < i ==> entries@[j].name@ != k@,
            decreases entries@.len() - i,
        {
            if entries[i].name == *k {
                return Some(i);
            }
            i = i + 1;
        }
        proof {
            lemma_map_of_absent(entries@, k@);
        }
        None
    }
}


impl TagMap {
    /// Removes a name and its songs.
    pub fn remove(&mut self, k: &String)
        ensures
            final(self)@ == old(self)@.remove(k@),
    {
        proof {
            use_type_invariant(&*self);
        }
        let mut entries: Vec<TagEntry> = Vec::new();
        std::mem::swap(&mut entries, &mut self.entries);
        let ghost s = entries@;
        match self.find_in(&entries, k) {
            Some(i) => {
                proof {
                    lemma_map_of_remove(s, i as int);
                }
                entries.remove(i);
            },
            None => {
                assert(map_of(s).remove(k@) =~= map_of(s));
            },
        }
        self.entries = entries;
    }

    /// Replaces the songs under a name that is in the map, by a change of its list.
    fn update_files(&mut self, k: &String, f: MusicFile, at: usize, how: u8) -> (ghost_idx: usize)
        requires
            old(self)@.contains_key(k@),
            how == 0 || at < old(self)@[k@].len(),
        ensures
            final(self)@ == old(self)@.insert(
                k@,
                if how == 0 {
                    old(self)@[k@].push(f@)
                } else if how == 1 {
                    old(self)@[k@].update(at as int, f@)
                } else {
                    old(self)@[k@].remove(at as int)
                },
            ),
    {
        proof {
            use_type_invariant(&*self);
        }
        let mut entries: Vec<TagEntry> = Vec::new();
        std::mem::swap(&mut entries, &mut self.entries);
        let ghost s = entries@;
        let i = match self.find_in(&entries, k) {
            Some(i) => i,
            None => {
                proof {
                    assert(false);
                }
                0
            },
        };
        proof {
            lemma_map_of_at(s, i as int);
        }
        let mut e = entries.remove(i);
        let ghost old_files = songs(e.files@);
        if how == 0 {
            e.files.push(f);
            assert(songs(e.files@) =~= old_files.push(f@));
        } else if how == 1 {
            e.files.set(at, f);
            assert(songs(e.files@) =~= old_files.update(at as int, f@));
        } else {
            e.files.remove(at);
            assert(songs(e.files@) =~= old_files.remove(at as int));
        }
        entries.insert(i, e);
        assert(entries@ =~= s.update(i as int, e));
        proof {
            lemma_map_of_update(s, i as int, e);
        }
        self.entries = entries;
        i
    }

    /// Appends a song to the list under a name that is in the map.
    pub fn push_file(&mut self, k: &String, f: MusicFile)
        requires
            old(self)@.contains_key(k@),
        ensures
            final(self)@ == old(self)@.insert(k@, old(self)@[k@].push(f@)),
    {
        let _ = self.update_files(k, f, 0, 0);
    }

    /// Replaces the song at a position of the list under a name that is in the map.
    pub fn set_file(&mut self, k: &String, at: usize, f: MusicFile)
        requires
            old(self)@.contains_key(k@),
            at < old(self)@[k@].len(),
        ensures
            final(self)@ == old(self)@.insert(k@, old(self)@[k@].update(at as int, f@)),
    {
        let _ = self.update_files(k, f, at, 1);
    }

    /// Removes the song at a position of the list under a name that is in the map.
    pub fn remove_file(&mut self, k: &String, at: usize)
        requires
            old(self)@.contains_key(k@),
            at < old(self)@[k@].len(),
        ensures
            final(self)@ == old(self)@.insert(k@, old(self)@[k@].remove(at as int)),
    {
        let _ = self.update_files(k, MusicFile::default(), at, 2);
    }

    /// The names, in the order in which they were first inserted.
    pub fn keys(&self) -> (r: Vec<String>)
        ensures
            texts(r@) == self.name_order(),
            forall|k: Seq<char>| #[trigger] self@.contains_key(k) <==> texts(r@).contains(k),
    {
        proof {
            use_type_invariant(self);
        }
        let mut r: Vec<String> = Vec::new();
        let mut i: usize = 0;
        while i < self.entries.len()
            invariant
                i <= self.entries@.len(),
                texts(r@) == entry_names(self.entries@).subrange(0, i as int),
            decreases self.entries@.len() - i,
        {
            let n = self.entries[i].name.clone();
            let ghost before = r@;
            r.push(n);
            i = i + 1;
            assert(r@ == before.push(n));
            assert(texts(before).len() == before.len());
            assert(texts(r@).len() == r@.len());
            assert(texts(r@).len() == i);
            assert forall|j: int| 0 <= j < i implies #[trigger] texts(r@)[j] == entry_names(self.entries@)[j] by {
                if j < i - 1 {
                    assert(texts(before)[j] == entry_names(self.entries@).subrange(0, i - 1)[j]);
                }
            }
            assert(texts(r@) =~= entry_names(self.entries@).subrange(0, i as int));
        }
        let ghost names = texts(r@);
        assert(names =~= entry_names(self.entries@));
        assert forall|k: Seq<char>| #[trigger] self@.contains_key(k) <==> names.contains(k) by {
            if self@.contains_key(k) {
                let j = choose|j: int| #[trigger] names_at(self.entries@, j, k);
                assert(names[j] == k);
            }
            if names.contains(k) {
                let j = choose|j: int| 0 <= j < names.len() && names[j] == k;
                assert(names_at(self.entries@, j, k));
            }
        }
        r
    }

    /// A copy of the map.
    pub fn duplicate(&self) -> (r: TagMap)
        ensures
            r@ == self@,
            r.name_order() == self.name_order(),
    {
        proof {
            use_type_invariant(self);
        }
        let mut entries: Vec<TagEntry> = Vec::new();
        let mut i: usize = 0;
        while i < self.entries.len()
            invariant
                i <= self.entries@.len(),
                entries@.len() == i,
                forall|j: int| 0 <= j < i ==> (#[trigger] entries@[j]).name@ == self.entries@[j].name@
                    && songs(entries@[j].files@) == songs(self.entries@[j].files@),
            decreases self.entries@.len() - i,
        {
            let e = TagEntry {
                name: self.entries[i].name.clone(),
                files: clone_songs(&self.entries[i].files),
            };
            entries.push(e);
            i = i + 1;
        }
        assert(entry_names(entries@) =~= entry_names(self.entries@));
        let r = TagMap { entries };
        assert forall|k: Seq<char>| #[trigger] r@.contains_key(k) == self@.contains_key(k) by {
            if r@.contains_key(k) {
                let j = choose|j: int| #[trigger] names_at(r.entries@, j, k);
                assert(names_at(self.entries@, j, k));
            }
            if self@.contains_key(k) {
                let j = choose|j: int| #[trigger] names_at(self.entries@, j, k);
                assert(names_at(r.entries@, j, k));
            }
        }
        assert forall|k: Seq<char>| #[trigger] r@.contains_key(k) implies r@[k] == self@[k] by {
            let j = choose|j: int| #[trigger] names_at(r.entries@, j, k);
            lemma_map_of_at(r.entries@, j);
            lemma_map_of_at(self.entries@, j);
        }
        assert(r@ =~= self@);
        r
    }
}

} // verus!
