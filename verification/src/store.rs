//! The table of short codes, as it is loaded and as it is served.

use vstd::hash_map::StringHashMap;
use vstd::prelude::*;

verus! {

/// The entries of a links document, in the order of the document: each a short
/// code with its destination.
#[derive(Debug, Clone, PartialEq, Eq)]
pub struct LinkMap {
    pub links: Vec<(String, String)>,
}

impl View for LinkMap {
    type V = Seq<(Seq<char>, Seq<char>)>;

    open spec fn view(&self) -> Self::V {
        self.links@.map_values(|entry: (String, String)| (entry.0@, entry.1@))
    }
}

/// The table that a sequence of entries stands for. Codes are compared
/// character by character; where a code occurs twice the later entry counts.
pub open spec fn entries_map(entries: Seq<(Seq<char>, Seq<char>)>) -> Map<Seq<char>, Seq<char>>
    decreases entries.len(),
{
    if entries.len() == 0 {
        Map::empty()
    } else {
        entries_map(entries.drop_last()).insert(entries.last().0, entries.last().1)
    }
}

/// No short code occurs in two entries.
pub open spec fn distinct_codes(entries: Seq<(Seq<char>, Seq<char>)>) -> bool {
    forall|i: int, j: int|
        0 <= i < j < entries.len() ==> (#[trigger] entries[i]).0 != (#[trigger] entries[j]).0
}

/// A code is in the table exactly if some entry names it, and the table is
/// finite.
pub proof fn lemma_entries_map_domain(entries: Seq<(Seq<char>, Seq<char>)>)
    ensures
        entries_map(entries).dom().finite(),
        entries_map(entries).len() <= entries.len(),
        forall|code: Seq<char>|
            entries_map(entries).contains_key(code) <==> exists|i: int|
                0 <= i < entries.len() && (#[trigger] entries[i]).0 == code,
    decreases entries.len(),
{
    if entries.len() > 0 {
        let front = entries.drop_last();
        lemma_entries_map_domain(front);
        assert forall|code: Seq<char>|
            entries_map(entries).contains_key(code) <==> exists|i: int|
                0 <= i < entries.len() && (#[trigger] entries[i]).0 == code by {
            if entries_map(entries).contains_key(code) {
                if code == entries.last().0 {
                    assert(entries[entries.len() - 1].0 == code);
                } else {
                    let i = choose|i: int| 0 <= i < front.len() && (#[trigger] front[i]).0 == code;
                    assert(entries[i].0 == code);
                }
            }
            if exists|i: int| 0 <= i < entries.len() && (#[trigger] entries[i]).0 == code {
                let i = choose|i: int| 0 <= i < entries.len() && (#[trigger] entries[i]).0 == code;
                if i < entries.len() - 1 {
                    assert(front[i].0 == code);
                }
            }
        }
    }
}

/// The table maps the code of an entry to that entry's destination, unless a
/// later entry names the same code.
pub proof fn lemma_entries_map_last_wins(entries: Seq<(Seq<char>, Seq<char>)>, i: int)
    requires
        0 <= i < entries.len(),
        forall|j: int| i < j < entries.len() ==> (#[trigger] entries[j]).0 != entries[i].0,
    ensures
        entries_map(entries).contains_key(entries[i].0),
        entries_map(entries)[entries[i].0] == entries[i].1,
    decreases entries.len(),
{
    if i < entries.len() - 1 {
        let front = entries.drop_last();
        assert(front[i] == entries[i]);
        assert forall|j: int| i < j < front.len() implies (#[trigger] front[j]).0
            != front[i].0 by {
            assert(entries[j].0 != entries[i].0);
        }
        lemma_entries_map_last_wins(front, i);
        assert(entries[entries.len() - 1].0 != entries[i].0);
    }
}

/// Where no code occurs twice, the table has one mapping for each entry.
pub proof fn lemma_entries_map_distinct(entries: Seq<(Seq<char>, Seq<char>)>)
    requires
        distinct_codes(entries),
    ensures
        entries_map(entries).len() == entries.len(),
    decreases entries.len(),
{
    if entries.len() > 0 {
        let front = entries.drop_last();
        assert(distinct_codes(front)) by {
            assert forall|i: int, j: int| 0 <= i < j < front.len() implies (#[trigger] front[i]).0
                != (#[trigger] front[j]).0 by {
                assert(entries[i].0 != entries[j].0);
            }
        }
        lemma_entries_map_distinct(front);
        lemma_entries_map_domain(front);
        assert(!entries_map(front).contains_key(entries.last().0)) by {
            if entries_map(front).contains_key(entries.last().0) {
                let i = choose|i: int|
                    0 <= i < front.len() && (#[trigger] front[i]).0 == entries.last().0;
                assert(entries[i].0 != entries[entries.len() - 1].0);
            }
        }
    }
}

/// The table that requests are answered from. It is built once and never
/// changed afterwards, so it can be shared by reference among any number of
/// request handlers.
pub struct AppState {
    link_map: StringHashMap<String>,
}

impl View for AppState {
    type V = Map<Seq<char>, Seq<char>>;

    closed spec fn view(&self) -> Self::V {
        self.link_map@.map_values(|url: String| url@)
    }
}

impl AppState {
    /// Builds the table from the entries of a document.
    pub fn new(link_map: LinkMap) -> (state: Self)
        ensures
            state@ == entries_map(link_map@),
    {
        let mut table: StringHashMap<String> = StringHashMap::new();
        let n: usize = link_map.links.len();
        let mut i: usize = 0;
        while i < n
            invariant
                i <= n,
                n == link_map.links.len(),
                table@.map_values(|url: String| url@) == entries_map(link_map@.take(i as int)),
            decreases n - i,
        {
            let code: String = link_map.links[i].0.clone();
            let url: String = link_map.links[i].1.clone();
            proof {
                let before = link_map@.take(i as int);
                let after = link_map@.take(i + 1);
                assert(after.drop_last() == before);
                assert(after.last() == (code@, url@));
                assert(table@.insert(code@, url).map_values(|url: String| url@)
                    == table@.map_values(|url: String| url@).insert(code@, url@));
            }
            table.insert(code, url);
            i = i + 1;
        }
        proof {
            assert(link_map@.take(n as int) == link_map@);
        }
        AppState { link_map: table }
    }

    /// The destination of a short code, if the table has the code.
    pub fn lookup(&self, code: &str) -> (url: Option<&String>)
        ensures
            match url {
                Some(u) => self@.contains_key(code@) && u@ == self@[code@],
                None => !self@.contains_key(code@),
            },
    {
        self.link_map.get(code)
    }

    /// The number of mappings in the table.
    pub fn count(&self) -> (n: usize)
        ensures
            n == self@.len(),
    {
        proof {
            assert(self@.dom() == self.link_map@.dom());
        }
        self.link_map.len()
    }
}

} // verus!
