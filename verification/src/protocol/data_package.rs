//! The catalogue of item and location names, and the indexes from id to
//! name that are derived from it on first use.

use std::collections::HashMap;
use vstd::prelude::*;
use vstd::std_specs::hash::*;

verus! {

broadcast use vstd::std_specs::hash::group_hash_axioms;

/// One line of a table of names: a name and the id that it stands for.
#[derive(Debug, Clone)]
pub struct NameEntry {
    pub name: String,
    pub id: i64,
}

/// A table from names to ids in which no name occurs twice.
#[derive(Debug)]
pub struct NameTable {
    entries: Vec<NameEntry>,
}

/// The index from id to name that the lines of `entries` give: a later line
/// takes the place of an earlier one with the same id.
pub open spec fn inverse_of(entries: Seq<NameEntry>) -> Map<i64, Seq<char>>
    decreases entries.len(),
{
    if entries.len() == 0 {
        Map::empty()
    } else {
        inverse_of(entries.drop_last()).insert(entries.last().id, entries.last().name@)
    }
}

/// No id occurs in two lines of `entries`.
pub open spec fn distinct_ids(entries: Seq<NameEntry>) -> bool {
    forall|i: int, j: int|
        0 <= i < entries.len() && 0 <= j < entries.len() && i != j ==> entries[i].id
            != entries[j].id
}

/// No name occurs in two lines of `entries`.
pub open spec fn distinct_names(entries: Seq<NameEntry>) -> bool {
    forall|i: int, j: int|
        0 <= i < entries.len() && 0 <= j < entries.len() && i != j ==> entries[i].name@
            != entries[j].name@
}

/// An index as a map from ids to the characters of the names.
pub open spec fn names_of(index: Map<i64, String>) -> Map<i64, Seq<char>> {
    index.map_values(|name: String| name@)
}

/// Some line of `entries` holds `id`.
pub open spec fn has_id(entries: Seq<NameEntry>, id: i64) -> bool {
    exists|i: int| 0 <= i < entries.len() && (#[trigger] entries[i]).id == id
}

/// Some line of `entries` holds `name`.
pub open spec fn has_name(entries: Seq<NameEntry>, name: Seq<char>) -> bool {
    exists|i: int| 0 <= i < entries.len() && (#[trigger] entries[i]).name@ == name
}

/// The index holds exactly the ids of the table's lines, and the name that
/// it gives for an id is the name of a line with that id.
pub proof fn lemma_inverse_members(entries: Seq<NameEntry>, id: i64)
    ensures
        inverse_of(entries).contains_key(id) <==> has_id(entries, id),
        inverse_of(entries).contains_key(id) ==> exists|i: int|
            0 <= i < entries.len() && (#[trigger] entries[i]).id == id && entries[i].name@
                == inverse_of(entries)[id],
    decreases entries.len(),
{
    if entries.len() > 0 {
        let rest = entries.drop_last();
        let last = entries.last();
        lemma_inverse_members(rest, id);
        if id == last.id {
            assert(entries[entries.len() - 1].id == id);
        } else {
            if inverse_of(rest).contains_key(id) {
                let i = choose|i: int|
                    0 <= i < rest.len() && (#[trigger] rest[i]).id == id && rest[i].name@
                        == inverse_of(rest)[id];
                assert(entries[i].id == id);
            }
            if has_id(entries, id) {
                let i = choose|i: int| 0 <= i < entries.len() && (#[trigger] entries[i]).id == id;
                assert(rest[i].id == id);
            }
        }
    }
}

/// In a table without duplicate ids, the index gives for the id of each
/// line the name of that line.
pub proof fn lemma_inverse_of_entry(entries: Seq<NameEntry>, i: int)
    requires
        distinct_ids(entries),
        0 <= i < entries.len(),
    ensures
        inverse_of(entries).contains_key(entries[i].id),
        inverse_of(entries)[entries[i].id] == entries[i].name@,
    decreases entries.len(),
{
    let rest = entries.drop_last();
    if i < entries.len() - 1 {
        assert(distinct_ids(rest)) by {
            assert forall|a: int, b: int|
                0 <= a < rest.len() && 0 <= b < rest.len() && a != b implies rest[a].id
                != rest[b].id by {
                assert(entries[a].id != entries[b].id);
            }
        }
        lemma_inverse_of_entry(rest, i);
        assert(rest[i] == entries[i]);
        assert(entries[i].id != entries[entries.len() - 1].id);
    }
}

impl View for NameTable {
    type V = Map<Seq<char>, i64>;

    closed spec fn view(&self) -> Map<Seq<char>, i64> {
        Map::new(
            |name: Seq<char>| has_name(self.entries@, name),
            |name: Seq<char>|
                self.entries@[choose|i: int|
                    0 <= i < self.entries@.len() && (#[trigger] self.entries@[i]).name@ == name].id,
        )
    }
}

impl Clone for NameTable {
    fn clone(&self) -> (copy: NameTable)
        ensures
            copy.spec_entries() == self.spec_entries(),
            copy@ == self@,
    {
        self.copy()
    }
}

impl NameTable {
    /// The lines of the table in the order in which their names came in.
    pub closed spec fn spec_entries(&self) -> Seq<NameEntry> {
        self.entries@
    }

    /// The table's invariant: no name occurs twice.
    #[verifier::type_invariant]
    pub closed spec fn wf(&self) -> bool {
        distinct_names(self.entries@)
    }

    /// What the view of a table is, over its lines: its names are those of
    /// the lines, and each stands for the id of its line.
    pub proof fn lemma_view(&self)
        requires
            self.wf(),
        ensures
            distinct_names(self.spec_entries()),
            forall|name: Seq<char>| #[trigger]
                self@.contains_key(name) <==> has_name(self.spec_entries(), name),
            forall|i: int|
                0 <= i < self.spec_entries().len() ==> self@.contains_key(
                    (#[trigger] self.spec_entries()[i]).name@,
                ) && self@[self.spec_entries()[i].name@] == self.spec_entries()[i].id,
    {
        assert forall|i: int| 0 <= i < self.entries@.len() implies self@.contains_key(
            (#[trigger] self.entries@[i]).name@,
        ) && self@[self.entries@[i].name@] == self.entries@[i].id by {
            let name = self.entries@[i].name@;
            assert(has_name(self.entries@, name));
            let j = choose|j: int|
                0 <= j < self.entries@.len() && (#[trigger] self.entries@[j]).name@ == name;
            assert(i == j);
        }
    }

    /// In a table in which no id occurs twice, the index from id to name
    /// inverts the table: for every name of the table, the index gives that
    /// name for the id that the name stands for.
    pub proof fn lemma_index_inverts(&self, name: Seq<char>)
        requires
            self.wf(),
            distinct_ids(self.spec_entries()),
            self@.contains_key(name),
        ensures
            inverse_of(self.spec_entries()).contains_key(self@[name]),
            inverse_of(self.spec_entries())[self@[name]] == name,
    {
        self.lemma_view();
        let i = choose|i: int|
            0 <= i < self.entries@.len() && (#[trigger] self.entries@[i]).name@ == name;
        assert(self@[self.entries@[i].name@] == self.entries@[i].id);
        lemma_inverse_of_entry(self.entries@, i);
    }

    /// The empty table.
    pub fn new() -> (table: NameTable)
        ensures
            table.wf(),
            table@ == Map::<Seq<char>, i64>::empty(),
            table.spec_entries() == Seq::<NameEntry>::empty(),
    {
        let table = NameTable { entries: Vec::new() };
        assert(table@ =~= Map::<Seq<char>, i64>::empty());
        table
    }

    /// Returns the number of names in the table.
    pub fn len(&self) -> (len: usize)
        ensures
            len == self.spec_entries().len(),
    {
        self.entries.len()
    }

    /// Returns the lines of the table.
    pub fn entries(&self) -> (entries: &Vec<NameEntry>)
        ensures
            entries@ == self.spec_entries(),
    {
        &self.entries
    }

    /// Returns a copy of the table.
    pub fn copy(&self) -> (copy: NameTable)
        ensures
            copy.spec_entries() == self.spec_entries(),
            copy@ == self@,
            copy.wf() == self.wf(),
    {
        let mut entries: Vec<NameEntry> = Vec::new();
        let mut i: usize = 0;
        while i < self.entries.len()
            invariant
                i <= self.entries@.len(),
                entries@ == self.entries@.take(i as int),
            decreases self.entries@.len() - i,
        {
            let entry = NameEntry { name: self.entries[i].name.clone(), id: self.entries[i].id };
            entries.push(entry);
            assert(self.entries@.take(i + 1) == self.entries@.take(i as int).push(
                self.entries@[i as int],
            ));
            i += 1;
        }
        assert(self.entries@.take(i as int) == self.entries@);
        proof {
            use_type_invariant(self);
        }
        let copy = NameTable { entries };
        assert(copy@ =~= self@);
        copy
    }

    /// Returns the place of `name` among the lines, if it is there.
    fn position(&self, name: &str) -> (place: Option<usize>)
        ensures
            match place {
                Some(i) => i < self.entries@.len() && self.entries@[i as int].name@ == name@,
                None => !has_name(self.entries@, name@),
            },
    {
        let mut i: usize = 0;
        while i < self.entries.len()
            invariant
                i <= self.entries@.len(),
                forall|j: int| 0 <= j < i ==> self.entries@[j].name@ != name@,
            decreases self.entries@.len() - i,
        {
            if crate::protocol::same_text(self.entries[i].name.as_str(), name) {
                return Some(i);
            }
            i += 1;
        }
        None
    }

    /// Returns the id that `name` stands for, if the table has the name.
    pub fn get(&self, name: &str) -> (id: Option<i64>)
        ensures
            id == (if self@.contains_key(name@) {
                Some(self@[name@])
            } else {
                None
            }),
    {
        proof {
            use_type_invariant(self);
            self.lemma_view();
        }
        match self.position(name) {
            Some(i) => Some(self.entries[i].id),
            None => None,
        }
    }

    /// Lets `name` stand for `id`, in place of what it stood for before.
    /// Returns the id that it stood for, if any. A new name gets a new line
    /// behind the others; a name that the table has keeps its line.
    pub fn insert(&mut self, name: String, id: i64) -> (before: Option<i64>)
        ensures
            final(self).wf(),
            final(self)@ == old(self)@.insert(name@, id),
            before == (if old(self)@.contains_key(name@) {
                Some(old(self)@[name@])
            } else {
                None
            }),
            if old(self)@.contains_key(name@) {
                exists|at: int|
                    0 <= at < old(self).spec_entries().len() && (#[trigger] old(
                        self,
                    ).spec_entries()[at]).name@ == name@ && final(self).spec_entries() == old(
                        self,
                    ).spec_entries().update(at, NameEntry { name, id })
            } else {
                final(self).spec_entries() == old(self).spec_entries().push(NameEntry { name, id })
            },
    {
        proof {
            use_type_invariant(&*self);
            self.lemma_view();
        }
        let ghost before_entries = self.entries@;
        let place = self.position(name.as_str());
        // The lines are changed outside the table, which is well formed at
        // every moment: empty meanwhile, and with the new lines afterwards.
        let mut entries: Vec<NameEntry> = Vec::new();
        core::mem::swap(&mut self.entries, &mut entries);
        let before = match place {
            Some(i) => {
                let was = entries[i].id;
                entries.set(i, NameEntry { name, id });
                proof {
                    assert(entries@[i as int].name@ == name@ && entries@[i as int].id == id);
                    assert(distinct_names(entries@)) by {
                        assert forall|a: int, b: int|
                            0 <= a < entries@.len() && 0 <= b < entries@.len() && a
                                != b implies entries@[a].name@ != entries@[b].name@ by {
                            assert(before_entries[a].name@ != before_entries[b].name@);
                        }
                    }
                }
                Some(was)
            },
            None => {
                entries.push(NameEntry { name, id });
                proof {
                    assert(distinct_names(entries@)) by {
                        assert forall|a: int, b: int|
                            0 <= a < entries@.len() && 0 <= b < entries@.len() && a
                                != b implies entries@[a].name@ != entries@[b].name@ by {
                            if a < before_entries.len() && b < before_entries.len() {
                                assert(before_entries[a].name@ != before_entries[b].name@);
                            }
                        }
                    }
                }
                None
            },
        };
        core::mem::swap(&mut self.entries, &mut entries);
        proof {
            self.lemma_view();
            let after = self.entries@;
            let goal = old(self)@.insert(name@, id);
            assert forall|n: Seq<char>| self@.contains_key(n) <==> goal.contains_key(n) by {
                if has_name(after, n) && n != name@ {
                    let i = choose|i: int| 0 <= i < after.len() && (#[trigger] after[i]).name@ == n;
                    assert(before_entries[i].name@ == n);
                }
                if has_name(before_entries, n) && n != name@ {
                    let i = choose|i: int|
                        0 <= i < before_entries.len() && (#[trigger] before_entries[i]).name@ == n;
                    assert(after[i].name@ == n);
                }
                if n == name@ {
                    match before {
                        Some(_) => {
                            let i = choose|i: int|
                                0 <= i < after.len() && (#[trigger] after[i]).name@ == name@
                                    && after[i].id == id;
                            assert(after[i].name@ == n);
                        },
                        None => {
                            assert(after[after.len() - 1].name@ == n);
                        },
                    }
                }
            }
            assert forall|n: Seq<char>| self@.contains_key(n) implies self@[n] == goal[n] by {
                let i = choose|i: int| 0 <= i < after.len() && (#[trigger] after[i]).name@ == n;
                assert(self@[after[i].name@] == after[i].id);
                if n != name@ {
                    assert(before_entries[i].name@ == n);
                    assert(before_entries[i].id == after[i].id);
                    assert(old(self)@[before_entries[i].name@] == before_entries[i].id);
                } else {
                    match before {
                        Some(_) => {
                            let k = choose|k: int|
                                0 <= k < after.len() && (#[trigger] after[k]).name@ == name@
                                    && after[k].id == id;
                            assert(k == i);
                        },
                        None => {
                            assert(i == after.len() - 1);
                        },
                    }
                }
            }
            assert(self@ =~= goal);
        }
        before
    }
}

/// What a game's part of the catalogue holds: the lines of its two tables
/// and its checksum.
pub struct GameDataView {
    pub items: Seq<NameEntry>,
    pub locations: Seq<NameEntry>,
    pub checksum: Seq<char>,
}

/// One game's part of the catalogue: its table of item names, its table of
/// location names and a checksum. The indexes from id to name are made when
/// they are first asked for, and kept.
#[derive(Debug)]
pub struct GameData {
    item_name_to_id: NameTable,
    location_name_to_id: NameTable,
    checksum: String,
    item_index: Option<HashMap<i64, String>>,
    location_index: Option<HashMap<i64, String>>,
}

/// Makes the index from id to name of a table.
fn build_index(table: &NameTable) -> (index: HashMap<i64, String>)
    ensures
        names_of(index@) == inverse_of(table.spec_entries()),
{
    let entries = table.entries();
    let mut index: HashMap<i64, String> = HashMap::new();
    assert(names_of(index@) =~= inverse_of(entries@.take(0)));
    let mut i: usize = 0;
    while i < entries.len()
        invariant
            i <= entries@.len(),
            names_of(index@) == inverse_of(entries@.take(i as int)),
        decreases entries@.len() - i,
    {
        let ghost before = index@;
        let name = entries[i].name.clone();
        index.insert(entries[i].id, name);
        proof {
            assert(entries@.take(i + 1).drop_last() == entries@.take(i as int));
            assert(names_of(before.insert(entries@[i as int].id, name)) =~= names_of(
                before,
            ).insert(entries@[i as int].id, name@));
        }
        i += 1;
    }
    proof {
        assert(entries@.take(i as int) == entries@);
    }
    index
}

impl View for GameData {
    type V = GameDataView;

    closed spec fn view(&self) -> GameDataView {
        GameDataView {
            items: self.item_name_to_id.spec_entries(),
            locations: self.location_name_to_id.spec_entries(),
            checksum: self.checksum@,
        }
    }
}

impl Clone for GameData {
    fn clone(&self) -> (copy: GameData)
        ensures
            copy@ == self@,
    {
        self.copy()
    }
}

impl GameData {
    /// The invariant: both tables are well formed, and an index that has
    /// been made is the one that its table gives.
    #[verifier::type_invariant]
    pub closed spec fn wf(&self) -> bool {
        &&& self.item_name_to_id.wf()
        &&& self.location_name_to_id.wf()
        &&& self.item_index matches Some(index) ==> names_of(index@) == inverse_of(
            self.item_name_to_id.spec_entries(),
        )
        &&& self.location_index matches Some(index) ==> names_of(index@) == inverse_of(
            self.location_name_to_id.spec_entries(),
        )
    }

    /// The index of item names, if it has been made.
    pub closed spec fn spec_item_index(&self) -> Option<HashMap<i64, String>> {
        self.item_index
    }

    /// The index of location names, if it has been made.
    pub closed spec fn spec_location_index(&self) -> Option<HashMap<i64, String>> {
        self.location_index
    }

    /// A game's part of the catalogue from its two tables and its checksum.
    /// No index is made yet.
    pub fn new(
        item_name_to_id: NameTable,
        location_name_to_id: NameTable,
        checksum: String,
    ) -> (game: GameData)
        ensures
            game.wf(),
            game@.items == item_name_to_id.spec_entries(),
            game@.locations == location_name_to_id.spec_entries(),
            game@.checksum == checksum@,
            game.spec_item_index() is None,
            game.spec_location_index() is None,
    {
        proof {
            use_type_invariant(&item_name_to_id);
            use_type_invariant(&location_name_to_id);
        }
        GameData {
            item_name_to_id,
            location_name_to_id,
            checksum,
            item_index: None,
            location_index: None,
        }
    }

    /// Returns a copy of the game's part, with the indexes that it has.
    pub fn copy(&self) -> (copy: GameData)
        ensures
            copy@ == self@,
            copy.wf(),
    {
        proof {
            use_type_invariant(self);
        }
        GameData {
            item_name_to_id: self.item_name_to_id.copy(),
            location_name_to_id: self.location_name_to_id.copy(),
            checksum: self.checksum.clone(),
            item_index: match &self.item_index {
                Some(index) => Some(index.clone()),
                None => None,
            },
            location_index: match &self.location_index {
                Some(index) => Some(index.clone()),
                None => None,
            },
        }
    }

    /// Returns the table of item names.
    pub fn item_name_to_id(&self) -> (table: &NameTable)
        ensures
            table.wf(),
            table.spec_entries() == self@.items,
    {
        proof {
            use_type_invariant(self);
        }
        &self.item_name_to_id
    }

    /// Returns the table of location names.
    pub fn location_name_to_id(&self) -> (table: &NameTable)
        ensures
            table.wf(),
            table.spec_entries() == self@.locations,
    {
        proof {
            use_type_invariant(self);
        }
        &self.location_name_to_id
    }

    /// Returns the checksum.
    pub fn checksum(&self) -> (checksum: &String)
        ensures
            checksum@ == self@.checksum,
    {
        &self.checksum
    }

    /// Returns the index from item id to item name. The first call makes it
    /// from the table of item names; every later call returns the one that
    /// was made. The tables stay as they are.
    pub fn item_id_to_name(&mut self) -> (index: &HashMap<i64, String>)
        ensures
            final(self).wf(),
            final(self)@ == old(self)@,
            names_of(index@) == inverse_of(old(self)@.items),
            final(self).spec_item_index() == Some(*index),
            final(self).spec_location_index() == old(self).spec_location_index(),
            old(self).spec_item_index() matches Some(made) ==> *index == made && *final(self)
                == *old(self),
    {
        proof {
            use_type_invariant(&*self);
        }
        if self.item_index.is_none() {
            self.item_index = Some(build_index(&self.item_name_to_id));
        }
        self.item_index.as_ref().unwrap()
    }

    /// Returns the index from location id to location name. The first call
    /// makes it from the table of location names; every later call returns
    /// the one that was made. The tables stay as they are.
    pub fn location_id_to_name(&mut self) -> (index: &HashMap<i64, String>)
        ensures
            final(self).wf(),
            final(self)@ == old(self)@,
            names_of(index@) == inverse_of(old(self)@.locations),
            final(self).spec_location_index() == Some(*index),
            final(self).spec_item_index() == old(self).spec_item_index(),
            old(self).spec_location_index() matches Some(made) ==> *index == made && *final(self)
                == *old(self),
    {
        proof {
            use_type_invariant(&*self);
        }
        if self.location_index.is_none() {
            self.location_index = Some(build_index(&self.location_name_to_id));
        }
        self.location_index.as_ref().unwrap()
    }
}

/// Some game of `games` is called `game`.
pub open spec fn has_game(games: Seq<(String, GameData)>, game: Seq<char>) -> bool {
    exists|i: int| 0 <= i < games.len() && (#[trigger] games[i]).0@ == game
}

/// The catalogue: for each game that it covers, by the game's name, that
/// game's tables. No game occurs twice.
#[derive(Debug)]
pub struct DataPackageObject {
    games: Vec<(String, GameData)>,
}

impl View for DataPackageObject {
    type V = Map<Seq<char>, GameDataView>;

    closed spec fn view(&self) -> Map<Seq<char>, GameDataView> {
        Map::new(
            |game: Seq<char>| has_game(self.games@, game),
            |game: Seq<char>|
                self.games@[choose|i: int|
                    0 <= i < self.games@.len() && (#[trigger] self.games@[i]).0@ == game].1@,
        )
    }
}

/// The name that the index of `entries` gives for `id`, if it holds the id.
pub open spec fn name_of_id(entries: Seq<NameEntry>, id: i64) -> Option<Seq<char>> {
    if inverse_of(entries).contains_key(id) {
        Some(inverse_of(entries)[id])
    } else {
        None
    }
}

/// The name of the item `id` of `game`: present if the catalogue covers the
/// game and the game's table of item names holds the id.
pub open spec fn item_name_in(
    catalogue: Map<Seq<char>, GameDataView>,
    game: Seq<char>,
    id: i64,
) -> Option<Seq<char>> {
    if catalogue.contains_key(game) {
        name_of_id(catalogue[game].items, id)
    } else {
        None
    }
}

/// The name of the location `id` of `game`: present if the catalogue covers
/// the game and the game's table of location names holds the id.
pub open spec fn location_name_in(
    catalogue: Map<Seq<char>, GameDataView>,
    game: Seq<char>,
    id: i64,
) -> Option<Seq<char>> {
    if catalogue.contains_key(game) {
        name_of_id(catalogue[game].locations, id)
    } else {
        None
    }
}

/// The characters of a text that may be absent.
pub open spec fn text_of(text: Option<String>) -> Option<Seq<char>> {
    match text {
        Some(text) => Some(text@),
        None => None,
    }
}

/// Looks `id` up in an index and returns a copy of the name found.
fn find_name(index: &HashMap<i64, String>, id: i64) -> (name: Option<String>)
    ensures
        text_of(name) == (if names_of(index@).contains_key(id) {
            Some(names_of(index@)[id])
        } else {
            None
        }),
{
    match index.get(&id) {
        Some(name) => Some(name.clone()),
        None => None,
    }
}

impl Clone for DataPackageObject {
    fn clone(&self) -> (copy: DataPackageObject)
        ensures
            copy@ == self@,
    {
        self.copy()
    }
}

impl DataPackageObject {
    /// The invariant: no game occurs twice, and each game's part is well
    /// formed.
    #[verifier::type_invariant]
    pub closed spec fn wf(&self) -> bool {
        &&& forall|i: int, j: int|
            0 <= i < self.games@.len() && 0 <= j < self.games@.len() && i != j ==> (
            #[trigger] self.games@[i]).0@ != (#[trigger] self.games@[j]).0@
        &&& forall|i: int| 0 <= i < self.games@.len() ==> (#[trigger] self.games@[i]).1.wf()
    }

    proof fn lemma_view(&self)
        requires
            self.wf(),
        ensures
            forall|game: Seq<char>| #[trigger]
                self@.contains_key(game) <==> has_game(self.games@, game),
            forall|i: int|
                0 <= i < self.games@.len() ==> self@.contains_key((#[trigger] self.games@[i]).0@)
                    && self@[self.games@[i].0@] == self.games@[i].1@,
    {
        assert forall|i: int| 0 <= i < self.games@.len() implies self@.contains_key(
            (#[trigger] self.games@[i]).0@,
        ) && self@[self.games@[i].0@] == self.games@[i].1@ by {
            let game = self.games@[i].0@;
            assert(has_game(self.games@, game));
            let j = choose|j: int|
                0 <= j < self.games@.len() && (#[trigger] self.games@[j]).0@ == game;
            assert(i == j);
        }
    }

    /// The catalogue that covers no game.
    pub fn new() -> (catalogue: DataPackageObject)
        ensures
            catalogue.wf(),
            catalogue@ == Map::<Seq<char>, GameDataView>::empty(),
    {
        let catalogue = DataPackageObject { games: Vec::new() };
        assert(catalogue@ =~= Map::<Seq<char>, GameDataView>::empty());
        catalogue
    }

    /// Returns the number of games that the catalogue covers.
    pub fn len(&self) -> (len: usize)
        ensures
            len == self@.len(),
            self@.dom().finite(),
    {
        proof {
            use_type_invariant(self);
            self.lemma_count();
        }
        self.games.len()
    }

    /// The catalogue covers as many games as it has parts.
    proof fn lemma_count(&self)
        requires
            self.wf(),
        ensures
            self@.dom().finite(),
            self@.len() == self.games@.len(),
    {
        self.lemma_len(self.games@.len() as int);
        self.lemma_view();
        assert(self@.dom() =~= Set::new(
            |game: Seq<char>|
                exists|i: int| 0 <= i < self.games@.len() && (#[trigger] self.games@[i]).0@ == game,
        ));
    }

    /// The names of the first `n` games are `n` names.
    proof fn lemma_len(&self, n: int)
        requires
            self.wf(),
            0 <= n <= self.games@.len(),
        ensures
            Set::new(
                |game: Seq<char>|
                    exists|i: int| 0 <= i < n && (#[trigger] self.games@[i]).0@ == game,
            ).finite(),
            Set::new(
                |game: Seq<char>|
                    exists|i: int| 0 <= i < n && (#[trigger] self.games@[i]).0@ == game,
            ).len() == n,
        decreases n,
    {
        let names = Set::new(
            |game: Seq<char>| exists|i: int| 0 <= i < n && (#[trigger] self.games@[i]).0@ == game,
        );
        if n == 0 {
            assert(names =~= Set::<Seq<char>>::empty());
        } else {
            self.lemma_len(n - 1);
            let fewer = Set::new(
                |game: Seq<char>|
                    exists|i: int| 0 <= i < n - 1 && (#[trigger] self.games@[i]).0@ == game,
            );
            let last = self.games@[n - 1].0@;
            assert(!fewer.contains(last));
            assert(names =~= fewer.insert(last));
        }
    }

    /// Returns the place of `game` among the games, if it is there.
    fn position(&self, game: &str) -> (place: Option<usize>)
        ensures
            match place {
                Some(i) => i < self.games@.len() && self.games@[i as int].0@ == game@,
                None => !has_game(self.games@, game@),
            },
    {
        let mut i: usize = 0;
        while i < self.games.len()
            invariant
                i <= self.games@.len(),
                forall|j: int| 0 <= j < i ==> (#[trigger] self.games@[j]).0@ != game@,
            decreases self.games@.len() - i,
        {
            if crate::protocol::same_text(self.games[i].0.as_str(), game) {
                return Some(i);
            }
            i += 1;
        }
        None
    }

    /// Puts the part of `game` into the catalogue, in place of the part
    /// that it held for that game, if any.
    pub fn insert(&mut self, game: String, data: GameData)
        ensures
            final(self).wf(),
            final(self)@ == old(self)@.insert(game@, data@),
    {
        proof {
            use_type_invariant(&*self);
            use_type_invariant(&data);
            self.lemma_view();
        }
        let ghost before = self.games@;
        let ghost name = game@;
        let ghost part = data@;
        let place = self.position(game.as_str());
        // The games are changed outside the catalogue, which is well formed
        // at every moment: empty meanwhile, and with the new games afterwards.
        let mut games: Vec<(String, GameData)> = Vec::new();
        core::mem::swap(&mut self.games, &mut games);
        match place {
            Some(i) => {
                games.set(i, (game, data));
            },
            None => {
                games.push((game, data));
            },
        }
        proof {
            let changed = DataPackageObject { games };
            changed.lemma_insert(*old(self), place, name, part);
        }
        core::mem::swap(&mut self.games, &mut games);
    }

    /// A catalogue whose games are those of a well-formed one, but for the
    /// part of one game that was put at the place of that game, or behind
    /// the others where the game was new, is well formed and holds what the
    /// other holds with that part put in.
    proof fn lemma_insert(
        &self,
        before_all: DataPackageObject,
        place: Option<usize>,
        name: Seq<char>,
        part: GameDataView,
    )
        requires
            before_all.wf(),
            match place {
                Some(i) => {
                    &&& i < before_all.games@.len()
                    &&& before_all.games@[i as int].0@ == name
                    &&& self.games@.len() == before_all.games@.len()
                    &&& forall|j: int|
                        0 <= j < self.games@.len() && j != i ==> self.games@[j]
                            == before_all.games@[j]
                    &&& self.games@[i as int].0@ == name
                    &&& self.games@[i as int].1@ == part
                    &&& self.games@[i as int].1.wf()
                },
                None => {
                    &&& !has_game(before_all.games@, name)
                    &&& self.games@.len() == before_all.games@.len() + 1
                    &&& forall|j: int|
                        0 <= j < before_all.games@.len() ==> self.games@[j]
                            == before_all.games@[j]
                    &&& self.games@[before_all.games@.len() as int].0@ == name
                    &&& self.games@[before_all.games@.len() as int].1@ == part
                    &&& self.games@[before_all.games@.len() as int].1.wf()
                },
            },
        ensures
            self.wf(),
            self@ == before_all@.insert(name, part),
    {
        let before = before_all.games@;
        before_all.lemma_view();
        let after = self.games@;
        let at: int = match place {
            Some(i) => i as int,
            None => before.len() as int,
        };
        assert(after[at].0@ == name && after[at].1@ == part);
        assert forall|i: int, j: int|
            0 <= i < after.len() && 0 <= j < after.len() && i != j implies (
        #[trigger] after[i]).0@ != (#[trigger] after[j]).0@ by {
            if i != at && j != at {
                assert(before[i].0@ != before[j].0@);
            } else if i == at {
                assert(before[j] == after[j]);
            } else {
                assert(before[i] == after[i]);
            }
        }
        assert forall|i: int| 0 <= i < after.len() implies (#[trigger] after[i]).1.wf() by {
            if i != at {
                assert(before[i].1.wf());
            }
        }
        self.lemma_view();
        let goal = before_all@.insert(name, part);
        assert forall|g: Seq<char>| self@.contains_key(g) <==> goal.contains_key(g) by {
            if has_game(after, g) && g != name {
                let i = choose|i: int| 0 <= i < after.len() && (#[trigger] after[i]).0@ == g;
                assert(before[i].0@ == g);
            }
            if has_game(before, g) && g != name {
                let i = choose|i: int| 0 <= i < before.len() && (#[trigger] before[i]).0@ == g;
                assert(after[i].0@ == g);
            }
        }
        assert forall|g: Seq<char>| self@.contains_key(g) implies self@[g] == goal[g] by {
            let i = choose|i: int| 0 <= i < after.len() && (#[trigger] after[i]).0@ == g;
            assert(self@[after[i].0@] == after[i].1@);
            if g != name {
                assert(before[i].0@ == g);
                assert(before_all@[before[i].0@] == before[i].1@);
            } else {
                assert(i == at);
            }
        }
        assert(self@ =~= goal);
    }

    /// Returns a copy of the catalogue, which holds what the catalogue
    /// holds.
    pub fn copy(&self) -> (copy: DataPackageObject)
        ensures
            copy.wf(),
            copy@ == self@,
    {
        proof {
            use_type_invariant(self);
        }
        let mut games: Vec<(String, GameData)> = Vec::new();
        let mut i: usize = 0;
        while i < self.games.len()
            invariant
                i <= self.games@.len(),
                games@.len() == i,
                forall|j: int|
                    0 <= j < i ==> (#[trigger] games@[j]).0 == self.games@[j].0 && games@[j].1@
                        == self.games@[j].1@ && games@[j].1.wf(),
            decreases self.games@.len() - i,
        {
            games.push((self.games[i].0.clone(), self.games[i].1.copy()));
            i += 1;
        }
        proof {
            let copy = DataPackageObject { games };
            let old_games = self.games@;
            let new_games = copy.games@;
            assert forall|a: int, b: int|
                0 <= a < new_games.len() && 0 <= b < new_games.len() && a != b implies (
            #[trigger] new_games[a]).0@ != (#[trigger] new_games[b]).0@ by {
                assert(old_games[a].0@ == new_games[a].0@);
                assert(old_games[b].0@ == new_games[b].0@);
            }
            copy.lemma_view();
            self.lemma_view();
            assert forall|g: Seq<char>| copy@.contains_key(g) <==> self@.contains_key(g) by {
                if has_game(new_games, g) {
                    let a = choose|a: int|
                        0 <= a < new_games.len() && (#[trigger] new_games[a]).0@ == g;
                    assert(old_games[a].0@ == g);
                }
                if has_game(old_games, g) {
                    let a = choose|a: int|
                        0 <= a < old_games.len() && (#[trigger] old_games[a]).0@ == g;
                    assert(new_games[a].0@ == g);
                }
            }
            assert forall|g: Seq<char>| copy@.contains_key(g) implies copy@[g] == self@[g] by {
                let a = choose|a: int|
                    0 <= a < new_games.len() && (#[trigger] new_games[a]).0@ == g;
                assert(copy@[new_games[a].0@] == new_games[a].1@);
                assert(old_games[a].0@ == g);
                assert(self@[old_games[a].0@] == old_games[a].1@);
            }
            assert(copy@ =~= self@);
        }
        DataPackageObject { games }
    }

    /// Returns the names of the games that the catalogue covers, each once.
    pub fn games(&self) -> (names: Vec<String>)
        ensures
            names@.len() == self@.len(),
            forall|i: int| 0 <= i < names@.len() ==> self@.contains_key((#[trigger] names@[i])@),
            forall|game: Seq<char>| #[trigger]
                self@.contains_key(game) ==> exists|i: int|
                    0 <= i < names@.len() && (#[trigger] names@[i])@ == game,
            forall|i: int, j: int|
                0 <= i < names@.len() && 0 <= j < names@.len() && i != j ==> (#[trigger] names@[i])@
                    != (#[trigger] names@[j])@,
    {
        proof {
            use_type_invariant(self);
            self.lemma_view();
            self.lemma_count();
        }
        let mut names: Vec<String> = Vec::new();
        let mut i: usize = 0;
        while i < self.games.len()
            invariant
                i <= self.games@.len(),
                names@.len() == i,
                self@.len() == self.games@.len(),
                forall|j: int| 0 <= j < i ==> (#[trigger] names@[j]) == self.games@[j].0,
            decreases self.games@.len() - i,
        {
            names.push(self.games[i].0.clone());
            i += 1;
        }
        proof {
            assert forall|game: Seq<char>| #[trigger] self@.contains_key(game) implies exists|
                i: int,
            |
                0 <= i < names@.len() && (#[trigger] names@[i])@ == game by {
                let at = choose|at: int|
                    0 <= at < self.games@.len() && (#[trigger] self.games@[at]).0@ == game;
                assert(names@[at]@ == game);
            }
        }
        names
    }

    /// Returns the part of `game`, if the catalogue covers the game.
    pub fn get(&self, game: &str) -> (data: Option<&GameData>)
        ensures
            match data {
                Some(data) => self@.contains_key(game@) && data@ == self@[game@] && data.wf(),
                None => !self@.contains_key(game@),
            },
    {
        proof {
            use_type_invariant(self);
            self.lemma_view();
        }
        match self.position(game) {
            Some(i) => Some(&self.games[i].1),
            None => None,
        }
    }

    /// Returns the name of the item `id` of `game`, found through the
    /// game's index of item names, which this call makes if no call has made
    /// it before. What the catalogue holds stays as it is.
    pub fn item_name(&mut self, game: &str, id: i64) -> (name: Option<String>)
        ensures
            final(self).wf(),
            final(self)@ == old(self)@,
            text_of(name) == item_name_in(old(self)@, game@, id),
    {
        proof {
            use_type_invariant(&*self);
            self.lemma_view();
        }
        match self.position(game) {
            Some(i) => {
                // The game's part is changed outside the catalogue, which is
                // well formed at every moment.
                let mut games: Vec<(String, GameData)> = Vec::new();
                core::mem::swap(&mut self.games, &mut games);
                let name = find_name(games[i].1.item_id_to_name(), id);
                proof {
                    let changed = DataPackageObject { games };
                    changed.lemma_same(*old(self), i as int);
                }
                core::mem::swap(&mut self.games, &mut games);
                name
            },
            None => None,
        }
    }

    /// Returns the name of the location `id` of `game`, found through the
    /// game's index of location names, which this call makes if no call has
    /// made it before. What the catalogue holds stays as it is.
    pub fn location_name(&mut self, game: &str, id: i64) -> (name: Option<String>)
        ensures
            final(self).wf(),
            final(self)@ == old(self)@,
            text_of(name) == location_name_in(old(self)@, game@, id),
    {
        proof {
            use_type_invariant(&*self);
            self.lemma_view();
        }
        match self.position(game) {
            Some(i) => {
                // The game's part is changed outside the catalogue, which is
                // well formed at every moment.
                let mut games: Vec<(String, GameData)> = Vec::new();
                core::mem::swap(&mut self.games, &mut games);
                let name = find_name(games[i].1.location_id_to_name(), id);
                proof {
                    let changed = DataPackageObject { games };
                    changed.lemma_same(*old(self), i as int);
                }
                core::mem::swap(&mut self.games, &mut games);
                name
            },
            None => None,
        }
    }

    /// A catalogue that differs from a well-formed one only in one game's
    /// part, which is well formed and holds what it held, is well formed
    /// and holds what the other holds.
    proof fn lemma_same(&self, before: DataPackageObject, at: int)
        requires
            before.wf(),
            0 <= at < before.games@.len(),
            self.games@.len() == before.games@.len(),
            forall|i: int|
                0 <= i < before.games@.len() && i != at ==> self.games@[i] == before.games@[i],
            self.games@[at].0 == before.games@[at].0,
            self.games@[at].1@ == before.games@[at].1@,
            self.games@[at].1.wf(),
        ensures
            self.wf(),
            self@ == before@,
    {
        let old_games = before.games@;
        let new_games = self.games@;
        assert forall|i: int, j: int|
            0 <= i < new_games.len() && 0 <= j < new_games.len() && i != j implies (
        #[trigger] new_games[i]).0@ != (#[trigger] new_games[j]).0@ by {
            assert(old_games[i].0@ == new_games[i].0@);
            assert(old_games[j].0@ == new_games[j].0@);
        }
        assert forall|i: int| 0 <= i < new_games.len() implies (#[trigger] new_games[i]).1.wf() by {
            if i != at {
                assert(old_games[i].1.wf());
            }
        }
        self.lemma_view();
        before.lemma_view();
        assert forall|g: Seq<char>| self@.contains_key(g) <==> before@.contains_key(g) by {
            if has_game(new_games, g) {
                let i = choose|i: int|
                    0 <= i < new_games.len() && (#[trigger] new_games[i]).0@ == g;
                assert(old_games[i].0@ == g);
            }
            if has_game(old_games, g) {
                let i = choose|i: int|
                    0 <= i < old_games.len() && (#[trigger] old_games[i]).0@ == g;
                assert(new_games[i].0@ == g);
            }
        }
        assert forall|g: Seq<char>| self@.contains_key(g) implies self@[g] == before@[g] by {
            let i = choose|i: int| 0 <= i < new_games.len() && (#[trigger] new_games[i]).0@ == g;
            assert(self@[new_games[i].0@] == new_games[i].1@);
            assert(old_games[i].0@ == g);
            assert(before@[old_games[i].0@] == old_games[i].1@);
        }
        assert(self@ =~= before@);
    }
}

} // verus!
