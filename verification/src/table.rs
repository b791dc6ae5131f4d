use vstd::prelude::*;
use crate::pattern::is_match;
use crate::pattern::spec_is_match;
use crate::text::own_pattern;
use crate::text::spec_own_pattern;
use crate::text::spec_trimmed;

verus! {

/// The entries of a table as plain values, in their order.
pub open spec fn spec_table<T: View>(entries: Seq<(String, T)>) -> Seq<(Seq<char>, T::V)> {
    entries.map_values(|entry: (String, T)| (entry.0@, entry.1@))
}

/// The place of the first entry of `table` under `name`.
pub open spec fn spec_position<V>(table: Seq<(Seq<char>, V)>, name: Seq<char>) -> Option<int>
    decreases table.len(),
{
    if table.len() == 0 {
        None
    } else if table.first().0 == name {
        Some(0int)
    } else {
        match spec_position(table.drop_first(), name) {
            Some(i) => Some(i + 1),
            None => None,
        }
    }
}

/// What `table` holds under `name`: the value of the first entry with this
/// name.
pub open spec fn spec_get<V>(table: Seq<(Seq<char>, V)>, name: Seq<char>) -> Option<V> {
    match spec_position(table, name) {
        Some(i) => Some(table[i].1),
        None => None,
    }
}

/// The table once `value` was put under `name`: it takes the place of what
/// was there, or comes last if nothing was.
pub open spec fn spec_put<V>(table: Seq<(Seq<char>, V)>, name: Seq<char>, value: V) -> Seq<
    (Seq<char>, V),
> {
    match spec_position(table, name) {
        Some(i) => table.update(i, (name, value)),
        None => table.push((name, value)),
    }
}

/// Whether no name occurs twice in `table`.
pub open spec fn spec_distinct<V>(table: Seq<(Seq<char>, V)>) -> bool {
    forall|i: int, j: int|
        0 <= i < j < table.len() ==> (#[trigger] table[i]).0 != (#[trigger] table[j]).0
}

/// The first place of a name is a place of that name, and no earlier place
/// is; without a first place the name occurs nowhere.
pub proof fn lemma_position<V>(table: Seq<(Seq<char>, V)>, name: Seq<char>)
    ensures
        match spec_position(table, name) {
            Some(i) => 0 <= i < table.len() && table[i].0 == name && forall|j: int|
                0 <= j < i ==> (#[trigger] table[j]).0 != name,
            None => forall|j: int| 0 <= j < table.len() ==> (#[trigger] table[j]).0 != name,
        },
    decreases table.len(),
{
    if table.len() > 0 && table.first().0 != name {
        let rest = table.drop_first();
        lemma_position(rest, name);
        assert(forall|j: int| 0 <= j < rest.len() ==> rest[j] == table[j + 1]);
        match spec_position(rest, name) {
            Some(i) => {
                assert forall|j: int| 0 <= j < i + 1 implies (#[trigger] table[j]).0 != name by {
                    if j > 0 {
                        assert(rest[j - 1] == table[j]);
                    }
                }
            },
            None => {
                assert forall|j: int| 0 <= j < table.len() implies (#[trigger] table[j]).0
                    != name by {
                    if j > 0 {
                        assert(rest[j - 1] == table[j]);
                    }
                }
            },
        }
    }
}

/// A place of a name before which the name does not occur is its first
/// place.
pub proof fn lemma_position_is<V>(table: Seq<(Seq<char>, V)>, name: Seq<char>, place: int)
    requires
        0 <= place < table.len(),
        table[place].0 == name,
        forall|j: int| 0 <= j < place ==> (#[trigger] table[j]).0 != name,
    ensures
        spec_position(table, name) == Some(place),
{
    lemma_position(table, name);
}

/// A name that occurs nowhere has no place.
pub proof fn lemma_position_none<V>(table: Seq<(Seq<char>, V)>, name: Seq<char>)
    requires
        forall|j: int| 0 <= j < table.len() ==> (#[trigger] table[j]).0 != name,
    ensures
        spec_position(table, name) is None,
{
    lemma_position(table, name);
}

/// Putting a value under a name keeps the names distinct, and the value is
/// then what the table holds under that name.
pub proof fn lemma_put<V>(table: Seq<(Seq<char>, V)>, name: Seq<char>, value: V)
    requires
        spec_distinct(table),
    ensures
        spec_distinct(spec_put(table, name, value)),
        spec_get(spec_put(table, name, value), name) == Some(value),
{
    lemma_position(table, name);
    let after = spec_put(table, name, value);
    match spec_position(table, name) {
        Some(i) => {
            assert forall|j: int| 0 <= j < i implies (#[trigger] after[j]).0 != name by {
                assert(after[j] == table[j]);
            }
            lemma_position_is(after, name, i);
        },
        None => {
            assert forall|j: int| 0 <= j < table.len() implies (#[trigger] after[j]).0 != name by {
                assert(after[j] == table[j]);
            }
            lemma_position_is(after, name, table.len() as int);
        },
    }
}

/// Finds the first entry of `entries` under `name`.
pub fn position<T: View>(entries: &Vec<(String, T)>, name: &String) -> (place: Option<usize>)
    ensures
        match place {
            Some(i) => spec_position(spec_table(entries@), name@) == Some(i as int) && i
                < entries.len(),
            None => spec_position(spec_table(entries@), name@) is None,
        },
{
    let mut i: usize = 0;
    while i < entries.len()
        invariant
            i <= entries.len(),
            forall|j: int| 0 <= j < i ==> (#[trigger] spec_table(entries@)[j]).0 != name@,
        decreases entries.len() - i,
    {
        if entries[i].0 == *name {
            proof {
                lemma_position_is(spec_table(entries@), name@, i as int);
            }
            return Some(i);
        }
        i += 1;
    }
    proof {
        lemma_position_none(spec_table(entries@), name@);
    }
    None
}

/// Puts `value` under `name`, in the place of what was there or at the end.
pub fn put<T: View>(entries: &mut Vec<(String, T)>, name: String, value: T)
    ensures
        spec_table(final(entries)@) == spec_put(spec_table(old(entries)@), name@, value@),
{
    match position(entries, &name) {
        Some(i) => {
            entries.set(i, (name, value));
            assert(spec_table(entries@) =~= spec_put(spec_table(old(entries)@), name@, value@));
        },
        None => {
            entries.push((name, value));
            assert(spec_table(entries@) =~= spec_put(spec_table(old(entries)@), name@, value@));
        },
    }
}

/// For each entry of `table`, whether it is `character`'s own: whether its
/// name matches the character's pattern.
pub open spec fn spec_owned<V>(table: Seq<(Seq<char>, V)>, character: Seq<char>) -> Seq<bool> {
    Seq::new(table.len(), |i: int| spec_is_match(spec_own_pattern(character), table[i].0))
}

/// The entries of `table` that `owned` marks, as `character` calls them: the
/// names in the order of the table, and a table of the entries under these
/// names. The character calls an entry by its name without the character's
/// own name and without underscores.
pub open spec fn spec_take_own<V>(
    table: Seq<(Seq<char>, V)>,
    owned: Seq<bool>,
    character: Seq<char>,
) -> (Seq<Seq<char>>, Seq<(Seq<char>, V)>)
    recommends
        owned.len() == table.len(),
    decreases table.len(),
{
    if table.len() == 0 {
        (Seq::empty(), Seq::empty())
    } else {
        let before = spec_take_own(table.drop_last(), owned.drop_last(), character);
        let entry = table.last();
        if owned.last() {
            let name = spec_trimmed(entry.0, character);
            (before.0.push(name), spec_put(before.1, name, entry.1))
        } else {
            before
        }
    }
}

/// The entries of `character` among those of `table`, as the character
/// calls them.
pub open spec fn spec_own<V>(table: Seq<(Seq<char>, V)>, character: Seq<char>) -> (
    Seq<Seq<char>>,
    Seq<(Seq<char>, V)>,
) {
    spec_take_own(table, spec_owned(table, character), character)
}

/// Tells of each entry of `entries` whether it is `character_name`'s own.
pub fn owned<T: View>(entries: &Vec<(String, T)>, character_name: &str) -> (marks: Vec<bool>)
    ensures
        marks@ == spec_owned(spec_table(entries@), character_name@),
{
    let pattern = own_pattern(character_name);
    let mut marks: Vec<bool> = Vec::new();
    let mut i: usize = 0;
    while i < entries.len()
        invariant
            i <= entries.len(),
            pattern@ == spec_own_pattern(character_name@),
            marks@ == spec_owned(spec_table(entries@), character_name@).take(i as int),
        decreases entries.len() - i,
    {
        let own = is_match(pattern.as_str(), entries[i].0.as_str());
        marks.push(own);
        i += 1;
        assert(marks@ =~= spec_owned(spec_table(entries@), character_name@).take(i as int));
    }
    assert(marks@ =~= spec_owned(spec_table(entries@), character_name@));
    marks
}

/// The entries taken for a character are a table in which no name occurs
/// twice.
pub proof fn lemma_own_distinct<V>(
    table: Seq<(Seq<char>, V)>,
    owned: Seq<bool>,
    character: Seq<char>,
)
    ensures
        spec_distinct(spec_take_own(table, owned, character).1),
    decreases table.len(),
{
    if table.len() > 0 {
        let before = spec_take_own(table.drop_last(), owned.drop_last(), character);
        lemma_own_distinct(table.drop_last(), owned.drop_last(), character);
        let entry = table.last();
        if owned.last() {
            lemma_put(before.1, spec_trimmed(entry.0, character), entry.1);
        }
    }
}

} // verus!
