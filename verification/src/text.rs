use vstd::prelude::*;

verus! {

/// Appends `c` to `text`, as `String::push` does.
#[verifier::external_body]
pub(crate) fn push_char(text: &mut String, c: char)
    ensures
        final(text)@ == old(text)@.push(c),
{
    text.push(c);
}

/// The character that writes the digit `d`.
pub open spec fn spec_digit(d: int) -> char
    recommends
        0 <= d < 10,
{
    if d == 0 {
        '0'
    } else if d == 1 {
        '1'
    } else if d == 2 {
        '2'
    } else if d == 3 {
        '3'
    } else if d == 4 {
        '4'
    } else if d == 5 {
        '5'
    } else if d == 6 {
        '6'
    } else if d == 7 {
        '7'
    } else if d == 8 {
        '8'
    } else {
        '9'
    }
}

/// `n` written in decimal, without leading zeros.
pub open spec fn spec_decimal(n: u8) -> Seq<char> {
    if n < 10 {
        seq![spec_digit(n as int)]
    } else if n < 100 {
        seq![spec_digit(n as int / 10), spec_digit(n as int % 10)]
    } else {
        seq![spec_digit(n as int / 100), spec_digit((n as int / 10) % 10), spec_digit(n as int % 10)]
    }
}

/// Tells which character writes the digit `d`.
pub fn digit(d: u8) -> (c: char)
    requires
        d < 10,
    ensures
        c == spec_digit(d as int),
{
    match d {
        0 => '0',
        1 => '1',
        2 => '2',
        3 => '3',
        4 => '4',
        5 => '5',
        6 => '6',
        7 => '7',
        8 => '8',
        _ => '9',
    }
}

/// Appends `n` to `text` in decimal.
pub fn push_decimal(text: &mut String, n: u8)
    ensures
        final(text)@ == old(text)@ + spec_decimal(n),
{
    if n >= 100 {
        push_char(text, digit(n / 100));
    }
    if n >= 10 {
        push_char(text, digit((n / 10) % 10));
    }
    push_char(text, digit(n % 10));
    assert(text@ =~= old(text)@ + spec_decimal(n));
}

/// Whether `text` reads `part` from the place `at` on.
pub open spec fn spec_reads_at(text: Seq<char>, at: int, part: Seq<char>) -> bool {
    &&& 0 <= at
    &&& at + part.len() <= text.len()
    &&& text.subrange(at, at + part.len()) == part
}

/// `text` without the occurrences of `part`, found from left to right and
/// not overlapping. Without an empty `part` nothing is taken out.
pub open spec fn spec_without(text: Seq<char>, part: Seq<char>) -> Seq<char>
    decreases text.len(),
{
    if part.len() == 0 || text.len() == 0 {
        text
    } else if spec_reads_at(text, 0, part) {
        spec_without(text.skip(part.len() as int), part)
    } else {
        seq![text[0]] + spec_without(text.skip(1), part)
    }
}

/// `text` without the character `c`.
pub open spec fn spec_without_char(text: Seq<char>, c: char) -> Seq<char>
    decreases text.len(),
{
    if text.len() == 0 {
        text
    } else if text.last() == c {
        spec_without_char(text.drop_last(), c)
    } else {
        spec_without_char(text.drop_last(), c).push(text.last())
    }
}

/// Tells whether `text` reads `part` from the place `at` on.
pub fn reads_at(text: &str, at: usize, part: &str) -> (reads: bool)
    requires
        at <= text@.len(),
    ensures
        reads == spec_reads_at(text@, at as int, part@),
{
    let text_len = text.unicode_len();
    let part_len = part.unicode_len();
    if part_len > text_len - at {
        return false;
    }
    let mut i: usize = 0;
    while i < part_len
        invariant
            i <= part_len,
            part_len == part@.len(),
            text_len == text@.len(),
            at + part_len <= text_len,
            forall|j: int| 0 <= j < i ==> text@[at + j] == part@[j],
        decreases part_len - i,
    {
        if text.get_char(at + i) != part.get_char(i) {
            assert(text@.subrange(at as int, at + part_len)[i as int] == text@[at + i]);
            return false;
        }
        i += 1;
    }
    assert(text@.subrange(at as int, at + part_len) =~= part@);
    true
}

/// Copies `text` without the occurrences of `part`.
pub fn without(text: &str, part: &str) -> (rest: String)
    ensures
        rest@ == spec_without(text@, part@),
{
    let text_len = text.unicode_len();
    let part_len = part.unicode_len();
    let mut rest = String::new();
    if part_len == 0 {
        rest.append(text);
        assert(rest@ =~= text@);
        return rest;
    }
    let mut i: usize = 0;
    assert(text@.skip(0) =~= text@);
    while i < text_len
        invariant
            i <= text_len,
            text_len == text@.len(),
            part_len == part@.len(),
            part_len > 0,
            rest@ + spec_without(text@.skip(i as int), part@) == spec_without(text@, part@),
        decreases text_len - i,
    {
        let ghost here = text@.skip(i as int);
        if reads_at(text, i, part) {
            proof {
                assert(here.subrange(0, part_len as int) =~= text@.subrange(
                    i as int,
                    i + part_len,
                ));
                assert(here.skip(part_len as int) =~= text@.skip(i + part_len));
            }
            i += part_len;
        } else {
            proof {
                assert(here.len() >= part_len ==> here.subrange(0, part_len as int)
                    =~= text@.subrange(i as int, i + part_len));
                assert(here.skip(1) =~= text@.skip(i + 1));
                assert(rest@.push(text@[i as int]) + spec_without(here.skip(1), part@) =~= rest@
                    + (seq![here[0]] + spec_without(here.skip(1), part@)));
            }
            push_char(&mut rest, text.get_char(i));
            i += 1;
        }
    }
    assert(rest@ + Seq::<char>::empty() =~= rest@);
    rest
}

/// Copies `text` without the character `c`.
pub fn without_char(text: &str, c: char) -> (rest: String)
    ensures
        rest@ == spec_without_char(text@, c),
{
    let count = text.unicode_len();
    let mut rest = String::new();
    let mut i: usize = 0;
    while i < count
        invariant
            i <= count,
            count == text@.len(),
            rest@ == spec_without_char(text@.take(i as int), c),
        decreases count - i,
    {
        proof {
            let upto = text@.take(i + 1);
            assert(upto.drop_last() =~= text@.take(i as int));
            assert(upto.last() == text@[i as int]);
        }
        let next = text.get_char(i);
        if next != c {
            push_char(&mut rest, next);
        }
        i += 1;
    }
    assert(text@.take(i as int) =~= text@);
    rest
}

/// The name under which the tables hold what a character calls `name`:
/// the character's own name, an underscore, and `name`.
pub open spec fn spec_namespaced(character: Seq<char>, name: Seq<char>) -> Seq<char> {
    character + seq!['_'] + name
}

/// Writes the name under which the tables hold what `character` calls
/// `name`.
pub fn namespaced(character: &str, name: &str) -> (id: String)
    ensures
        id@ == spec_namespaced(character@, name@),
{
    let mut id = String::from_str(character);
    push_char(&mut id, '_');
    id.append(name);
    assert(id@ =~= spec_namespaced(character@, name@));
    id
}

/// The pattern that the names of a character's own entries match: they
/// begin with the character's name and go on.
pub open spec fn spec_own_pattern(character: Seq<char>) -> Seq<char> {
    seq!['(', '^'] + character + seq!['.', '+', ')']
}

/// Writes the pattern of the names of `character`'s own entries.
pub fn own_pattern(character: &str) -> (pattern: String)
    ensures
        pattern@ == spec_own_pattern(character@),
{
    let mut pattern = String::new();
    push_char(&mut pattern, '(');
    push_char(&mut pattern, '^');
    pattern.append(character);
    push_char(&mut pattern, '.');
    push_char(&mut pattern, '+');
    push_char(&mut pattern, ')');
    assert(pattern@ =~= spec_own_pattern(character@));
    pattern
}

/// What a character calls the entry that the tables hold under `id`: `id`
/// without the character's name and without underscores.
pub open spec fn spec_trimmed(id: Seq<char>, character: Seq<char>) -> Seq<char> {
    spec_without_char(spec_without(id, character), '_')
}

/// Writes what `character` calls the entry that the tables hold under `id`.
pub fn trimmed(id: &str, character: &str) -> (name: String)
    ensures
        name@ == spec_trimmed(id@, character@),
{
    let bare = without(id, character);
    without_char(bare.as_str(), '_')
}

} // verus!
