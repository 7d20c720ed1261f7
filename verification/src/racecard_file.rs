//! The text of a race-card file: lines of fields with commas between,
//! each field possibly in double quotes.

use crate::fixed_point::{decimal_string, decimal_text};
use crate::text::{find_char, lines, lines_of, position_of, trim, trimmed};
use vstd::prelude::*;
use vstd::string::{StrSliceExecFns, StringExecFns};

verus! {

/// The pieces of `s` between one `c` and the next.
pub open spec fn split_on(s: Seq<char>, c: char) -> Seq<Seq<char>>
    decreases s.len(),
{
    let k = position_of(s, c);
    if k < 0 || k >= s.len() {
        seq![s]
    } else {
        seq![s.subrange(0, k)] + split_on(s.subrange(k + 1, s.len() as int), c)
    }
}

/// `s` without the `c`s at its start.
pub open spec fn without_leading(s: Seq<char>, c: char) -> Seq<char>
    decreases s.len(),
{
    if s.len() > 0 && s[0] == c {
        without_leading(s.drop_first(), c)
    } else {
        s
    }
}

/// `s` without the `c`s at its end.
pub open spec fn without_trailing(s: Seq<char>, c: char) -> Seq<char>
    decreases s.len(),
{
    if s.len() > 0 && s.last() == c {
        without_trailing(s.drop_last(), c)
    } else {
        s
    }
}

/// A field as it is read: without the white space round it, without the
/// double quotes round that, and without the white space inside those.
pub open spec fn cleaned(field: Seq<char>) -> Seq<char> {
    trimmed(without_trailing(without_leading(trimmed(field), '"'), '"'))
}

/// How many items are left of `len` when no more than `limit` may stay.
pub open spec fn at_most(len: int, limit: int) -> int {
    if limit < len {
        limit
    } else {
        len
    }
}

/// The fields of a line, `limit` at most, each cleaned.
pub open spec fn fields_of(line: Seq<char>, limit: int) -> Seq<Seq<char>> {
    let pieces = split_on(line, ',');
    Seq::new(at_most(pieces.len() as int, limit) as nat, |i: int| cleaned(pieces[i]))
}

/// The rows of a file: the fields of each of its lines.
pub open spec fn rows_of(contents: Seq<char>, columns: int) -> Seq<Seq<Seq<char>>> {
    let all = lines_of(contents);
    Seq::new(all.len(), |i: int| fields_of(all[i], columns))
}

/// The position of the first of the first `n` rows that has not `columns`
/// fields.
pub open spec fn first_short_row(rows: Seq<Seq<Seq<char>>>, columns: int, n: int) -> Option<int>
    decreases n,
{
    if n <= 0 {
        None
    } else if first_short_row(rows, columns, n - 1).is_some() {
        first_short_row(rows, columns, n - 1)
    } else if rows[n - 1].len() != columns {
        Some(n - 1)
    } else {
        None
    }
}

/// A row that has not `columns` fields, with none such before it, is the
/// first short row of any longer list.
pub proof fn lemma_first_short_row(rows: Seq<Seq<Seq<char>>>, columns: int, i: int, n: int)
    requires
        0 <= i < n,
        first_short_row(rows, columns, i).is_none(),
        rows[i].len() != columns,
    ensures
        first_short_row(rows, columns, n) == Some(i),
    decreases n,
{
    if n > i + 1 {
        lemma_first_short_row(rows, columns, i, n - 1);
    }
}

/// What is said of a row with the wrong number of fields.
pub open spec fn column_error(line: int, found: int, expected: int) -> Seq<char> {
    "Line "@ + decimal_text(line as nat) + " has "@ + decimal_text(found as nat)
        + " columns, expected "@ + decimal_text(expected as nat)
}

/// The table that a file holds: its rows where each has `columns` fields,
/// else the complaint about the first row that has not.
pub open spec fn table_of(contents: Seq<char>, columns: int) -> Result<
    Seq<Seq<Seq<char>>>,
    Seq<char>,
> {
    let rows = rows_of(contents, columns);
    match first_short_row(rows, columns, rows.len() as int) {
        Some(i) => Err(column_error(i + 1, rows[i].len() as int, columns)),
        None => Ok(rows),
    }
}

/// The mathematical content of a list of pieces of text.
pub open spec fn piece_views(pieces: Seq<&str>) -> Seq<Seq<char>> {
    Seq::new(pieces.len(), |i: int| pieces[i]@)
}

/// The pieces of a text have a first piece.
pub proof fn lemma_split_on_is_not_empty(s: Seq<char>, c: char)
    ensures
        split_on(s, c).len() >= 1,
{
}

/// Splits `s` at each `c`, giving the first `limit` pieces.
pub fn split_at_char<'a>(s: &'a str, c: char, limit: usize) -> (r: Vec<&'a str>)
    ensures
        piece_views(r@) == split_on(s@, c).take(
            at_most(split_on(s@, c).len() as int, limit as int),
        ),
{
    let n = s.unicode_len();
    let ghost all = split_on(s@, c);
    let mut out: Vec<&str> = Vec::new();
    let mut start: usize = 0;
    let mut done = false;
    assert(s@.subrange(0, n as int) =~= s@);
    assert(Seq::<Seq<char>>::empty() + all =~= all);
    while !done && out.len() < limit
        invariant
            start <= n,
            n == s@.len(),
            all == split_on(s@, c),
            out@.len() <= limit,
            !done ==> all == piece_views(out@) + split_on(s@.subrange(start as int, n as int), c),
            done ==> all == piece_views(out@),
        decreases (if done { 0int } else { 1int }), n - start,
    {
        let ghost before = piece_views(out@);
        let ghost rest = s@.subrange(start as int, n as int);
        let k = find_char(s, c, start);
        let piece = s.substring_char(start, k);
        out.push(piece);
        proof {
            assert(piece@ =~= rest.subrange(0, k - start));
            assert(piece_views(out@) =~= before.push(piece@));
        }
        if k >= n {
            proof {
                assert(rest.subrange(0, k - start) =~= rest);
                assert(before + seq![rest] =~= before.push(piece@));
            }
            done = true;
        } else {
            proof {
                let tail = rest.subrange(k - start + 1, rest.len() as int);
                assert(tail =~= s@.subrange(k + 1, n as int));
                assert(before + (seq![piece@] + split_on(tail, c)) =~= before.push(piece@)
                    + split_on(tail, c));
            }
            start = k + 1;
        }
    }
    proof {
        let got = piece_views(out@);
        if done {
            assert(all.take(all.len() as int) =~= all);
        } else {
            let rest = split_on(s@.subrange(start as int, n as int), c);
            lemma_split_on_is_not_empty(s@.subrange(start as int, n as int), c);
            assert((got + rest).take(got.len() as int) =~= got);
        }
    }
    out
}

/// Removes the `c`s at the start and at the end of `s`.
pub fn strip_char(s: &str, c: char) -> (r: &str)
    ensures
        r@ == without_trailing(without_leading(s@, c), c),
{
    let n = s.unicode_len();
    let mut i: usize = 0;
    assert(s@.subrange(0, n as int) =~= s@);
    while i < n && s.get_char(i) == c
        invariant
            i <= n,
            n == s@.len(),
            without_leading(s@, c) == without_leading(s@.subrange(i as int, n as int), c),
        decreases n - i,
    {
        proof {
            let rest = s@.subrange(i as int, n as int);
            assert(rest[0] == s@[i as int]);
            assert(rest.drop_first() =~= s@.subrange(i + 1, n as int));
        }
        i += 1;
    }
    proof {
        let rest = s@.subrange(i as int, n as int);
        if i < n {
            assert(rest[0] == s@[i as int]);
        }
        assert(without_leading(rest, c) == rest);
    }
    let ghost head = s@.subrange(i as int, n as int);
    let mut j: usize = n;
    while j > i && s.get_char(j - 1) == c
        invariant
            i <= j <= n,
            n == s@.len(),
            head == s@.subrange(i as int, n as int),
            without_trailing(head, c) == without_trailing(s@.subrange(i as int, j as int), c),
        decreases j - i,
    {
        proof {
            let rest = s@.subrange(i as int, j as int);
            assert(rest.last() == s@[j - 1]);
            assert(rest.drop_last() =~= s@.subrange(i as int, j - 1));
        }
        j -= 1;
    }
    proof {
        let rest = s@.subrange(i as int, j as int);
        if j > i {
            assert(rest.last() == s@[j - 1]);
        }
        assert(without_trailing(rest, c) == rest);
    }
    s.substring_char(i, j)
}

/// Cleans a field.
pub fn clean_field(field: &str) -> (r: String)
    ensures
        r@ == cleaned(field@),
{
    String::from_str(trim(strip_char(trim(field), '"')))
}

/// Splits a line into its fields, `limit` at most, and cleans each.
pub fn split_fields(line: &str, limit: usize) -> (r: Vec<String>)
    ensures
        r.deep_view() == fields_of(line@, limit as int),
{
    let pieces = split_at_char(line, ',', limit);
    let ghost want = fields_of(line@, limit as int);
    let mut out: Vec<String> = Vec::new();
    let mut i: usize = 0;
    assert(piece_views(pieces@).len() == pieces@.len());
    while i < pieces.len()
        invariant
            i <= pieces@.len(),
            want == fields_of(line@, limit as int),
            piece_views(pieces@) == split_on(line@, ',').take(
                at_most(split_on(line@, ',').len() as int, limit as int),
            ),
            pieces@.len() == want.len(),
            out@.len() == i,
            forall|k: int| 0 <= k < i ==> (#[trigger] out@[k])@ == want[k],
        decreases pieces@.len() - i,
    {
        assert(piece_views(pieces@)[i as int] == pieces@[i as int]@);
        assert(piece_views(pieces@)[i as int] == split_on(line@, ',')[i as int]);
        out.push(clean_field(pieces[i]));
        i += 1;
    }
    assert(out.deep_view() =~= want);
    out
}

fn column_complaint(line: usize, found: usize, expected: usize) -> (r: String)
    ensures
        r@ == column_error(line as int, found as int, expected as int),
{
    let mut out = String::from_str("Line ");
    let line_text = decimal_string(line as u128);
    out.append(line_text.as_str());
    out.append(" has ");
    let found_text = decimal_string(found as u128);
    out.append(found_text.as_str());
    out.append(" columns, expected ");
    let expected_text = decimal_string(expected as u128);
    out.append(expected_text.as_str());
    out
}

/// The mathematical content of a table, or of the complaint about it.
pub open spec fn table_view(t: Result<Vec<Vec<String>>, String>) -> Result<
    Seq<Seq<Seq<char>>>,
    Seq<char>,
> {
    match t {
        Ok(rows) => Ok(rows.deep_view()),
        Err(message) => Err(message@),
    }
}

/// Reads the table that a file holds: one row of `columns` cleaned fields
/// for each line; fields beyond `columns` are dropped, and a line with
/// fewer is an error.
pub fn read_table(contents: &str, columns: usize) -> (r: Result<Vec<Vec<String>>, String>)
    ensures
        table_view(r) == table_of(contents@, columns as int),
        r matches Ok(rows) ==> forall|i: int|
            0 <= i < rows@.len() ==> (#[trigger] rows@[i])@.len() == columns,
{
    let all = lines(contents);
    let ghost want = rows_of(contents@, columns as int);
    let mut rows: Vec<Vec<String>> = Vec::new();
    let mut i: usize = 0;
    while i < all.len()
        invariant
            i <= all@.len(),
            all.deep_view() == lines_of(contents@),
            want == rows_of(contents@, columns as int),
            rows@.len() == i,
            forall|k: int| 0 <= k < i ==> (#[trigger] rows@[k]).deep_view() == want[k],
            forall|k: int| 0 <= k < i ==> (#[trigger] rows@[k])@.len() == columns,
            first_short_row(want, columns as int, i as int).is_none(),
        decreases all@.len() - i,
    {
        assert(all.deep_view()[i as int] == all@[i as int]@);
        let fields = split_fields(all[i], columns);
        assert(fields.deep_view().len() == fields@.len());
        if fields.len() != columns {
            proof {
                lemma_first_short_row(want, columns as int, i as int, want.len() as int);
            }
            return Err(column_complaint(i + 1, fields.len(), columns));
        }
        rows.push(fields);
        i += 1;
    }
    assert(rows.deep_view() =~= want);
    Ok(rows)
}

/// The position of the first of the first `n` race numbers that is `number`.
pub open spec fn first_race(numbers: Seq<Option<u32>>, number: Option<u32>, n: int) -> Option<int>
    decreases n,
{
    if n <= 0 {
        None
    } else if first_race(numbers, number, n - 1).is_some() {
        first_race(numbers, number, n - 1)
    } else if numbers[n - 1] == number {
        Some(n - 1)
    } else {
        None
    }
}

/// Finds the race that a line belongs to: the first race with the number
/// of the line.
pub fn race_position(numbers: &Vec<Option<u32>>, number: Option<u32>) -> (r: Option<usize>)
    ensures
        match r {
            Some(i) => first_race(numbers@, number, numbers@.len() as int) == Some(i as int),
            None => first_race(numbers@, number, numbers@.len() as int).is_none(),
        },
        r matches Some(i) ==> i < numbers@.len() && numbers@[i as int] == number,
{
    let mut i: usize = 0;
    while i < numbers.len()
        invariant
            i <= numbers@.len(),
            first_race(numbers@, number, i as int).is_none(),
        decreases numbers@.len() - i,
    {
        let same = match (numbers[i], number) {
            (Some(a), Some(b)) => a == b,
            (None, None) => true,
            _ => false,
        };
        if same {
            proof {
                lemma_first_race(numbers@, number, i as int, numbers@.len() as int);
            }
            return Some(i);
        }
        i += 1;
    }
    None
}

/// A race with the number, with none such before it, is the first such
/// race of any longer list.
pub proof fn lemma_first_race(numbers: Seq<Option<u32>>, number: Option<u32>, i: int, n: int)
    requires
        0 <= i < n,
        first_race(numbers, number, i).is_none(),
        numbers[i] == number,
    ensures
        first_race(numbers, number, n) == Some(i),
    decreases n,
{
    if n > i + 1 {
        lemma_first_race(numbers, number, i, n - 1);
    }
}

} // verus!
