//! Item names from an item-id table: a text of lines `id:name`, searched
//! for the first line whose id field reads as a given id.
use vstd::prelude::*;
use vstd::string::StrSliceExecFns;

use crate::text::{
    chars_of, find_char, index_of_or_len, lemma_index_of, lemma_index_of_bounds, parse_i32, parse_i32_range,
    trim, trimmed_bounds,
};

verus! {

/// A line without the carriage return that ends it, if one does.
pub open spec fn strip_cr(l: Seq<char>) -> Seq<char> {
    if l.len() > 0 && l.last() == '\r' {
        l.drop_last()
    } else {
        l
    }
}

/// The lines of a text, as `str::lines` yields them: split at each `\n`,
/// with a `\r` before that `\n` removed, and no empty line after a final `\n`.
pub open spec fn lines(s: Seq<char>) -> Seq<Seq<char>>
    decreases s.len(),
{
    if s.len() == 0 {
        Seq::empty()
    } else {
        let j = index_of_or_len(s, '\n');
        proof {
            lemma_index_of_bounds(s, '\n');
        }
        if j < s.len() {
            seq![strip_cr(s.take(j))] + lines(s.skip(j + 1))
        } else {
            seq![s]
        }
    }
}

/// The id a field reads as, with 0 where it is no decimal `i32`.
pub open spec fn id_or_zero(field: Seq<char>) -> i32 {
    match parse_i32(field) {
        Some(v) => v,
        None => 0,
    }
}

/// The name a line gives for `id`: where the line has a `:` and the text
/// before its first `:` reads as `id`, the text up to the next `:` (or the
/// line's end), trimmed.
pub open spec fn line_name(line: Seq<char>, id: i32) -> Option<Seq<char>> {
    let c = index_of_or_len(line, ':');
    if c < line.len() && id_or_zero(line.take(c)) == id {
        let rest = line.skip(c + 1);
        Some(trim(rest.take(index_of_or_len(rest, ':'))))
    } else {
        None
    }
}

/// The name that the first line naming `id` gives, or the empty text.
pub open spec fn name_in_lines(ls: Seq<Seq<char>>, id: i32) -> Seq<char>
    decreases ls.len(),
{
    if ls.len() == 0 {
        Seq::empty()
    } else {
        match line_name(ls[0], id) {
            Some(n) => n,
            None => name_in_lines(ls.drop_first(), id),
        }
    }
}

/// The name that an item-id table gives for `id`.
pub open spec fn item_name(contents: Seq<char>, id: i32) -> Seq<char> {
    name_in_lines(lines(contents), id)
}

/// The name that the item-id table `contents` gives for the item `id`:
/// the trimmed second `:`-field of the first line whose first field reads
/// as `id` (a field that is no number reads as 0), or the empty string.
pub fn item_name_for_id(contents: &str, id: i32) -> (r: String)
    ensures
        r@ == item_name(contents@, id),
{
    let chars = chars_of(contents);
    let n = chars.len();
    let mut pos: usize = 0;
    assert(chars@.skip(0) =~= chars@);
    while pos < n
        invariant
            n == chars.len(),
            chars@ == contents@,
            pos <= n,
            item_name(contents@, id) == name_in_lines(lines(chars@.skip(pos as int)), id),
        decreases n - pos,
    {
        let ghost rest = chars@.skip(pos as int);
        assert(rest =~= chars@.subrange(pos as int, n as int));
        let j = find_char(&chars, pos, n, '\n');
        let mut e = j;
        if j < n && e > pos && chars[e - 1] == '\r' {
            e = e - 1;
        }
        let ghost line = chars@.subrange(pos as int, e as int);
        let ghost next: int = if j < n {
            j + 1
        } else {
            n as int
        };
        proof {
            let k = j - pos;
            if j < n {
                assert(rest.take(k) =~= chars@.subrange(pos as int, j as int));
                assert(line == strip_cr(rest.take(k))) by {
                    if e < j {
                        assert(line =~= rest.take(k).drop_last());
                    } else {
                        assert(line =~= rest.take(k));
                    }
                }
                assert(rest.skip(k + 1) =~= chars@.skip(j + 1));
                assert(lines(rest) == seq![line] + lines(chars@.skip(j + 1)));
            } else {
                assert(line =~= rest);
                assert(chars@.skip(n as int) =~= Seq::<char>::empty());
                assert(lines(rest) == seq![line]);
                assert(lines(chars@.skip(n as int)) =~= Seq::<Seq<char>>::empty());
                assert(seq![line] =~= seq![line] + lines(chars@.skip(n as int)));
            }
            let ls = lines(rest);
            assert(ls[0] == line);
            assert(ls.drop_first() =~= lines(chars@.skip(next)));
        }
        let c = find_char(&chars, pos, e, ':');
        if c < e {
            let field_id = match parse_i32_range(&chars, pos, c) {
                Some(v) => v,
                None => 0,
            };
            proof {
                assert(line.take(c - pos) =~= chars@.subrange(pos as int, c as int));
            }
            if field_id == id {
                let c2 = find_char(&chars, c + 1, e, ':');
                let (a, b) = trimmed_bounds(&chars, c + 1, c2);
                proof {
                    let after = line.skip(c - pos + 1);
                    assert(after =~= chars@.subrange(c + 1, e as int));
                    assert(after.take(c2 - (c + 1)) =~= chars@.subrange(c + 1, c2 as int));
                    assert(line_name(line, id) == Some(chars@.subrange(a as int, b as int)));
                }
                let name = contents.substring_char(a, b);
                return name.to_owned();
            }
        }
        proof {
            assert(line_name(line, id) is None);
        }
        if j < n {
            pos = j + 1;
        } else {
            pos = n;
        }
    }
    proof {
        assert(chars@.skip(n as int) =~= Seq::<char>::empty());
        assert(lines(chars@.skip(n as int)) =~= Seq::<Seq<char>>::empty());
    }
    String::new()
}

/// A text that is a line, a `\n` and more text has that line (without a
/// closing `\r`) as its first line and the lines of the rest after it: an
/// empty line is a line like any other.
pub proof fn law_lines_split(a: Seq<char>, b: Seq<char>)
    requires
        forall|k: int| 0 <= k < a.len() ==> a[k] != '\n',
    ensures
        lines(a + seq!['\n'] + b) == seq![strip_cr(a)] + lines(b),
{
    let s = a + seq!['\n'] + b;
    assert forall|k: int| 0 <= k < a.len() implies s[k] != '\n' by {
        assert(s[k] == a[k]);
    }
    assert(s[a.len() as int] == '\n');
    lemma_index_of(s, '\n', a.len() as int);
    assert(s.take(a.len() as int) =~= a);
    assert(s.skip(a.len() as int + 1) =~= b);
}

/// A text without a `\n` is one line, as it is.
pub proof fn law_lines_last(a: Seq<char>)
    requires
        a.len() > 0,
        forall|k: int| 0 <= k < a.len() ==> a[k] != '\n',
    ensures
        lines(a) == seq![a],
{
    lemma_index_of(a, '\n', a.len() as int);
}

/// The name found in a table is that of its first line where that line
/// names the id, and otherwise the name found in the lines after it: no
/// line, empty or not, hides the lines after it.
pub proof fn law_item_name_line_by_line(a: Seq<char>, b: Seq<char>, id: i32)
    requires
        forall|k: int| 0 <= k < a.len() ==> a[k] != '\n',
    ensures
        item_name(a + seq!['\n'] + b, id) == (match line_name(strip_cr(a), id) {
            Some(n) => n,
            None => item_name(b, id),
        }),
{
    law_lines_split(a, b);
    let ls = seq![strip_cr(a)] + lines(b);
    assert(ls[0] == strip_cr(a));
    assert(ls.drop_first() =~= lines(b));
}

/// A line without a `:` names nothing.
pub proof fn law_line_without_colon(line: Seq<char>, id: i32)
    requires
        forall|k: int| 0 <= k < line.len() ==> line[k] != ':',
    ensures
        line_name(line, id) is None,
{
    lemma_index_of(line, ':', line.len() as int);
}

/// A line `field:name` (with no other `:`) names `id` exactly where its
/// field reads as `id`, and then gives its name trimmed.
pub proof fn law_line_name_fields(field: Seq<char>, name: Seq<char>, id: i32)
    requires
        forall|k: int| 0 <= k < field.len() ==> field[k] != ':',
        forall|k: int| 0 <= k < name.len() ==> name[k] != ':',
    ensures
        line_name(field + seq![':'] + name, id) == (if id_or_zero(field) == id {
            Some(trim(name))
        } else {
            None
        }),
{
    let line = field + seq![':'] + name;
    assert forall|k: int| 0 <= k < field.len() implies line[k] != ':' by {
        assert(line[k] == field[k]);
    }
    assert(line[field.len() as int] == ':');
    lemma_index_of(line, ':', field.len() as int);
    assert(line.take(field.len() as int) =~= field);
    let rest = line.skip(field.len() as int + 1);
    assert(rest =~= name);
    lemma_index_of(name, ':', name.len() as int);
    assert(name.take(name.len() as int) =~= name);
}

} // verus!
