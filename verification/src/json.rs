//! JSON documents and a navigator over them: lookups of an object's member,
//! the compact text of a value, and searches of an array of objects by the
//! value of a member.
use vstd::prelude::*;

use crate::text::{chars_equal, chars_of};

verus! {

/// A JSON value. A number holds its text as the JSON parser wrote it; an
/// object holds its members in the parser's order.
#[derive(Debug, PartialEq)]
pub enum JsonValue {
    Null,
    Bool(bool),
    Number(String),
    String(String),
    Array(Vec<JsonValue>),
    Object(Vec<(String, JsonValue)>),
}

/// The value of the first member named `key`.
pub open spec fn member_value(members: Seq<(String, JsonValue)>, key: Seq<char>) -> Option<
    JsonValue,
>
    decreases members.len(),
{
    if members.len() == 0 {
        None
    } else if members[0].0@ == key {
        Some(members[0].1)
    } else {
        member_value(members.drop_first(), key)
    }
}

/// The member `key` of a value, as `Value::get` with a string index finds
/// it: only an object has members.
pub open spec fn json_get(v: JsonValue, key: Seq<char>) -> Option<JsonValue> {
    match v {
        JsonValue::Object(members) => member_value(members@, key),
        _ => None,
    }
}

/// The text of a value, if it is a string.
pub open spec fn json_str(v: JsonValue) -> Option<Seq<char>> {
    match v {
        JsonValue::String(s) => Some(s@),
        _ => None,
    }
}

/// The member `key` of `v`, if `v` is an object that has one.
pub fn get<'a>(v: &'a JsonValue, key: &str) -> (r: Option<&'a JsonValue>)
    ensures
        match r {
            Some(x) => json_get(*v, key@) == Some(*x),
            None => json_get(*v, key@) is None,
        },
{
    match v {
        JsonValue::Object(members) => {
            let k = key.to_owned();
            let mut i: usize = 0;
            assert(members@.skip(0) =~= members@);
            while i < members.len()
                invariant
                    i <= members.len(),
                    k@ == key@,
                    json_get(*v, key@) == member_value(members@, key@),
                    member_value(members@, key@) == member_value(members@.skip(i as int), key@),
                decreases members.len() - i,
            {
                assert(members@.skip(i as int).drop_first() =~= members@.skip(i + 1));
                assert(members@.skip(i as int)[0] == members@[i as int]);
                if members[i].0 == k {
                    return Some(&members[i].1);
                }
                i += 1;
            }
            None
        },
        _ => None,
    }
}

/// The lowercase hexadecimal digits.
pub open spec fn hex_digits() -> Seq<char> {
    seq!['0', '1', '2', '3', '4', '5', '6', '7', '8', '9', 'a', 'b', 'c', 'd', 'e', 'f']
}

/// A lowercase hexadecimal digit.
pub open spec fn hex_digit(n: u32) -> char {
    hex_digits()[n as int]
}

/// A character as a JSON string writes it: `"` and `\` escaped, the control
/// characters below U+0020 as `\b`, `\t`, `\n`, `\f`, `\r` or `\u00XX`,
/// every other character as it is.
pub open spec fn escape_char(c: char) -> Seq<char> {
    let v = c as u32;
    if c == '"' {
        seq!['\\', '"']
    } else if c == '\\' {
        seq!['\\', '\\']
    } else if v == 0x08 {
        seq!['\\', 'b']
    } else if v == 0x09 {
        seq!['\\', 't']
    } else if v == 0x0A {
        seq!['\\', 'n']
    } else if v == 0x0C {
        seq!['\\', 'f']
    } else if v == 0x0D {
        seq!['\\', 'r']
    } else if v < 0x20 {
        seq!['\\', 'u', '0', '0', hex_digit(v / 16), hex_digit(v % 16)]
    } else {
        seq![c]
    }
}

/// The characters of a JSON string's contents.
pub open spec fn escaped(s: Seq<char>) -> Seq<char>
    decreases s.len(),
{
    if s.len() == 0 {
        Seq::empty()
    } else {
        escaped(s.drop_last()) + escape_char(s.last())
    }
}

/// A JSON string literal.
pub open spec fn quoted(s: Seq<char>) -> Seq<char> {
    seq!['"'] + escaped(s) + seq!['"']
}

/// The compact JSON text of a value, as `serde_json` writes it: no
/// whitespace, members in the object's order.
pub open spec fn json_text(v: JsonValue) -> Seq<char>
    decreases v, 0nat,
{
    match v {
        JsonValue::Null => seq!['n', 'u', 'l', 'l'],
        JsonValue::Bool(b) => if b {
            seq!['t', 'r', 'u', 'e']
        } else {
            seq!['f', 'a', 'l', 's', 'e']
        },
        JsonValue::Number(n) => n@,
        JsonValue::String(s) => quoted(s@),
        JsonValue::Array(items) => seq!['['] + items_text(items@, items@.len()) + seq![']'],
        JsonValue::Object(members) => seq!['{'] + members_text(members@, members@.len()) + seq![
            '}',
        ],
    }
}

/// The texts of the first `n` items of an array, separated by commas.
pub open spec fn items_text(items: Seq<JsonValue>, n: nat) -> Seq<char>
    decreases items, n,
{
    if n == 0 || n > items.len() {
        Seq::empty()
    } else if n == 1 {
        json_text(items[0])
    } else {
        items_text(items, (n - 1) as nat) + seq![','] + json_text(items[n - 1])
    }
}

/// The texts of the first `n` members of an object, each `"key":value`,
/// separated by commas.
pub open spec fn members_text(members: Seq<(String, JsonValue)>, n: nat) -> Seq<char>
    decreases members, n,
{
    if n == 0 || n > members.len() {
        Seq::empty()
    } else if n == 1 {
        quoted(members[0].0@) + seq![':'] + json_text(members[0].1)
    } else {
        members_text(members, (n - 1) as nat) + seq![','] + quoted(members[n - 1].0@) + seq![':']
            + json_text(members[n - 1].1)
    }
}


fn hex_digit_char(n: u32) -> (r: char)
    requires
        n < 16,
    ensures
        r == hex_digit(n),
{
    let digits: [char; 16] = [
        '0', '1', '2', '3', '4', '5', '6', '7', '8', '9', 'a', 'b', 'c', 'd', 'e', 'f',
    ];
    assert(digits@ =~= hex_digits());
    digits[n as usize]
}

fn push_chars(out: &mut Vec<char>, s: &str)
    ensures
        final(out)@ == old(out)@ + s@,
{
    let chars = chars_of(s);
    let mut i: usize = 0;
    while i < chars.len()
        invariant
            i <= chars.len(),
            chars@ == s@,
            out@ == old(out)@ + chars@.take(i as int),
        decreases chars.len() - i,
    {
        assert(chars@.take(i + 1) =~= chars@.take(i as int).push(chars@[i as int]));
        out.push(chars[i]);
        i += 1;
    }
    assert(chars@.take(chars.len() as int) =~= chars@);
}

fn push_escape_char(out: &mut Vec<char>, c: char)
    ensures
        final(out)@ == old(out)@ + escape_char(c),
{
    let ghost start = out@;
    let v: u32 = c as u32;
    if c == '"' {
        out.push('\\');
        out.push('"');
    } else if c == '\\' {
        out.push('\\');
        out.push('\\');
    } else if v == 0x08 {
        out.push('\\');
        out.push('b');
    } else if v == 0x09 {
        out.push('\\');
        out.push('t');
    } else if v == 0x0A {
        out.push('\\');
        out.push('n');
    } else if v == 0x0C {
        out.push('\\');
        out.push('f');
    } else if v == 0x0D {
        out.push('\\');
        out.push('r');
    } else if v < 0x20 {
        out.push('\\');
        out.push('u');
        out.push('0');
        out.push('0');
        out.push(hex_digit_char(v / 16));
        out.push(hex_digit_char(v % 16));
    } else {
        out.push(c);
    }
    assert(out@ =~= start + escape_char(c));
}

fn push_quoted(out: &mut Vec<char>, s: &String)
    ensures
        final(out)@ == old(out)@ + quoted(s@),
{
    let ghost start = out@;
    let chars = chars_of(s.as_str());
    out.push('"');
    let mut i: usize = 0;
    while i < chars.len()
        invariant
            i <= chars.len(),
            chars@ == s@,
            out@ == start + seq!['"'] + escaped(chars@.take(i as int)),
        decreases chars.len() - i,
    {
        assert(chars@.take(i + 1).drop_last() =~= chars@.take(i as int));
        push_escape_char(out, chars[i]);
        i += 1;
        assert(out@ =~= start + seq!['"'] + escaped(chars@.take(i as int)));
    }
    assert(chars@.take(chars.len() as int) =~= chars@);
    out.push('"');
    assert(out@ =~= start + quoted(s@));
}

/// Appends the compact JSON text of `v` to `out`.
fn push_json_text(out: &mut Vec<char>, v: &JsonValue)
    ensures
        final(out)@ == old(out)@ + json_text(*v),
    decreases v,
{
    let ghost start = out@;
    match v {
        JsonValue::Null => {
            push_chars(out, "null");
            proof {
                reveal_strlit("null");
                assert(out@ =~= start + json_text(*v));
            }
        },
        JsonValue::Bool(b) => {
            if *b {
                push_chars(out, "true");
                proof {
                    reveal_strlit("true");
                    assert(out@ =~= start + json_text(*v));
                }
            } else {
                push_chars(out, "false");
                proof {
                    reveal_strlit("false");
                    assert(out@ =~= start + json_text(*v));
                }
            }
        },
        JsonValue::Number(n) => {
            push_chars(out, n.as_str());
        },
        JsonValue::String(s) => {
            push_quoted(out, s);
        },
        JsonValue::Array(items) => {
            out.push('[');
            let mut i: usize = 0;
            while i < items.len()
                invariant
                    i <= items.len(),
                    *v == JsonValue::Array(*items),
                    out@ == start + seq!['['] + items_text(items@, i as nat),
                decreases items.len() - i,
            {
                let ghost before = out@;
                if i > 0 {
                    out.push(',');
                }
                assert(decreases_to!(*v => (*v)->Array_0));
                push_json_text(out, &items[i]);
                i += 1;
                assert(out@ =~= start + seq!['['] + items_text(items@, i as nat));
            }
            out.push(']');
            assert(out@ =~= start + json_text(*v));
        },
        JsonValue::Object(members) => {
            out.push('{');
            let mut i: usize = 0;
            while i < members.len()
                invariant
                    i <= members.len(),
                    *v == JsonValue::Object(*members),
                    out@ == start + seq!['{'] + members_text(members@, i as nat),
                decreases members.len() - i,
            {
                if i > 0 {
                    out.push(',');
                }
                push_quoted(out, &members[i].0);
                out.push(':');
                assert(decreases_to!(*v => (*v)->Object_0));
                assert(decreases_to!(members@[i as int] => members@[i as int].1));
                push_json_text(out, &members[i].1);
                i += 1;
                assert(out@ =~= start + seq!['{'] + members_text(members@, i as nat));
            }
            out.push('}');
            assert(out@ =~= start + json_text(*v));
        },
    }
}

/// The compact JSON text of `v`, as `serde_json::to_string` writes it.
pub fn json_text_of(v: &JsonValue) -> (r: Vec<char>)
    ensures
        r@ == json_text(*v),
{
    let mut out: Vec<char> = Vec::new();
    push_json_text(&mut out, v);
    assert(out@ =~= json_text(*v));
    out
}


/// The Unicode lowercase mapping of a text, as `str::to_lowercase` applies it.
pub uninterp spec fn lowercase(s: Seq<char>) -> Seq<char>;

/// Calls `str::to_lowercase`; the result is named `lowercase` of the text,
/// whose mapping (the Unicode case tables and the rule for a final sigma)
/// is not written out here.
#[verifier::external_body]
fn to_lowercase(s: &str) -> (r: String)
    ensures
        r@ == lowercase(s@),
{
    s.to_lowercase()
}

/// Calls `String::from_iter` on the characters: the string of exactly those
/// characters, in order.
#[verifier::external_body]
fn string_from_chars(chars: &Vec<char>) -> (r: String)
    ensures
        r@ == chars@,
{
    String::from_iter(chars.iter())
}

/// `needle` occurs in `hay` as a run of consecutive characters.
pub open spec fn contains_chars(hay: Seq<char>, needle: Seq<char>) -> bool {
    exists|i: int|
        0 <= i && i + needle.len() <= hay.len() && #[trigger] hay.subrange(i, i + needle.len())
            == needle
}

/// Whether `needle` occurs in `hay`, as `str::contains` finds a string.
fn chars_contain(hay: &Vec<char>, needle: &Vec<char>) -> (r: bool)
    ensures
        r == contains_chars(hay@, needle@),
{
    let n = needle.len();
    if n > hay.len() {
        return false;
    }
    let mut i: usize = 0;
    while i <= hay.len() - n
        invariant
            n == needle.len(),
            n <= hay.len(),
            i <= hay.len() - n + 1,
            forall|j: int| 0 <= j < i ==> #[trigger] hay@.subrange(j, j + n) != needle@,
        decreases hay.len() - n + 1 - i,
    {
        let mut k: usize = 0;
        while k < n && hay[i + k] == needle[k]
            invariant
                n == needle.len(),
                i + n <= hay.len(),
                k <= n,
                forall|t: int| 0 <= t < k ==> hay@[i + t] == needle@[t],
            decreases n - k,
        {
            k += 1;
        }
        if k == n {
            assert(hay@.subrange(i as int, i + n) =~= needle@);
            return true;
        }
        assert(hay@.subrange(i as int, i + n)[k as int] != needle@[k as int]);
        i += 1;
    }
    assert forall|j: int| 0 <= j && j + n <= hay@.len() implies #[trigger] hay@.subrange(
        j,
        j + n,
    ) != needle@ by {
        assert(j < i);
    }
    false
}

/// The text by which a member's value is searched: its text if it is a
/// string, its compact JSON text otherwise, lowercased.
pub open spec fn key_text(v: JsonValue) -> Seq<char> {
    lowercase(
        match v {
            JsonValue::String(s) => s@,
            _ => json_text(v),
        },
    )
}

fn key_text_chars(v: &JsonValue) -> (r: Vec<char>)
    ensures
        r@ == key_text(*v),
{
    match v {
        JsonValue::String(s) => chars_of(to_lowercase(s.as_str()).as_str()),
        _ => {
            let text = string_from_chars(&json_text_of(v));
            chars_of(to_lowercase(text.as_str()).as_str())
        },
    }
}

/// What a navigator walks: the items of a top-level array, or one value.
pub enum Data {
    Vec(Vec<JsonValue>),
    Value(JsonValue),
}

/// A cursor over a JSON document: over the items of a top-level array, or
/// over the one value of any other document.
pub struct Navigator {
    data: Data,
    index: usize,
}

/// A position is one of the array's items (or 0 for an empty array), and
/// always 0 for a single value.
pub open spec fn valid_position(data: Data, index: usize) -> bool {
    match data {
        Data::Vec(v) => index == 0 || index < v.len(),
        Data::Value(_) => index == 0,
    }
}

/// The value at a position: the item there, or the single value.
pub open spec fn current_of(data: Data, index: usize) -> Option<JsonValue> {
    match data {
        Data::Vec(v) => if index < v.len() {
            Some(v@[index as int])
        } else {
            None
        },
        Data::Value(x) => Some(x),
    }
}

/// The value a reference points to, if any.
pub open spec fn opt_val(r: Option<&JsonValue>) -> Option<JsonValue> {
    match r {
        Some(x) => Some(*x),
        None => None,
    }
}

/// The position after a step forward: the next item, where there is one.
pub open spec fn next_index(data: Data, index: usize) -> usize {
    match data {
        Data::Vec(v) => if index + 1 < v.len() {
            (index + 1) as usize
        } else {
            index
        },
        Data::Value(_) => index,
    }
}

/// The position after a step back: the previous item, where there is one.
pub open spec fn prev_index(index: usize) -> usize {
    if index > 0 {
        (index - 1) as usize
    } else {
        index
    }
}

/// The text of a string-valued member `key`, if there is one.
pub open spec fn string_member(item: JsonValue, key: Seq<char>) -> Option<Seq<char>> {
    match json_get(item, key) {
        Some(v) => json_str(v),
        None => None,
    }
}

/// The first item whose member `key` is the string `val`.
pub open spec fn first_with_string(items: Seq<JsonValue>, key: Seq<char>, val: Seq<char>) -> Option<
    JsonValue,
>
    decreases items.len(),
{
    if items.len() == 0 {
        None
    } else if string_member(items[0], key) == Some(val) {
        Some(items[0])
    } else {
        first_with_string(items.drop_first(), key, val)
    }
}

/// The query as plain text.
pub open spec fn query_model(query: Option<&str>) -> Option<Seq<char>> {
    match query {
        Some(q) => Some(q@),
        None => None,
    }
}

/// An item is selected by a search that is not exact: it has the member
/// `key`, and the lowercased query, if any, occurs in that member's text.
pub open spec fn selects(item: JsonValue, key: Seq<char>, query: Option<Seq<char>>) -> bool {
    match json_get(item, key) {
        Some(val) => match query {
            Some(q) => contains_chars(key_text(val), lowercase(q)),
            None => true,
        },
        None => false,
    }
}

/// The items that a search that is not exact selects, in order.
pub open spec fn selected(items: Seq<JsonValue>, key: Seq<char>, query: Option<Seq<char>>) -> Seq<
    JsonValue,
>
    decreases items.len(),
{
    if items.len() == 0 {
        Seq::empty()
    } else {
        let rest = selected(items.drop_last(), key, query);
        if selects(items.last(), key, query) {
            rest.push(items.last())
        } else {
            rest
        }
    }
}

/// An item is an exact hit: its member `key`'s text, lowercased, is the
/// lowercased query.
pub open spec fn exact_hit(item: JsonValue, key: Seq<char>, q: Seq<char>) -> bool {
    match json_get(item, key) {
        Some(val) => key_text(val) == lowercase(q),
        None => false,
    }
}

/// The first exact hit.
pub open spec fn first_exact(items: Seq<JsonValue>, key: Seq<char>, q: Seq<char>) -> Option<
    JsonValue,
>
    decreases items.len(),
{
    if items.len() == 0 {
        None
    } else if exact_hit(items[0], key, q) {
        Some(items[0])
    } else {
        first_exact(items.drop_first(), key, q)
    }
}

/// The string values of the members `key` of the items, skipping items
/// whose member is missing or not a string.
pub open spec fn string_values(items: Seq<JsonValue>, key: Seq<char>) -> Seq<Seq<char>>
    decreases items.len(),
{
    if items.len() == 0 {
        Seq::empty()
    } else {
        let rest = string_values(items.drop_last(), key);
        match string_member(items.last(), key) {
            Some(s) => rest.push(s),
            None => rest,
        }
    }
}

/// The outcome of a search, as plain values.
pub enum MatchModel {
    SingleExact(JsonValue),
    Single(JsonValue),
    Keys(Seq<Seq<char>>),
    All(Seq<JsonValue>),
    NoMatch,
}

/// The outcome of a search.
pub enum MatchResult<'a> {
    SingleExact(&'a JsonValue),
    Single(&'a JsonValue),
    Keys(Vec<String>),
    All(Vec<&'a JsonValue>),
    NoMatch,
}

/// The values that references point to.
pub open spec fn derefs(s: Seq<&JsonValue>) -> Seq<JsonValue> {
    s.map_values(|x: &JsonValue| *x)
}

/// The outcome of a search, as plain values.
pub open spec fn match_model(r: MatchResult) -> MatchModel {
    match r {
        MatchResult::SingleExact(x) => MatchModel::SingleExact(*x),
        MatchResult::Single(x) => MatchModel::Single(*x),
        MatchResult::Keys(ks) => MatchModel::Keys(ks@.map_values(|k: String| k@)),
        MatchResult::All(xs) => MatchModel::All(derefs(xs@)),
        MatchResult::NoMatch => MatchModel::NoMatch,
    }
}

/// The outcome for the matched items: none, the single one, all of them
/// where asked for, or else the string values of their members `key`.
pub open spec fn outcome_of(matches: Seq<JsonValue>, key: Seq<char>, return_all: bool) -> MatchModel {
    if matches.len() == 0 {
        MatchModel::NoMatch
    } else if matches.len() == 1 {
        MatchModel::Single(matches[0])
    } else if return_all {
        MatchModel::All(matches)
    } else {
        MatchModel::Keys(string_values(matches, key))
    }
}

/// The outcome of a search: over an array, an exact search for a query
/// gives its first exact hit, and any other search gives the outcome for
/// the selected items; over a single value, the value of its member `key`.
pub open spec fn search_outcome(
    data: Data,
    key: Seq<char>,
    query: Option<Seq<char>>,
    return_all: bool,
    exact: bool,
) -> MatchModel {
    match data {
        Data::Vec(items) => if exact && query is Some {
            match first_exact(items@, key, query->0) {
                Some(x) => MatchModel::SingleExact(x),
                None => MatchModel::NoMatch,
            }
        } else {
            outcome_of(selected(items@, key, query), key, return_all)
        },
        Data::Value(v) => match json_get(v, key) {
            Some(x) => MatchModel::Single(x),
            None => MatchModel::NoMatch,
        },
    }
}

impl Navigator {
    #[verifier::type_invariant]
    spec fn position_is_valid(self) -> bool {
        valid_position(self.data, self.index)
    }

    /// The document the navigator walks.
    pub closed spec fn spec_data(self) -> Data {
        self.data
    }

    /// The navigator's position.
    pub closed spec fn spec_index(self) -> usize {
        self.index
    }

    /// A navigator at the start of a parsed document: over its items if it
    /// is an array, over the document itself otherwise.
    pub fn new(parsed: JsonValue) -> (r: Navigator)
        ensures
            r.spec_data() == (match parsed {
                JsonValue::Array(items) => Data::Vec(items),
                other => Data::Value(other),
            }),
            r.spec_index() == 0,
    {
        let data = match parsed {
            JsonValue::Array(arr) => Data::Vec(arr),
            other => Data::Value(other),
        };
        Navigator { data, index: 0 }
    }

    /// Whether the navigator walks the items of an array (rather than one value).
    pub fn is_array(&self) -> (r: bool)
        ensures
            r == (self.spec_data() is Vec),
    {
        match &self.data {
            Data::Vec(_) => true,
            Data::Value(_) => false,
        }
    }

    /// The number of items, or 1 for a single value.
    pub fn len(&self) -> (r: usize)
        ensures
            r == (match self.spec_data() {
                Data::Vec(v) => v.len(),
                Data::Value(_) => 1,
            }),
    {
        match &self.data {
            Data::Vec(vec) => vec.len(),
            Data::Value(_) => 1,
        }
    }

    /// The value at the current position.
    pub fn current(&self) -> (r: Option<&JsonValue>)
        ensures
            opt_val(r) == current_of(self.spec_data(), self.spec_index()),
            valid_position(self.spec_data(), self.spec_index()),
    {
        proof {
            use_type_invariant(self);
        }
        match &self.data {
            Data::Vec(vec) => if self.index < vec.len() {
                Some(&vec[self.index])
            } else {
                None
            },
            Data::Value(val) => Some(val),
        }
    }

    /// Steps to the next item, where there is one, and gives the value at
    /// the position then; a single value has no next one.
    pub fn next(&mut self) -> (r: Option<&JsonValue>)
        ensures
            final(self).spec_data() == old(self).spec_data(),
            final(self).spec_index() == next_index(old(self).spec_data(), old(self).spec_index()),
            valid_position(final(self).spec_data(), final(self).spec_index()),
            opt_val(r) == (match old(self).spec_data() {
                Data::Vec(_) => current_of(final(self).spec_data(), final(self).spec_index()),
                Data::Value(_) => None,
            }),
    {
        proof {
            use_type_invariant(&*self);
        }
        let moved = match &self.data {
            Data::Vec(vec) => {
                if self.index + 1 < vec.len() {
                    Some(self.index + 1)
                } else {
                    Some(self.index)
                }
            },
            Data::Value(_) => None,
        };
        match moved {
            Some(i) => {
                self.index = i;
                self.current()
            },
            None => None,
        }
    }

    /// Steps back to the previous item, where there is one, and gives the
    /// value at the position then.
    pub fn prev(&mut self) -> (r: Option<&JsonValue>)
        ensures
            final(self).spec_data() == old(self).spec_data(),
            final(self).spec_index() == prev_index(old(self).spec_index()),
            valid_position(final(self).spec_data(), final(self).spec_index()),
            opt_val(r) == current_of(final(self).spec_data(), final(self).spec_index()),
    {
        proof {
            use_type_invariant(&*self);
        }
        if self.index > 0 {
            self.index = self.index - 1;
        }
        self.current()
    }

    /// Moves to item `idx` and gives it, where there is such an item;
    /// otherwise stays and gives nothing.
    pub fn jump_to(&mut self, idx: usize) -> (r: Option<&JsonValue>)
        ensures
            final(self).spec_data() == old(self).spec_data(),
            valid_position(final(self).spec_data(), final(self).spec_index()),
            match old(self).spec_data() {
                Data::Vec(v) => if idx < v.len() {
                    final(self).spec_index() == idx && opt_val(r) == Some(v@[idx as int])
                } else {
                    final(self).spec_index() == old(self).spec_index() && r is None
                },
                Data::Value(_) => final(self).spec_index() == old(self).spec_index() && r is None,
            },
    {
        proof {
            use_type_invariant(&*self);
        }
        let in_range = match &self.data {
            Data::Vec(vec) => idx < vec.len(),
            Data::Value(_) => false,
        };
        if in_range {
            self.index = idx;
            self.current()
        } else {
            None
        }
    }

    /// The first item whose member `key` is the string `val`; a single
    /// value has no items.
    pub fn find_by_key_value(&self, key: &str, val: &str) -> (r: Option<&JsonValue>)
        ensures
            opt_val(r) == (match self.spec_data() {
                Data::Vec(v) => first_with_string(v@, key@, val@),
                Data::Value(_) => None,
            }),
    {
        match &self.data {
            Data::Vec(vec) => find_string_member(vec, key, val),
            Data::Value(_) => None,
        }
    }

    /// The first item whose member `path[0]` is the string `target`, where
    /// the path has one step; a longer path looks into the member as a
    /// single value, which holds no items, so nothing is found; a single
    /// value has no items.
    pub fn find_nested(&self, path: &[&str], target: &str) -> (r: Option<&JsonValue>)
        requires
            (self.spec_data() matches Data::Vec(v) && v.len() > 0) ==> path.len() > 0,
        ensures
            opt_val(r) == (match self.spec_data() {
                Data::Vec(v) => if path.len() == 1 {
                    first_with_string(v@, path@[0]@, target@)
                } else {
                    None
                },
                Data::Value(_) => None,
            }),
    {
        match &self.data {
            Data::Vec(vec) => {
                if vec.len() == 0 {
                    return None;
                }
                if path.len() == 1 {
                    find_string_member(vec, path[0], target)
                } else {
                    None
                }
            },
            Data::Value(_) => None,
        }
    }

    /// Searches the items by their member `key`. With a query and `exact`,
    /// the first item whose member's text equals the query (ignoring case);
    /// otherwise the items that have the member and, with a query, whose
    /// member's text contains it (ignoring case): none, the single one, all
    /// where `return_all`, or else the string values of their members. Over
    /// a single value, its member `key`.
    pub fn find_by_key_value_adv(
        &self,
        key: &str,
        query: Option<&str>,
        return_all: bool,
        exact: bool,
    ) -> (r: MatchResult<'_>)
        requires
            self.spec_data() matches Data::Value(v) ==> json_get(v, key@) is Some,
        ensures
            match_model(r) == search_outcome(
                self.spec_data(),
                key@,
                query_model(query),
                return_all,
                exact,
            ),
    {
        match &self.data {
            Data::Vec(vec) => search_items(vec, key, query, return_all, exact),
            Data::Value(val) => match get(val, key) {
                Some(m) => MatchResult::Single(m),
                None => MatchResult::NoMatch,
            },
        }
    }
}

/// The first item of `items` whose member `key` is the string `val`.
fn find_string_member<'a>(items: &'a Vec<JsonValue>, key: &str, val: &str) -> (r: Option<
    &'a JsonValue,
>)
    ensures
        opt_val(r) == first_with_string(items@, key@, val@),
{
    let wanted = val.to_owned();
    let mut i: usize = 0;
    assert(items@.skip(0) =~= items@);
    while i < items.len()
        invariant
            i <= items.len(),
            wanted@ == val@,
            first_with_string(items@, key@, val@) == first_with_string(
                items@.skip(i as int),
                key@,
                val@,
            ),
        decreases items.len() - i,
    {
        assert(items@.skip(i as int).drop_first() =~= items@.skip(i + 1));
        assert(items@.skip(i as int)[0] == items@[i as int]);
        if let Some(v) = get(&items[i], key) {
            if let JsonValue::String(s) = v {
                if *s == wanted {
                    return Some(&items[i]);
                }
            }
        }
        i += 1;
    }
    None
}

/// The string values of the members `key` of the matched items.
fn string_values_of(matches: &Vec<&JsonValue>, key: &str) -> (r: Vec<String>)
    ensures
        r@.map_values(|k: String| k@) == string_values(derefs(matches@), key@),
{
    let mut out: Vec<String> = Vec::new();
    let mut i: usize = 0;
    while i < matches.len()
        invariant
            i <= matches.len(),
            out@.map_values(|k: String| k@) == string_values(derefs(matches@).take(i as int), key@),
        decreases matches.len() - i,
    {
        let ghost before = out@;
        assert(derefs(matches@).take(i + 1).drop_last() =~= derefs(matches@).take(i as int));
        assert(derefs(matches@).take(i + 1).last() == *matches@[i as int]);
        if let Some(v) = get(matches[i], key) {
            if let JsonValue::String(s) = v {
                out.push(s.clone());
                assert(out@.map_values(|k: String| k@) =~= before.map_values(|k: String| k@).push(
                    s@,
                ));
            }
        }
        i += 1;
    }
    assert(derefs(matches@).take(matches.len() as int) =~= derefs(matches@));
    out
}

/// The search over the items of an array.
fn search_items<'a>(
    items: &'a Vec<JsonValue>,
    key: &str,
    query: Option<&str>,
    return_all: bool,
    exact: bool,
) -> (r: MatchResult<'a>)
    ensures
        match_model(r) == search_outcome(
            Data::Vec(*items),
            key@,
            query_model(query),
            return_all,
            exact,
        ),
{
    let ghost qm = query_model(query);
    let q_lower: Option<Vec<char>> = match query {
        Some(q) => Some(chars_of(to_lowercase(q).as_str())),
        None => None,
    };
    let exact_search = exact && q_lower.is_some();
    let mut matches: Vec<&JsonValue> = Vec::new();
    let mut i: usize = 0;
    assert(items@.skip(0) =~= items@);
    while i < items.len()
        invariant
            i <= items.len(),
            qm == query_model(query),
            exact_search == (exact && qm is Some),
            q_lower matches Some(ql) ==> qm matches Some(q) && ql@ == lowercase(q),
            q_lower is None ==> qm is None,
            exact_search ==> matches.len() == 0,
            exact_search ==> first_exact(items@, key@, qm->0) == first_exact(
                items@.skip(i as int),
                key@,
                qm->0,
            ),
            !exact_search ==> derefs(matches@) == selected(items@.take(i as int), key@, qm),
        decreases items.len() - i,
    {
        let ghost before = matches@;
        assert(items@.take(i + 1).drop_last() =~= items@.take(i as int));
        assert(items@.skip(i as int).drop_first() =~= items@.skip(i + 1));
        assert(items@.skip(i as int)[0] == items@[i as int]);
        let item = &items[i];
        match get(item, key) {
            Some(val) => {
                match &q_lower {
                    Some(ql) => {
                        let text = key_text_chars(val);
                        if exact {
                            if chars_equal(&text, ql) {
                                proof {
                                    let q = qm->0;
                                    assert(json_get(*item, key@) == Some(*val));
                                    assert(exact_hit(items@.skip(i as int)[0], key@, q));
                                    assert(first_exact(items@.skip(i as int), key@, q) == Some(
                                        *item,
                                    ));
                                    assert(first_exact(items@, key@, q) == Some(*item));
                                }
                                return MatchResult::SingleExact(item);
                            }
                        } else if chars_contain(&text, ql) {
                            matches.push(item);
                        }
                    },
                    None => {
                        matches.push(item);
                    },
                }
            },
            None => {},
        }
        proof {
            if !exact_search {
                assert(derefs(matches@) =~= selected(items@.take(i + 1), key@, qm));
            }
        }
        i += 1;
    }
    assert(items@.take(items.len() as int) =~= items@);
    if exact_search {
        assert(items@.skip(items.len() as int) =~= Seq::<JsonValue>::empty());
    }
    let n = matches.len();
    if n == 0 {
        MatchResult::NoMatch
    } else if n == 1 {
        MatchResult::Single(matches[0])
    } else if return_all {
        MatchResult::All(matches)
    } else {
        MatchResult::Keys(string_values_of(&matches, key))
    }
}

/// A step forward and then a step back return to an item that had a next one.
pub proof fn law_next_then_prev(data: Data, index: usize)
    requires
        data matches Data::Vec(v) && index + 1 < v.len(),
    ensures
        prev_index(next_index(data, index)) == index,
{
}

/// At a valid position, an array with items always shows one of them, and
/// a single value is always shown.
pub proof fn law_current_present(data: Data, index: usize)
    requires
        valid_position(data, index),
        data matches Data::Vec(v) ==> v.len() > 0,
    ensures
        current_of(data, index) is Some,
{
}

/// Stepping keeps a navigator at a valid position.
pub proof fn law_steps_keep_position_valid(data: Data, index: usize)
    requires
        valid_position(data, index),
    ensures
        valid_position(data, next_index(data, index)),
        valid_position(data, prev_index(index)),
{
}

/// The items a search that is not exact selects, as a predicate.
pub open spec fn selects_pred(key: Seq<char>, query: Option<Seq<char>>) -> spec_fn(JsonValue) -> bool {
    |x: JsonValue| selects(x, key, query)
}

/// An item has a string-valued member `key`.
pub open spec fn has_string_member(key: Seq<char>) -> spec_fn(JsonValue) -> bool {
    |x: JsonValue| string_member(x, key) is Some
}

/// The text of an item's string-valued member `key`.
pub open spec fn string_member_text(key: Seq<char>) -> spec_fn(JsonValue) -> Seq<char> {
    |x: JsonValue| string_member(x, key)->0
}

proof fn lemma_selected_is_filter(items: Seq<JsonValue>, key: Seq<char>, query: Option<Seq<char>>)
    ensures
        selected(items, key, query) == items.filter(selects_pred(key, query)),
    decreases items.len(),
{
    reveal(Seq::filter);
    if items.len() > 0 {
        lemma_selected_is_filter(items.drop_last(), key, query);
    }
}

proof fn lemma_string_values_is_filter_map(items: Seq<JsonValue>, key: Seq<char>)
    ensures
        string_values(items, key) == items.filter(has_string_member(key)).map_values(
            string_member_text(key),
        ),
    decreases items.len(),
{
    reveal(Seq::filter);
    if items.len() > 0 {
        lemma_string_values_is_filter_map(items.drop_last(), key);
        let rest = items.drop_last().filter(has_string_member(key));
        if string_member(items.last(), key) is Some {
            assert(rest.push(items.last()).map_values(string_member_text(key)) =~= rest.map_values(
                string_member_text(key),
            ).push(string_member(items.last(), key)->0));
        }
    }
}

proof fn lemma_first_exact_at(items: Seq<JsonValue>, key: Seq<char>, q: Seq<char>, i: int)
    requires
        0 <= i < items.len(),
        exact_hit(items[i], key, q),
        forall|k: int| 0 <= k < i ==> !exact_hit(items[k], key, q),
    ensures
        first_exact(items, key, q) == Some(items[i]),
    decreases i,
{
    if i > 0 {
        assert forall|k: int| 0 <= k < i - 1 implies !exact_hit(items.drop_first()[k], key, q) by {
            assert(items.drop_first()[k] == items[k + 1]);
        }
        lemma_first_exact_at(items.drop_first(), key, q, i - 1);
    }
}

proof fn lemma_first_exact_none(items: Seq<JsonValue>, key: Seq<char>, q: Seq<char>)
    requires
        forall|k: int| 0 <= k < items.len() ==> !exact_hit(items[k], key, q),
    ensures
        first_exact(items, key, q) is None,
    decreases items.len(),
{
    if items.len() > 0 {
        assert forall|k: int| 0 <= k < items.len() - 1 implies !exact_hit(
            items.drop_first()[k],
            key,
            q,
        ) by {
            assert(items.drop_first()[k] == items[k + 1]);
        }
        lemma_first_exact_none(items.drop_first(), key, q);
    }
}

/// An exact search over an array gives the first item, wherever it stands,
/// whose member `key` equals the query ignoring case.
pub proof fn law_exact_search_gives_first_hit(
    items: Vec<JsonValue>,
    key: Seq<char>,
    q: Seq<char>,
    return_all: bool,
    i: int,
)
    requires
        0 <= i < items.len(),
        json_get(items@[i], key) matches Some(val) && key_text(val) == lowercase(q),
        forall|k: int| 0 <= k < i ==> !exact_hit(items@[k], key, q),
    ensures
        search_outcome(Data::Vec(items), key, Some(q), return_all, true) == MatchModel::SingleExact(
            items@[i],
        ),
{
    lemma_first_exact_at(items@, key, q, i);
}

/// An exact search over an array with no exact hit anywhere gives nothing.
pub proof fn law_exact_search_without_hit(
    items: Vec<JsonValue>,
    key: Seq<char>,
    q: Seq<char>,
    return_all: bool,
)
    requires
        forall|k: int| 0 <= k < items.len() ==> !exact_hit(items@[k], key, q),
    ensures
        search_outcome(Data::Vec(items), key, Some(q), return_all, true) == MatchModel::NoMatch,
{
    lemma_first_exact_none(items@, key, q);
}

/// A search that is not exact considers every item of the array: the
/// matched items are all those it selects, in order (the whole array
/// filtered), and the outcome is none, the single one, all of them where
/// asked for, or else the string values of their members `key`.
pub proof fn law_search_selects_every_item(
    items: Vec<JsonValue>,
    key: Seq<char>,
    query: Option<Seq<char>>,
    return_all: bool,
    exact: bool,
)
    requires
        !(exact && query is Some),
    ensures
        ({
            let f = items@.filter(selects_pred(key, query));
            let outcome = search_outcome(Data::Vec(items), key, query, return_all, exact);
            &&& f.len() == 0 ==> outcome == MatchModel::NoMatch
            &&& f.len() == 1 ==> outcome == MatchModel::Single(f[0])
            &&& f.len() >= 2 && return_all ==> outcome == MatchModel::All(f)
            &&& f.len() >= 2 && !return_all ==> outcome == MatchModel::Keys(
                f.filter(has_string_member(key)).map_values(string_member_text(key)),
            )
        }),
{
    lemma_selected_is_filter(items@, key, query);
    let f = items@.filter(selects_pred(key, query));
    lemma_string_values_is_filter_map(f, key);
}

/// Every item that a search that is not exact selects is among its matches,
/// and every match is one it selects.
pub proof fn law_search_keeps_selected(
    items: Seq<JsonValue>,
    key: Seq<char>,
    query: Option<Seq<char>>,
    i: int,
)
    requires
        0 <= i < items.len(),
        selects(items[i], key, query),
    ensures
        selected(items, key, query).contains(items[i]),
        forall|j: int|
            0 <= j < selected(items, key, query).len() ==> selects(
                #[trigger] selected(items, key, query)[j],
                key,
                query,
            ),
{
    lemma_selected_is_filter(items, key, query);
    items.filter_lemma(selects_pred(key, query));
}

/// The first item whose member `key` is the string `val` is the one at the
/// smallest position with that member, wherever it stands.
pub proof fn law_first_with_string_is_first(
    items: Seq<JsonValue>,
    key: Seq<char>,
    val: Seq<char>,
    i: int,
)
    requires
        0 <= i < items.len(),
        string_member(items[i], key) == Some(val),
        forall|k: int| 0 <= k < i ==> string_member(items[k], key) != Some(val),
    ensures
        first_with_string(items, key, val) == Some(items[i]),
    decreases i,
{
    if i > 0 {
        assert forall|k: int| 0 <= k < i - 1 implies string_member(items.drop_first()[k], key)
            != Some(val) by {
            assert(items.drop_first()[k] == items[k + 1]);
        }
        law_first_with_string_is_first(items.drop_first(), key, val, i - 1);
    }
}

/// Where no item has the member `key` equal to the string `val`, nothing
/// is found.
pub proof fn law_first_with_string_absent(items: Seq<JsonValue>, key: Seq<char>, val: Seq<char>)
    requires
        forall|k: int| 0 <= k < items.len() ==> string_member(items[k], key) != Some(val),
    ensures
        first_with_string(items, key, val) is None,
    decreases items.len(),
{
    if items.len() > 0 {
        assert forall|k: int| 0 <= k < items.len() - 1 implies string_member(
            items.drop_first()[k],
            key,
        ) != Some(val) by {
            assert(items.drop_first()[k] == items[k + 1]);
        }
        law_first_with_string_absent(items.drop_first(), key, val);
    }
}

} // verus!
