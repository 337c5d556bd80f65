//! Replacement messages: UTF-16 texts of bounded length that stand in for
//! a message of the game, each for a category and a message id.
use vstd::prelude::*;

use crate::categories::FmgCategories;
use crate::text::{all_bmp, encode_utf16, lemma_utf16_len_bmp, utf16_of};

verus! {

/// The most elements a limited list may be created with.
pub const LIMITED_LIST_MAX_LENGTH: usize = 0x257;

/// The message id of the "Wild Strikes" skill's caption.
pub const WILD_STRIKES_ID: u32 = 110;

/// A list created with at most `LIMITED_LIST_MAX_LENGTH` elements.
pub struct LimitedList<T>(Vec<T>);

impl<T> View for LimitedList<T> {
    type V = Seq<T>;

    closed spec fn view(&self) -> Seq<T> {
        self.0@
    }
}

impl<T> LimitedList<T> {
    /// A list of `items`, refused where it has more than
    /// `LIMITED_LIST_MAX_LENGTH` of them.
    pub fn new(items: Vec<T>) -> (r: Result<Self, String>)
        ensures
            items.len() <= LIMITED_LIST_MAX_LENGTH ==> (r matches Ok(l) && l@ == items@),
            items.len() > LIMITED_LIST_MAX_LENGTH ==> (r matches Err(e) && e@
                == "List length exceeds limit"@),
    {
        if items.len() > LIMITED_LIST_MAX_LENGTH {
            Err(String::from_str("List length exceeds limit"))
        } else {
            Ok(LimitedList(items))
        }
    }

    /// Appends `items`; the list may then exceed the limit it was created within.
    pub fn extend(&mut self, items: Vec<T>)
        ensures
            final(self)@ == old(self)@ + items@,
    {
        let mut items = items;
        self.0.append(&mut items);
    }

    /// The elements, in order.
    pub fn as_slice(&self) -> (r: &[T])
        ensures
            r@ == self@,
    {
        self.0.as_slice()
    }

    /// The elements, in order, to be written in place.
    pub fn as_mut_slice(&mut self) -> (r: &mut [T])
        ensures
            r@ == old(self)@,
            final(r)@ == final(self)@,
    {
        self.0.as_mut_slice()
    }

    /// The number of elements.
    pub fn len(&self) -> (r: usize)
        ensures
            r == self@.len(),
    {
        self.0.len()
    }
}

/// A message that replaces the game's message `id` of a category.
pub struct MessageReplacement {
    pub category: FmgCategories,
    pub id: u32,
    pub message: LimitedList<u16>,
}

/// The text of the replacement message.
pub open spec fn replacement_text_spec() -> Seq<char> {
    "00 01 02 03 04 05 06 07 08 09 0a 0b 0c 0d 0e 0f 10 11 12 13 14 15 16 17 18 19 1a 1b 1c 1d 1e 1f 20 21 22 23 24 25 26 27 28 29 2a 2b 2c 2d 2e 2f 30 31 32 33 34 35 36 37 38 39 3a 3b 3c 3d 3e 3f 40 41 42 43 44 45 46 47 48 49 4a 4b 4c 4d 4e 4f 50 51 52 53 54 55 56 57 58 59 5a 5b 5c 5d 5e 5f 60 61 62 63 64 65 66 67 68 69 6a 6b 6c 6d 6e 6f 70 71 72 73 74 75 76 77 78 79 7a 7b 7c 7d 7e 7f 80 81 82 83 84 85 86 87 88 89 8a 8b 8c 8d 8e 8f 90 91 92 93 94 95 96 97 98 99 9a 9b 9c 9d 9e 9f a0 a1 a2 a3 a4 a5 a6 a7 a8 a9 aa ab ac ad ae af b0 b1 b2 b3 b4 b5 b6 b7 b8 b9 ba bb bc bd be bf c0 c1 c2 c3 c4 c5 c6 c7"@
}

/// The text of the replacement message: the two-digit hexadecimal numbers
/// from 00 to c7, separated by spaces.
pub fn replacement_text() -> (r: &'static str)
    ensures
        r@ == replacement_text_spec(),
{
    "00 01 02 03 04 05 06 07 08 09 0a 0b 0c 0d 0e 0f 10 11 12 13 14 15 16 17 18 19 1a 1b 1c 1d 1e 1f 20 21 22 23 24 25 26 27 28 29 2a 2b 2c 2d 2e 2f 30 31 32 33 34 35 36 37 38 39 3a 3b 3c 3d 3e 3f 40 41 42 43 44 45 46 47 48 49 4a 4b 4c 4d 4e 4f 50 51 52 53 54 55 56 57 58 59 5a 5b 5c 5d 5e 5f 60 61 62 63 64 65 66 67 68 69 6a 6b 6c 6d 6e 6f 70 71 72 73 74 75 76 77 78 79 7a 7b 7c 7d 7e 7f 80 81 82 83 84 85 86 87 88 89 8a 8b 8c 8d 8e 8f 90 91 92 93 94 95 96 97 98 99 9a 9b 9c 9d 9e 9f a0 a1 a2 a3 a4 a5 a6 a7 a8 a9 aa ab ac ad ae af b0 b1 b2 b3 b4 b5 b6 b7 b8 b9 ba bb bc bd be bf c0 c1 c2 c3 c4 c5 c6 c7"
}

/// The replacement text is 599 characters of the Basic Multilingual Plane.
pub proof fn lemma_replacement_text()
    ensures
        replacement_text_spec().len() == LIMITED_LIST_MAX_LENGTH,
        all_bmp(replacement_text_spec()),
        utf16_of(replacement_text_spec()).len() == LIMITED_LIST_MAX_LENGTH,
{
    reveal_strlit("00 01 02 03 04 05 06 07 08 09 0a 0b 0c 0d 0e 0f 10 11 12 13 14 15 16 17 18 19 1a 1b 1c 1d 1e 1f 20 21 22 23 24 25 26 27 28 29 2a 2b 2c 2d 2e 2f 30 31 32 33 34 35 36 37 38 39 3a 3b 3c 3d 3e 3f 40 41 42 43 44 45 46 47 48 49 4a 4b 4c 4d 4e 4f 50 51 52 53 54 55 56 57 58 59 5a 5b 5c 5d 5e 5f 60 61 62 63 64 65 66 67 68 69 6a 6b 6c 6d 6e 6f 70 71 72 73 74 75 76 77 78 79 7a 7b 7c 7d 7e 7f 80 81 82 83 84 85 86 87 88 89 8a 8b 8c 8d 8e 8f 90 91 92 93 94 95 96 97 98 99 9a 9b 9c 9d 9e 9f a0 a1 a2 a3 a4 a5 a6 a7 a8 a9 aa ab ac ad ae af b0 b1 b2 b3 b4 b5 b6 b7 b8 b9 ba bb bc bd be bf c0 c1 c2 c3 c4 c5 c6 c7");
    lemma_utf16_len_bmp(replacement_text_spec());
}

/// The replacement message made of `buffer`.
pub fn replacement_message(buffer: Vec<u16>) -> (r: LimitedList<u16>)
    requires
        buffer.len() <= LIMITED_LIST_MAX_LENGTH,
    ensures
        r@ == buffer@,
{
    LimitedList::new(buffer).unwrap()
}

/// `replacements` with one more: the replacement text, UTF-16 encoded, for
/// message `id` of `category`.
pub fn create_replacement_message(
    replacements: Vec<MessageReplacement>,
    category: FmgCategories,
    id: u32,
) -> (r: Vec<MessageReplacement>)
    ensures
        r.len() == replacements.len() + 1,
        forall|i: int| 0 <= i < replacements.len() ==> r@[i] == replacements@[i],
        r@.last().category == category,
        r@.last().id == id,
        r@.last().message@ == utf16_of(replacement_text_spec()),
{
    let buffer = encode_utf16(replacement_text());
    proof {
        lemma_replacement_text();
    }
    let message = replacement_message(buffer);
    let mut replacements = replacements;
    replacements.push(MessageReplacement { category, id, message });
    replacements
}

/// The replacements the menu installs: the replacement text for the caption
/// of "Wild Strikes".
pub fn setup_message_replacements() -> (r: Vec<MessageReplacement>)
    ensures
        r.len() == 1,
        r@[0].category == FmgCategories::ArtsCaption,
        r@[0].id == WILD_STRIKES_ID,
        r@[0].message@ == utf16_of(replacement_text_spec()),
{
    create_replacement_message(Vec::new(), FmgCategories::ArtsCaption, WILD_STRIKES_ID)
}

} // verus!
