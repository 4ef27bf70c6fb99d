//! User input of one agent turn.
use crate::text;
use crate::text::{byte_len, is_blank};
use std::sync::Arc;
use vstd::prelude::*;
use vstd::string::*;

verus! {

/// Requested resolution of an image.
#[derive(Clone, Copy, Debug, PartialEq, Eq, Structural)]
pub enum ImageDetail {
    /// The provider chooses.
    Auto,
    /// Low resolution.
    Low,
    /// High resolution.
    High,
    /// The image as it is.
    Original,
}

/// One ordered user-supplied prompt item.
#[derive(Debug)]
pub enum UserInput {
    /// Plain text.
    Text {
        /// The text.
        text: String,
    },
    /// An image by its URL.
    Image {
        /// Where the image is.
        image_url: String,
        /// Requested resolution.
        detail: Option<ImageDetail>,
    },
    /// An image in a local file.
    LocalImage {
        /// The file's path.
        path: String,
        /// Requested resolution.
        detail: Option<ImageDetail>,
    },
    /// Audio by its URL.
    Audio {
        /// Where the audio is.
        audio_url: String,
    },
    /// Audio in a local file.
    LocalAudio {
        /// The file's path.
        path: String,
    },
}

impl Clone for UserInput {
    fn clone(&self) -> (r: Self)
        ensures
            r == *self,
    {
        match self {
            UserInput::Text { text } => UserInput::Text { text: text.clone() },
            UserInput::Image { image_url, detail } => UserInput::Image {
                image_url: image_url.clone(),
                detail: *detail,
            },
            UserInput::LocalImage { path, detail } => UserInput::LocalImage {
                path: path.clone(),
                detail: *detail,
            },
            UserInput::Audio { audio_url } => UserInput::Audio { audio_url: audio_url.clone() },
            UserInput::LocalAudio { path } => UserInput::LocalAudio { path: path.clone() },
        }
    }
}

impl UserInput {
    /// The text of an item; nothing for an item that is no text.
    pub open spec fn text_of(self) -> Seq<char> {
        match self {
            UserInput::Text { text } => text@,
            _ => Seq::empty(),
        }
    }

    /// Whether an item holds nothing: only a blank text does.
    pub open spec fn holds_nothing(self) -> bool {
        self is Text && text::blank(self.text_of())
    }

    /// Counts the UTF-8 bytes of the item's text.
    pub fn text_bytes(&self) -> (r: usize)
        ensures
            r == text::utf8_len(self.text_of()),
    {
        match self {
            UserInput::Text { text } => byte_len(text.as_str()),
            _ => 0,
        }
    }

    /// Counts the characters of the item's text.
    pub fn text_chars(&self) -> (r: usize)
        ensures
            r == self.text_of().len(),
    {
        match self {
            UserInput::Text { text } => text.as_str().unicode_len(),
            _ => 0,
        }
    }

    /// Tests whether the item holds nothing.
    pub fn is_empty(&self) -> (r: bool)
        ensures
            r == self.holds_nothing(),
    {
        match self {
            UserInput::Text { text } => is_blank(text.as_str()),
            _ => false,
        }
    }
}

/// Ordered input for one agent turn.
#[derive(Debug)]
pub enum PromptInput {
    /// One text.
    Text(String),
    /// Ordered items.
    Content(Arc<Vec<UserInput>>),
}

/// The UTF-8 bytes of the texts of items.
pub open spec fn items_bytes(items: Seq<UserInput>) -> nat
    decreases items.len(),
{
    if items.len() == 0 {
        0
    } else {
        items_bytes(items.drop_last()) + text::utf8_len(items.last().text_of())
    }
}

/// The characters of the texts of items.
pub open spec fn items_chars(items: Seq<UserInput>) -> nat
    decreases items.len(),
{
    if items.len() == 0 {
        0
    } else {
        items_chars(items.drop_last()) + items.last().text_of().len()
    }
}

/// The first items of a list have no more bytes than the whole list.
proof fn lemma_items_bytes_prefix(items: Seq<UserInput>, k: int)
    requires
        0 <= k <= items.len(),
    ensures
        items_bytes(items.take(k)) <= items_bytes(items),
    decreases items.len() - k,
{
    if k == items.len() {
        assert(items.take(k) =~= items);
    } else {
        lemma_items_bytes_prefix(items, k + 1);
        assert(items.take(k + 1).drop_last() =~= items.take(k));
    }
}

/// The first items of a list have no more characters than the whole list.
proof fn lemma_items_chars_prefix(items: Seq<UserInput>, k: int)
    requires
        0 <= k <= items.len(),
    ensures
        items_chars(items.take(k)) <= items_chars(items),
    decreases items.len() - k,
{
    if k == items.len() {
        assert(items.take(k) =~= items);
    } else {
        lemma_items_chars_prefix(items, k + 1);
        assert(items.take(k + 1).drop_last() =~= items.take(k));
    }
}

impl Clone for PromptInput {
    fn clone(&self) -> (r: Self)
        ensures
            r == *self,
    {
        match self {
            PromptInput::Text(text) => PromptInput::Text(text.clone()),
            PromptInput::Content(items) => PromptInput::Content(items.clone()),
        }
    }
}

impl PromptInput {
    /// The UTF-8 bytes of the input's text.
    pub open spec fn bytes(self) -> nat {
        match self {
            PromptInput::Text(text) => text::utf8_len(text@),
            PromptInput::Content(items) => items_bytes(items@),
        }
    }

    /// The characters of the input's text.
    pub open spec fn chars(self) -> nat {
        match self {
            PromptInput::Text(text) => text@.len(),
            PromptInput::Content(items) => items_chars(items@),
        }
    }

    /// Whether the input holds nothing: a blank text, or no item that holds
    /// something.
    pub open spec fn holds_nothing(self) -> bool {
        match self {
            PromptInput::Text(text) => text::blank(text@),
            PromptInput::Content(items) => forall|i: int|
                0 <= i < items@.len() ==> (#[trigger] items@[i]).holds_nothing(),
        }
    }

    /// Counts the UTF-8 bytes of the input's text.
    pub fn text_bytes(&self) -> (r: usize)
        requires
            self.bytes() <= usize::MAX,
        ensures
            r == self.bytes(),
    {
        match self {
            PromptInput::Text(text) => byte_len(text.as_str()),
            PromptInput::Content(items) => {
                let mut total: usize = 0;
                let mut i: usize = 0;
                while i < items.len()
                    invariant
                        i <= items@.len(),
                        total == items_bytes(items@.take(i as int)),
                        items_bytes(items@) <= usize::MAX,
                    decreases items@.len() - i,
                {
                    proof {
                        lemma_items_bytes_prefix(items@, i as int + 1);
                        assert(items@.take(i as int + 1).drop_last() =~= items@.take(i as int));
                    }
                    total = total + items[i].text_bytes();
                    i = i + 1;
                }
                proof {
                    assert(items@.take(items@.len() as int) =~= items@);
                }
                total
            },
        }
    }

    /// Counts the characters of the input's text.
    pub fn text_chars(&self) -> (r: usize)
        requires
            self.chars() <= usize::MAX,
        ensures
            r == self.chars(),
    {
        match self {
            PromptInput::Text(text) => text.as_str().unicode_len(),
            PromptInput::Content(items) => {
                let mut total: usize = 0;
                let mut i: usize = 0;
                while i < items.len()
                    invariant
                        i <= items@.len(),
                        total == items_chars(items@.take(i as int)),
                        items_chars(items@) <= usize::MAX,
                    decreases items@.len() - i,
                {
                    proof {
                        lemma_items_chars_prefix(items@, i as int + 1);
                        assert(items@.take(i as int + 1).drop_last() =~= items@.take(i as int));
                    }
                    total = total + items[i].text_chars();
                    i = i + 1;
                }
                proof {
                    assert(items@.take(items@.len() as int) =~= items@);
                }
                total
            },
        }
    }

    /// Tests whether the input holds nothing.
    pub fn is_empty(&self) -> (r: bool)
        ensures
            r == self.holds_nothing(),
    {
        match self {
            PromptInput::Text(text) => is_blank(text.as_str()),
            PromptInput::Content(items) => {
                let mut i: usize = 0;
                while i < items.len()
                    invariant
                        i <= items@.len(),
                        self is Content,
                        self->Content_0@ == items@,
                        forall|j: int| 0 <= j < i ==> (#[trigger] items@[j]).holds_nothing(),
                    decreases items@.len() - i,
                {
                    if !items[i].is_empty() {
                        assert(!items@[i as int].holds_nothing());
                        return false;
                    }
                    i = i + 1;
                }
                true
            },
        }
    }
}

/// Whether every character of the input's text is an ASCII one.
pub open spec fn ascii_input(input: PromptInput) -> bool {
    match input {
        PromptInput::Text(text) => text::ascii(text@),
        PromptInput::Content(items) => forall|i: int|
            0 <= i < items@.len() ==> text::ascii((#[trigger] items@[i]).text_of()),
    }
}

/// The characters of an input's text never outnumber its bytes, which are at
/// most four for each of them; the two counts are the same exactly for ASCII
/// text.
pub proof fn law_characters_never_outnumber_bytes(input: PromptInput)
    ensures
        input.chars() <= input.bytes() <= 4 * input.chars(),
        input.chars() == input.bytes() <==> ascii_input(input),
{
    match input {
        PromptInput::Text(text) => text::lemma_utf8_len_bounds(text@),
        PromptInput::Content(items) => lemma_items_counts(items@),
    }
}

/// The characters of items compared with their bytes.
proof fn lemma_items_counts(items: Seq<UserInput>)
    ensures
        items_chars(items) <= items_bytes(items) <= 4 * items_chars(items),
        items_chars(items) == items_bytes(items) <==> (forall|i: int|
            0 <= i < items.len() ==> text::ascii((#[trigger] items[i]).text_of())),
    decreases items.len(),
{
    if items.len() > 0 {
        let shorter = items.drop_last();
        lemma_items_counts(shorter);
        text::lemma_utf8_len_bounds(items.last().text_of());
        if items_chars(items) == items_bytes(items) {
            assert forall|i: int| 0 <= i < items.len() implies text::ascii(
                (#[trigger] items[i]).text_of(),
            ) by {
                if i < shorter.len() {
                    assert(shorter[i] == items[i]);
                }
            }
        }
        if forall|i: int| 0 <= i < items.len() ==> text::ascii((#[trigger] items[i]).text_of()) {
            assert forall|i: int| 0 <= i < shorter.len() implies text::ascii(
                (#[trigger] shorter[i]).text_of(),
            ) by {
                assert(shorter[i] == items[i]);
            }
            assert(text::ascii(items[items.len() - 1].text_of()));
        }
    }
}

impl From<String> for PromptInput {
    fn from(value: String) -> (r: Self) {
        PromptInput::Text(value)
    }
}

impl vstd::std_specs::convert::FromSpecImpl<String> for PromptInput {
    open spec fn obeys_from_spec() -> bool {
        true
    }

    open spec fn from_spec(value: String) -> PromptInput {
        PromptInput::Text(value)
    }
}

/// User input for one agent turn.
///
/// Session policy such as the filesystem workspace belongs to the agent
/// builder rather than an individual prompt.
#[derive(Debug)]
pub struct Prompt {
    /// What the user asks.
    pub instruction: PromptInput,
}

impl Clone for Prompt {
    fn clone(&self) -> (r: Self)
        ensures
            r == *self,
    {
        Prompt { instruction: self.instruction.clone() }
    }
}

impl Prompt {
    /// Creates a prompt from one text.
    pub fn new(instruction: &str) -> (r: Self)
        ensures
            r.instruction is Text,
            r.instruction->Text_0@ == instruction@,
    {
        Prompt { instruction: PromptInput::Text(instruction.to_owned()) }
    }

    /// Creates a prompt from ordered text, image, and audio input items.
    pub fn content(input: Vec<UserInput>) -> (r: Self)
        ensures
            r.instruction is Content,
            r.instruction->Content_0@ == input@,
    {
        Prompt { instruction: PromptInput::Content(Arc::new(input)) }
    }
}

impl From<String> for Prompt {
    fn from(value: String) -> (r: Self) {
        Prompt { instruction: PromptInput::Text(value) }
    }
}

impl vstd::std_specs::convert::FromSpecImpl<String> for Prompt {
    open spec fn obeys_from_spec() -> bool {
        true
    }

    open spec fn from_spec(value: String) -> Prompt {
        Prompt { instruction: PromptInput::Text(value) }
    }
}

/// The text of an input is the text of all its items: one more item adds the
/// bytes and characters of its own text, and an item that is no text adds
/// nothing.
pub proof fn law_every_item_counts(items: Seq<UserInput>, item: UserInput)
    ensures
        items_bytes(Seq::<UserInput>::empty()) == 0,
        items_chars(Seq::<UserInput>::empty()) == 0,
        item matches UserInput::Text { text } ==> items_bytes(items.push(item)) == items_bytes(
            items,
        ) + text::utf8_len(text@) && items_chars(items.push(item)) == items_chars(items)
            + text@.len(),
        !(item is Text) ==> items_bytes(items.push(item)) == items_bytes(items) && items_chars(
            items.push(item),
        ) == items_chars(items),
{
    assert(items.push(item).drop_last() =~= items);
    assert(text::utf8_len(Seq::empty()) == 0);
}

/// A single text and the same text as the only item of a list are the same
/// input: as many bytes, as many characters, and empty together.
pub proof fn law_one_text_is_a_list_of_one(single: String, items: Arc<Vec<UserInput>>)
    requires
        items@ == seq![UserInput::Text { text: single }],
    ensures
        PromptInput::Text(single).bytes() == PromptInput::Content(items).bytes(),
        PromptInput::Text(single).chars() == PromptInput::Content(items).chars(),
        PromptInput::Text(single).holds_nothing() <==> PromptInput::Content(
            items,
        ).holds_nothing(),
{
    assert(items@ =~= Seq::empty().push(UserInput::Text { text: single }));
    law_every_item_counts(Seq::empty(), UserInput::Text { text: single });
    assert(items@[0] == (UserInput::Text { text: single }));
}

/// An input holds something exactly when a text in it has a character that is
/// no white space, or one of its items is no text.
pub proof fn law_blank_inputs_hold_nothing(input: PromptInput)
    ensures
        match input {
            PromptInput::Text(text) => !input.holds_nothing() <==> !text::blank(text@),
            PromptInput::Content(items) => !input.holds_nothing() <==> exists|i: int|
                0 <= i < items@.len() && match #[trigger] items@[i] {
                    UserInput::Text { text } => !text::blank(text@),
                    _ => true,
                },
        },
{
    if let PromptInput::Content(items) = input {
        if !input.holds_nothing() {
            let i = choose|i: int|
                0 <= i < items@.len() && !(#[trigger] items@[i]).holds_nothing();
            assert(match items@[i] {
                UserInput::Text { text } => !text::blank(text@),
                _ => true,
            });
        }
        if exists|i: int|
            0 <= i < items@.len() && match #[trigger] items@[i] {
                UserInput::Text { text } => !text::blank(text@),
                _ => true,
            } {
            let i = choose|i: int|
                0 <= i < items@.len() && match #[trigger] items@[i] {
                    UserInput::Text { text } => !text::blank(text@),
                    _ => true,
                };
            assert(!items@[i].holds_nothing());
        }
    }
}

} // verus!
