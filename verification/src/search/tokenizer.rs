//! Tokenizers: the word tokenizer that text fields and queries go through,
//! and the pass-through tokenizer of the aggregation fields.

use unicode_segmentation::UnicodeSegmentation;
use vstd::prelude::*;

verus! {

/// The length cap of the word tokenizer when none is given.
pub const DEFAULT_TOKEN_LIMIT: usize = 40;

/// The words of a text by the Unicode word boundary rules: the pieces
/// between boundaries that hold a letter or a digit, in order.
pub uninterp spec fn unicode_words_of(text: Seq<char>) -> Seq<Seq<char>>;

/// The lowercase form of a text.
pub uninterp spec fn lowercase_of(text: Seq<char>) -> Seq<char>;

/// `UnicodeSegmentation::unicode_words`: the words of the text, each
/// copied out.
#[verifier::external_body]
fn unicode_words(text: &str) -> (words: Vec<String>)
    ensures
        words.deep_view() == unicode_words_of(text@),
{
    text.unicode_words().map(String::from).collect()
}

/// `str::to_lowercase`: the lowercase form of the text.
#[verifier::external_body]
fn to_lowercase(text: &str) -> (lowered: String)
    ensures
        lowered@ == lowercase_of(text@),
{
    text.to_lowercase()
}

/// Whether a token is within the cap, counted in characters.
pub open spec fn within_limit(limit: usize) -> spec_fn(Seq<char>) -> bool {
    |token: Seq<char>| token.len() <= limit
}

/// The tokens of a text under a cap: its words, lowercased, without those
/// that are longer than the cap.
pub open spec fn tokens_of(text: Seq<char>, limit: usize) -> Seq<Seq<char>> {
    unicode_words_of(text).map_values(|word: Seq<char>| lowercase_of(word)).filter(
        within_limit(limit),
    )
}

/// Drops the tokens that are longer than the cap and keeps the others in
/// order.
pub fn remove_long(tokens: Vec<String>, limit: usize) -> (kept: Vec<String>)
    ensures
        kept.deep_view() == tokens.deep_view().filter(within_limit(limit)),
{
    let mut kept: Vec<String> = Vec::new();
    let ghost all = tokens.deep_view();
    let ghost given = tokens@;
    assert(kept.deep_view() =~= all.take(0).filter(within_limit(limit))) by {
        reveal(Seq::filter);
    }
    for token in it: tokens.into_iter()
        invariant
            it.seq() == given,
            all.len() == given.len(),
            forall|j: int| 0 <= j < given.len() ==> all[j] == (#[trigger] given[j])@,
            kept.deep_view() == all.take(it.index() as int).filter(within_limit(limit)),
    {
        let ghost before = kept.deep_view();
        let ghost i = it.index() as int;
        proof {
            reveal(Seq::filter);
            assert(all.take(i + 1).drop_last() == all.take(i));
            assert(all.take(i + 1).last() == token@);
        }
        if token.as_str().unicode_len() <= limit {
            kept.push(token);
            assert(kept.deep_view() =~= before.push(all[i]));
        }
    }
    proof {
        assert(all.take(all.len() as int) == all);
    }
    kept
}

/// Lowercases each word.
fn lowercase_all(words: Vec<String>) -> (lowered: Vec<String>)
    ensures
        lowered.deep_view() == words.deep_view().map_values(
            |word: Seq<char>| lowercase_of(word),
        ),
{
    let mut lowered: Vec<String> = Vec::new();
    let ghost given = words@;
    let ghost all = words.deep_view();
    for word in it: words.into_iter()
        invariant
            it.seq() == given,
            all.len() == given.len(),
            forall|j: int| 0 <= j < given.len() ==> all[j] == (#[trigger] given[j])@,
            lowered.len() == it.index(),
            forall|j: int|
                0 <= j < lowered.len() ==> (#[trigger] lowered[j])@ == lowercase_of(all[j]),
    {
        lowered.push(to_lowercase(word.as_str()));
    }
    assert(lowered.deep_view() =~= all.map_values(|word: Seq<char>| lowercase_of(word)));
    lowered
}

/// The word tokenizer: splits on Unicode word boundaries, lowercases, and
/// drops tokens longer than its cap.
#[derive(Debug, Copy, Clone)]
pub struct SimpleUnicodeTokenizer {
    limit: usize,
}

impl Default for SimpleUnicodeTokenizer {
    fn default() -> (tokenizer: Self)
        ensures
            tokenizer.limit() == DEFAULT_TOKEN_LIMIT,
    {
        SimpleUnicodeTokenizer { limit: DEFAULT_TOKEN_LIMIT }
    }
}

impl SimpleUnicodeTokenizer {
    /// The cap on a token's length, in characters.
    pub closed spec fn limit(self) -> usize {
        self.limit
    }

    /// A tokenizer with the given cap.
    pub fn with_limit(limit: usize) -> (tokenizer: Self)
        ensures
            tokenizer.limit() == limit,
    {
        SimpleUnicodeTokenizer { limit }
    }

    /// The stream of the text's tokens, placed at its start.
    pub fn token_stream(&self, text: &str) -> (stream: SimpleTokenStream)
        ensures
            stream.tokens() == tokens_of(text@, self.limit()),
            stream.position() == 0,
    {
        let words = unicode_words(text);
        let lowered = lowercase_all(words);
        let tokens = remove_long(lowered, self.limit);
        SimpleTokenStream { tokens, pointer: 0 }
    }
}

/// A run of tokens with a place in it, which can be set back to the start.
#[derive(Debug)]
pub struct SimpleTokenStream {
    tokens: Vec<String>,
    pointer: usize,
}

impl SimpleTokenStream {
    #[verifier::type_invariant]
    spec fn in_bounds(self) -> bool {
        self.pointer <= self.tokens.len()
    }

    /// All tokens of the stream, whatever its place.
    pub closed spec fn tokens(self) -> Seq<Seq<char>> {
        self.tokens.deep_view()
    }

    /// How many tokens have been handed out since the start.
    pub closed spec fn position(self) -> nat {
        self.pointer as nat
    }

    /// How many tokens are still to be handed out. The place of a stream
    /// is never past its last token.
    pub fn remaining(&self) -> (count: usize)
        ensures
            self.position() <= self.tokens().len(),
            count == self.tokens().len() - self.position(),
    {
        proof {
            use_type_invariant(self);
        }
        self.tokens.len() - self.pointer
    }

    /// The stream over the given tokens, placed at its start.
    pub fn from_tokens(tokens: Vec<String>) -> (stream: Self)
        ensures
            stream.tokens() == tokens.deep_view(),
            stream.position() == 0,
    {
        SimpleTokenStream { tokens, pointer: 0 }
    }

    /// Hands out the token at the stream's place and moves one on; `None`
    /// once all are handed out.
    pub fn next(&mut self) -> (token: Option<String>)
        ensures
            final(self).tokens() == old(self).tokens(),
            old(self).position() < old(self).tokens().len() ==> token.is_some()
                && token.unwrap()@ == old(self).tokens()[old(self).position() as int]
                && final(self).position() == old(self).position() + 1,
            old(self).position() >= old(self).tokens().len() ==> token.is_none()
                && final(self).position() == old(self).position(),
    {
        proof {
            use_type_invariant(&*self);
        }
        if self.pointer < self.tokens.len() {
            let token = self.tokens[self.pointer].clone();
            self.pointer += 1;
            Some(token)
        } else {
            None
        }
    }

    /// Sets the stream back to its start.
    pub fn reset(&mut self)
        ensures
            final(self).tokens() == old(self).tokens(),
            final(self).position() == 0,
    {
        self.pointer = 0;
    }
}

/// The pass-through tokenizer: the whole text is its one token, kept as it
/// is.
pub fn raw_tokens(text: &str) -> (tokens: Vec<String>)
    ensures
        tokens.deep_view() == seq![text@],
{
    let mut tokens: Vec<String> = Vec::new();
    tokens.push(text.to_owned());
    assert(tokens.deep_view() =~= seq![text@]);
    tokens
}

} // verus!
