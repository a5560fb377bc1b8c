use cronos::search::tokenizer::{
    raw_tokens, remove_long, SimpleTokenStream, SimpleUnicodeTokenizer, DEFAULT_TOKEN_LIMIT,
};

fn drain(stream: &mut SimpleTokenStream) -> Vec<String> {
    let mut tokens = Vec::new();
    while let Some(token) = stream.next() {
        tokens.push(token);
    }
    tokens
}

fn texts(words: &[&str]) -> Vec<String> {
    words.iter().map(|word| word.to_string()).collect()
}

#[test]
fn words_are_split_on_unicode_word_boundaries() {
    let tokenizer = SimpleUnicodeTokenizer::default();
    let mut stream =
        tokenizer.token_stream("The quick (\"brown\") fox can't jump 32.3 feet, right?");
    assert_eq!(
        drain(&mut stream),
        texts(&["the", "quick", "brown", "fox", "can't", "jump", "32.3", "feet", "right"])
    );
}

#[test]
fn tokens_are_lowercased() {
    let tokenizer = SimpleUnicodeTokenizer::with_limit(10);
    let mut stream = tokenizer.token_stream("Kira MUSIC Bot ÉCOLE");
    assert_eq!(drain(&mut stream), texts(&["kira", "music", "bot", "école"]));
}

#[test]
fn tokens_longer_than_the_cap_are_dropped() {
    let tokenizer = SimpleUnicodeTokenizer::with_limit(4);
    let mut stream = tokenizer.token_stream("The quick brown fox can't jump 32.3 feet");
    assert_eq!(drain(&mut stream), texts(&["the", "fox", "jump", "32.3", "feet"]));
}

#[test]
fn the_cap_counts_characters() {
    let tokenizer = SimpleUnicodeTokenizer::with_limit(5);
    let mut stream = tokenizer.token_stream("école écoles");
    assert_eq!(drain(&mut stream), texts(&["école"]));
}

#[test]
fn the_default_cap_is_forty() {
    assert_eq!(DEFAULT_TOKEN_LIMIT, 40);
    let forty = "a".repeat(40);
    let forty_one = "b".repeat(41);
    let text = format!("{} {}", forty, forty_one);
    let mut stream = SimpleUnicodeTokenizer::default().token_stream(&text);
    assert_eq!(drain(&mut stream), vec![forty]);
}

#[test]
fn a_text_without_words_has_no_tokens() {
    let tokenizer = SimpleUnicodeTokenizer::default();
    assert!(drain(&mut tokenizer.token_stream("")).is_empty());
    assert!(drain(&mut tokenizer.token_stream("  !!! ... ?")).is_empty());
}

#[test]
fn a_stream_can_be_set_back() {
    let mut stream = SimpleTokenStream::from_tokens(texts(&["a", "b", "c"]));
    assert_eq!(stream.remaining(), 3);
    assert_eq!(stream.next(), Some("a".to_string()));
    assert_eq!(stream.next(), Some("b".to_string()));
    assert_eq!(stream.remaining(), 1);
    stream.reset();
    assert_eq!(stream.remaining(), 3);
    assert_eq!(drain(&mut stream), texts(&["a", "b", "c"]));
    assert_eq!(stream.next(), None);
    assert_eq!(stream.next(), None);
    assert_eq!(stream.remaining(), 0);
}

#[test]
fn remove_long_keeps_order() {
    assert_eq!(
        remove_long(texts(&["abc", "abcdef", "ab", "", "abcd"]), 3),
        texts(&["abc", "ab", ""])
    );
    assert_eq!(remove_long(texts(&["abc"]), 0), Vec::<String>::new());
    assert_eq!(remove_long(Vec::new(), 3), Vec::<String>::new());
}

#[test]
fn the_raw_tokenizer_passes_the_text_through() {
    assert_eq!(raw_tokens("Music & Fun"), texts(&["Music & Fun"]));
    assert_eq!(raw_tokens(""), texts(&[""]));
}
