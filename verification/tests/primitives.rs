use std::cell::Cell;
use prs::{
    fn_parser, predicate, run, token, Combine, Matcher, Munch, Parse, ParseError, SliceStream,
    StreamFn, TokenStream, TokenTest, Transform,
};

fn chars(text: &str) -> Vec<char> {
    text.chars().collect()
}

fn text(tokens: &[char]) -> String {
    tokens.iter().collect()
}

#[test]
fn token_matches_only_the_equal_token() {
    let input = chars("ab");
    let parsed = run(&token('a'), &input);
    assert_eq!(parsed.result, Ok('a'));
    assert_eq!(text(parsed.remaining), "b");

    let parsed = run(&token('b'), &input);
    assert_eq!(parsed.result, Err(ParseError::ExpectedToken('b')));
    assert_eq!(text(parsed.remaining), "ab");
}

#[test]
fn token_fails_at_end_of_input() {
    let input: Vec<u8> = Vec::new();
    let parsed = run(&token(7u8), &input);
    assert_eq!(parsed.result, Err(ParseError::ExpectedToken(7u8)));
    assert!(parsed.remaining.is_empty());
}

#[test]
fn token_works_over_any_token_type() {
    #[derive(Clone, Copy, PartialEq, Debug)]
    enum Lexeme {
        Plus,
        Minus,
        Number(i64),
    }
    let input = [Lexeme::Number(4), Lexeme::Plus, Lexeme::Minus];
    let sum = token(Lexeme::Number(4)).and(token(Lexeme::Plus));
    let parsed = run(&sum, &input);
    assert_eq!(parsed.result, Ok((Lexeme::Number(4), Lexeme::Plus)));
    assert_eq!(parsed.remaining, &[Lexeme::Minus]);

    let parsed = run(&token(Lexeme::Number(5)), &input);
    assert_eq!(parsed.result, Err(ParseError::ExpectedToken(Lexeme::Number(5))));
    assert_eq!(parsed.remaining.len(), 3);
}

#[test]
fn predicate_reports_its_name() {
    let input = chars("x1");
    let digit = predicate("digit", |c: &char| c.is_ascii_digit());
    let parsed = run(&digit, &input);
    assert_eq!(parsed.result, Err(ParseError::ExpectedDescribed("digit".to_string())));
    assert_eq!(text(parsed.remaining), "x1");

    let letter = predicate(String::from("letter"), |c: &char| c.is_alphabetic());
    let parsed = run(&letter, &input);
    assert_eq!(parsed.result, Ok('x'));
    assert_eq!(text(parsed.remaining), "1");
}

#[test]
fn predicate_fails_at_end_of_input() {
    let input: Vec<char> = Vec::new();
    let any = predicate("anything", |_: &char| true);
    let parsed = run(&any, &input);
    assert_eq!(parsed.result, Err(ParseError::ExpectedDescribed("anything".to_string())));
}

#[test]
fn predicate_reads_one_token_only() {
    let input = chars("123");
    let digit = predicate("digit", |c: &char| c.is_ascii_digit());
    let parsed = run(&digit, &input);
    assert_eq!(parsed.result, Ok('1'));
    assert_eq!(text(parsed.remaining), "23");
}

#[test]
fn cloned_predicate_behaves_alike() {
    let input = chars("7x");
    let digit = predicate("digit", |c: &char| c.is_ascii_digit());
    let twin = digit.clone();
    assert_eq!(run(&digit, &input).result, run(&twin, &input).result);
    let both = digit.and(twin);
    let parsed = run(&both, &input);
    assert_eq!(parsed.result, Err(ParseError::ExpectedDescribed("digit".to_string())));
    assert_eq!(text(parsed.remaining), "7x");
}

#[test]
fn matchers_answer_on_single_tokens() {
    let x = token::<SliceStream<char>>('x');
    assert!(x.test(&'x'));
    assert!(!x.test(&'y'));
    assert_eq!(x.expected(), ParseError::ExpectedToken('x'));

    let vowel = predicate::<_, SliceStream<char>, _>("vowel", |c: &char| "aeiou".contains(*c));
    assert!(vowel.test(&'e'));
    assert!(!vowel.test(&'z'));
    assert_eq!(vowel.expected(), ParseError::ExpectedDescribed("vowel".to_string()));
}

fn is_even(token: &u32) -> bool {
    token % 2 == 0
}

fn halve(input: u32) -> u32 {
    input / 2
}

#[test]
fn tests_and_functions_need_not_be_closures() {
    let input = [8u32, 6, 3];
    let halves = predicate("even", is_even).map(halve);
    let parsed = run(&halves, &input);
    assert_eq!(parsed.result, Ok(4));
    assert_eq!(parsed.remaining, &[6, 3]);

    let run_of_evens = predicate("even", is_even).greedy();
    let parsed = run(&run_of_evens, &input);
    assert_eq!(parsed.result, Ok(vec![8, 6]));
    assert_eq!(parsed.remaining, &[3]);

    assert!(is_even.accepts(&4));
    assert!(!is_even.accepts(&5));
    assert_eq!(halve.apply(10), 5);
}

fn two_tokens<'a>(
    mut stream: SliceStream<'a, char>,
) -> (Result<(char, char), String>, SliceStream<'a, char>) {
    let first = stream.advance();
    let second = stream.advance();
    match (first, second) {
        (Some(a), Some(b)) => (Ok((a, b)), stream),
        _ => (Err("two tokens".to_string()), stream),
    }
}

#[test]
fn function_parser_runs_the_function() {
    let input = chars("abc");
    let parser = fn_parser(two_tokens);
    let parsed = run(&parser, &input);
    assert_eq!(parsed.result, Ok(('a', 'b')));
    assert_eq!(text(parsed.remaining), "c");
}

#[test]
fn function_parser_keeps_what_the_function_consumed_on_failure() {
    let input = chars("a");
    let parser = fn_parser(two_tokens);
    let parsed = run(&parser, &input);
    assert_eq!(parsed.result, Err("two tokens".to_string()));
    assert_eq!(text(parsed.remaining), "");

    let mut stream = SliceStream::new(&input);
    assert!(two_tokens.read(&mut stream).is_err());
    assert_eq!(stream.checkpoint(), 1);
}

#[test]
fn combinators_rewind_a_function_parser_that_failed() {
    let input = chars("abc");
    let parser = fn_parser(two_tokens).and(fn_parser(two_tokens));
    let parsed = run(&parser, &input);
    assert_eq!(parsed.result, Err("two tokens".to_string()));
    assert_eq!(text(parsed.remaining), "abc");
}

#[test]
fn borrowed_parsers_can_be_combined_and_reused() {
    let ab = chars("ab");
    let ba = chars("ba");
    let a = token('a');
    let b = token('b');
    let a_then_b = (&a).and(&b);
    let b_then_a = (&b).and(&a);
    assert_eq!(run(&a_then_b, &ab).result, Ok(('a', 'b')));
    assert_eq!(run(&b_then_a, &ba).result, Ok(('b', 'a')));
    assert_eq!(run(&a_then_b, &ba).result, Err(ParseError::ExpectedToken('a')));

    let mut stream = SliceStream::new(&ab);
    assert_eq!((&a).parse(&mut stream), Ok('a'));
    assert_eq!((&&b).parse(&mut stream), Ok('b'));
}

#[test]
fn one_parser_on_two_streams_behaves_alike() {
    let input = chars("77x");
    let sevens = token('7').greedy();
    let mut first = SliceStream::new(&input);
    let mut second = SliceStream::new(&input);
    let one = sevens.parse(&mut first);
    let other = sevens.parse(&mut second);
    assert_eq!(one, other);
    assert_eq!(one, Ok(chars("77")));
    assert_eq!(first.checkpoint(), second.checkpoint());
    assert_eq!(first.checkpoint(), 2);
}

#[test]
fn function_parser_calls_the_function_once_on_the_callers_stream() {
    static INPUT: [char; 4] = ['a', 'b', 'c', 'd'];
    let calls = Cell::new(0);
    let seen_at = Cell::new(usize::MAX);
    let take_three = |mut stream: SliceStream<'static, char>| {
        calls.set(calls.get() + 1);
        seen_at.set(stream.checkpoint());
        let first = stream.advance();
        stream.advance();
        stream.advance();
        (first.ok_or(calls.get()), stream)
    };
    let parser = fn_parser(take_three);

    let mut stream = SliceStream::new(&INPUT);
    stream.advance();
    assert_eq!(parser.parse(&mut stream), Ok('b'));
    assert_eq!(calls.get(), 1);
    assert_eq!(seen_at.get(), 1);
    assert_eq!(stream.checkpoint(), 4);

    assert_eq!(parser.parse(&mut stream), Err(2));
    assert_eq!(calls.get(), 2);
    assert_eq!(seen_at.get(), 4);
    assert_eq!(stream.checkpoint(), 4);
}
