use prs::{run, token, Parse, SliceStream, TokenStream};

#[test]
fn peek_does_not_move_the_cursor() {
    let input = ['a', 'b'];
    let stream = SliceStream::new(&input);
    assert_eq!(stream.peek(), Some('a'));
    assert_eq!(stream.peek(), Some('a'));
    assert_eq!(stream.checkpoint(), 0);
    assert_eq!(stream.remaining(), &['a', 'b']);
}

#[test]
fn advance_gives_what_peek_gave_and_moves_by_one() {
    let input = ['a', 'b'];
    let mut stream = SliceStream::new(&input);
    let peeked = stream.peek();
    assert_eq!(stream.advance(), peeked);
    assert_eq!(stream.checkpoint(), 1);
    assert_eq!(stream.peek(), Some('b'));
    assert_eq!(stream.advance(), Some('b'));
    assert_eq!(stream.checkpoint(), 2);
    assert_eq!(stream.remaining(), &[] as &[char]);
}

#[test]
fn end_of_input_gives_nothing_and_stays() {
    let input: [u8; 0] = [];
    let mut stream = SliceStream::new(&input);
    assert_eq!(stream.peek(), None);
    assert_eq!(stream.advance(), None);
    assert_eq!(stream.advance(), None);
    assert_eq!(stream.checkpoint(), 0);
}

#[test]
fn restore_reads_the_same_tokens_again() {
    let input = [10u8, 20, 30, 40];
    let mut stream = SliceStream::new(&input);
    assert_eq!(stream.advance(), Some(10));
    let saved = stream.checkpoint();
    let first: Vec<Option<u8>> = vec![stream.advance(), stream.peek(), stream.advance(), stream.advance(), stream.advance()];
    stream.restore(saved);
    assert_eq!(stream.checkpoint(), saved);
    assert_eq!(stream.remaining(), &[20, 30, 40]);
    let second: Vec<Option<u8>> = vec![stream.advance(), stream.peek(), stream.advance(), stream.advance(), stream.advance()];
    assert_eq!(first, second);
    assert_eq!(first, vec![Some(20), Some(30), Some(30), Some(40), None]);
}

#[test]
fn nested_checkpoints_restore_independently() {
    let input = [1u8, 2, 3];
    let mut stream = SliceStream::new(&input);
    let outer = stream.checkpoint();
    stream.advance();
    let inner = stream.checkpoint();
    stream.advance();
    stream.advance();
    stream.restore(inner);
    assert_eq!(stream.peek(), Some(2));
    stream.restore(outer);
    assert_eq!(stream.peek(), Some(1));
    stream.restore(3);
    assert_eq!(stream.peek(), None);
}

#[test]
fn a_copied_stream_reads_on_its_own() {
    let input = [1u8, 2];
    let mut stream = SliceStream::new(&input);
    let mut copy = stream;
    assert_eq!(copy.advance(), Some(1));
    assert_eq!(stream.peek(), Some(1));
    assert_eq!(stream.advance(), Some(1));
    assert_eq!(stream.advance(), Some(2));
    assert_eq!(copy.peek(), Some(2));
}

#[test]
fn run_leaves_the_input_untouched() {
    let input = vec!['x', 'y', 'z'];
    let parsed = run(&token('x'), &input);
    assert_eq!(parsed.result, Ok('x'));
    assert_eq!(parsed.remaining, &['y', 'z']);
    assert_eq!(input, vec!['x', 'y', 'z']);
}

#[test]
fn run_on_empty_input() {
    let input: Vec<char> = Vec::new();
    let parsed = run(&token('x'), &input);
    assert!(parsed.result.is_err());
    assert!(parsed.remaining.is_empty());
}

#[test]
fn parse_moves_the_callers_stream() {
    let input = ['x', 'x', 'y'];
    let mut stream = SliceStream::new(&input);
    let parser = token('x');
    assert_eq!(parser.parse(&mut stream), Ok('x'));
    assert_eq!(stream.checkpoint(), 1);
    assert_eq!(parser.parse(&mut stream), Ok('x'));
    assert_eq!(stream.checkpoint(), 2);
    assert!(parser.parse(&mut stream).is_err());
    assert_eq!(stream.checkpoint(), 2);
    assert_eq!(stream.remaining(), &['y']);
}
