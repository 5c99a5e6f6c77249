use copy_order::command::Statement;
use copy_order::command::Token;
use copy_order::range::Position;
use copy_order::range::Range;
use copy_order::syntax::read_statements;
use copy_order::syntax::read_tree;

fn tree_of(text: &str) -> tree_sitter::Tree {
    let mut parser = tree_sitter::Parser::new();
    parser.set_language(tree_sitter_bash::language()).unwrap();
    parser.parse(text, None).unwrap()
}

fn span(line: u32, from: u32, to: u32) -> Range {
    Range {
        start: Position { line, character: from },
        end: Position { line, character: to },
    }
}

fn token(kind: &str, text: &str, range: Range) -> Token {
    Token { kind: kind.to_string(), text: text.to_string(), range }
}

#[test]
fn a_tree_is_read_child_by_child_of_its_root() {
    let text = "f -v alpha \"$B\"\n# note\nd gamma\n";
    let found = read_tree(&tree_of(text), text).unwrap();
    assert_eq!(
        found,
        vec![
            Statement {
                kind: "command".to_string(),
                name: Some(token("command_name", "f", span(0, 0, 1))),
                arguments: vec![
                    token("word", "-v", span(0, 2, 4)),
                    token("word", "alpha", span(0, 5, 10)),
                    token("string", "\"$B\"", span(0, 11, 15)),
                ],
            },
            Statement { kind: "comment".to_string(), name: None, arguments: vec![] },
            Statement {
                kind: "command".to_string(),
                name: Some(token("command_name", "d", span(2, 0, 1))),
                arguments: vec![token("word", "gamma", span(2, 2, 7))],
            },
        ]
    );
}

#[test]
fn reading_a_tree_twice_gives_the_same_statements() {
    let text = "d b; d a; f \u{e9}; echo $X";
    let tree = tree_of(text);
    assert_eq!(read_tree(&tree, text), read_tree(&tree, text));
    assert_eq!(read_tree(&tree, text), read_statements(text).ok());
}

#[test]
fn a_token_holds_the_bytes_that_its_node_spans() {
    let tree = tree_of("d foo bar");
    let found = read_tree(&tree, "f abc xyz").unwrap();
    assert_eq!(found[0].name, Some(token("command_name", "f", span(0, 0, 1))));
    assert_eq!(
        found[0].arguments,
        vec![token("word", "abc", span(0, 2, 5)), token("word", "xyz", span(0, 6, 9))]
    );
}

#[test]
fn a_tree_that_does_not_fit_the_text_is_turned_down() {
    let tree = tree_of("d foo; d bar");
    assert_eq!(read_tree(&tree, "d foo"), None);
    assert_eq!(read_tree(&tree, ""), None);
    let tree = tree_of("d abc");
    assert_eq!(read_tree(&tree, "d a\u{e9}"), Some(vec![Statement {
        kind: "command".to_string(),
        name: Some(token("command_name", "d", span(0, 0, 1))),
        arguments: vec![token("word", "a\u{e9}", span(0, 2, 5))],
    }]));
    assert_eq!(read_tree(&tree, "d \u{e9}\u{e9}x"), None);
}

#[test]
fn an_empty_tree_gives_no_statements() {
    assert_eq!(read_tree(&tree_of(""), ""), Some(vec![]));
    assert_eq!(read_tree(&tree_of(""), "anything"), Some(vec![]));
}
