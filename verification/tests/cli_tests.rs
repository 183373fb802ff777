use takoyaki::cli::{CliOutcome, CLI};
use takoyaki::codec::decode_command_words;
use takoyaki::commands::CommandHandler;
use takoyaki::keygen::generate_operator_keypair;
use takoyaki::payload::Payload;
use takoyaki::text::{split_first_space, tokenize};

fn registry() -> CommandHandler {
    let mut handler = CommandHandler::new();
    handler.register_commands().expect("registration must succeed");
    handler
}

fn operator_cli() -> (CLI, Vec<u8>) {
    let (public_key, private_key) = generate_operator_keypair();
    let cli = CLI::new(
        Some(private_key),
        public_key.clone(),
        String::from("project-takoyaki"),
    );
    (cli, public_key)
}

fn published_command(cli: &CLI, handler: &CommandHandler, line: &str, public_key: &Vec<u8>) -> Vec<String> {
    match cli.handle_input(handler, &String::from(line)) {
        CliOutcome::Publish(bytes) => {
            let payload = Payload::from_slice(&bytes).expect("published bytes are an envelope");
            assert!(payload.verify(public_key), "published payload must verify");
            decode_command_words(&payload.body).expect("verified body decodes as a command")
        }
        _ => panic!("expected the line to be published"),
    }
}

#[test]
fn scripting_command_keeps_remainder_whole() {
    let handler = registry();
    let (cli, public_key) = operator_cli();
    let words = published_command(&cli, &handler, "lua print(\"a b\")", &public_key);
    assert_eq!(words, vec![String::from("lua"), String::from("print(\"a b\")")]);
}

#[test]
fn ordinary_line_splits_on_whitespace() {
    let line = String::from("ping 1 2");
    let words = tokenize(&line);
    assert_eq!(
        words,
        vec![String::from("ping"), String::from("1"), String::from("2")]
    );
}

#[test]
fn tokenizer_drops_repeated_whitespace() {
    let line = String::from("  a \t b\u{a0}c  ");
    assert_eq!(
        tokenize(&line),
        vec![String::from("a"), String::from("b"), String::from("c")]
    );
}

#[test]
fn tokenizer_of_blank_line_is_empty() {
    assert!(tokenize(&String::from("   ")).is_empty());
    assert!(tokenize(&String::from("")).is_empty());
}

#[test]
fn split_first_space_keeps_later_spaces() {
    let (head, rest) = split_first_space(&String::from("lua print(\"a b\")"));
    assert_eq!(head, "lua");
    assert_eq!(rest.as_deref(), Some("print(\"a b\")"));
    let (head2, rest2) = split_first_space(&String::from("status"));
    assert_eq!(head2, "status");
    assert!(rest2.is_none());
}

#[test]
fn scripting_command_name_folds_case() {
    let handler = registry();
    let (cli, public_key) = operator_cli();
    let words = published_command(&cli, &handler, "LUA print(1)", &public_key);
    assert_eq!(words, vec![String::from("lua"), String::from("print(1)")]);
}

#[test]
fn scripting_command_without_remainder_keeps_empty_argument() {
    let handler = registry();
    let (cli, public_key) = operator_cli();
    let words = published_command(&cli, &handler, "lua", &public_key);
    assert_eq!(words, vec![String::from("lua"), String::new()]);
}

#[test]
fn unrecognized_name_is_not_published() {
    let handler = registry();
    let (cli, _) = operator_cli();
    let outcome = cli.handle_input(&handler, &String::from("frobnicate 1 2"));
    assert!(matches!(outcome, CliOutcome::Unrecognized));
}

#[test]
fn empty_line_is_ignored() {
    let handler = registry();
    let (cli, _) = operator_cli();
    let outcome = cli.handle_input(&handler, &String::new());
    assert!(matches!(outcome, CliOutcome::EmptyLine));
}

#[test]
fn node_without_key_cannot_issue_commands() {
    let handler = registry();
    let (public_key, _) = generate_operator_keypair();
    let cli = CLI::new(None, public_key, String::from("project-takoyaki"));
    let outcome = cli.handle_input(&handler, &String::from("lua print(1)"));
    assert!(matches!(outcome, CliOutcome::NoKey));
}

#[test]
fn topic_is_kept() {
    let (public_key, _) = generate_operator_keypair();
    let cli = CLI::new(None, public_key, String::from("project-takoyaki"));
    assert_eq!(cli.topic(), "project-takoyaki");
}
