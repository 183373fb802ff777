use takoyaki::codec::{command_words_round_trip, decode_command_words, encode_command_words};
use takoyaki::commands::{Command, CommandError, CommandHandler, ExecOutcome, LuaCommand};

fn registry() -> CommandHandler {
    let mut handler = CommandHandler::new();
    handler.register_commands().expect("registration must succeed");
    handler
}

#[test]
fn command_round_trip() {
    let command = vec![String::from("lua"), String::from("print(1)")];
    let bytes = encode_command_words(&command);
    let decoded = decode_command_words(&bytes).expect("encoded command must decode");
    assert_eq!(decoded, command);
}

#[test]
fn command_round_trip_law_function() {
    let command = vec![String::from("lua"), String::from("print(1)")];
    let decoded = command_words_round_trip(&command).expect("round trip must succeed");
    assert_eq!(decoded, command);
}

#[test]
fn command_encoding_matches_the_wire_format() {
    let command = vec![String::from("ping"), String::from("1")];
    let bytes = encode_command_words(&command);
    let reference =
        bincode::encode_to_vec(&command, bincode::config::standard()).expect("encodes");
    assert_eq!(bytes, reference);
}

#[test]
fn garbage_does_not_decode_as_command() {
    let garbage = vec![0xFEu8; 7];
    assert!(decode_command_words(&garbage).is_none());
}

#[test]
fn unregistered_command_is_rejected() {
    let handler = registry();
    let outcome = handler.execute_command(&vec![String::from("frobnicate")]);
    assert!(matches!(outcome, ExecOutcome::Unregistered));
}

#[test]
fn empty_command_is_rejected() {
    let handler = registry();
    let outcome = handler.execute_command(&Vec::new());
    assert!(matches!(outcome, ExecOutcome::Empty));
}

#[test]
fn command_lookup_is_case_insensitive() {
    let handler = registry();
    assert!(handler.command_exists(&String::from("lua")));
    assert!(handler.command_exists(&String::from("LUA")));
    assert!(handler.command_exists(&String::from("Lua")));
    assert!(!handler.command_exists(&String::from("ping")));
}

#[test]
fn lua_script_executes() {
    let handler = registry();
    let outcome =
        handler.execute_command(&vec![String::from("lua"), String::from("x = 1 + 1")]);
    assert!(matches!(outcome, ExecOutcome::Completed));
}

#[test]
fn lua_command_name_folds_case() {
    let handler = registry();
    let outcome =
        handler.execute_command(&vec![String::from("LUA"), String::from("x = 2")]);
    assert!(matches!(outcome, ExecOutcome::Completed));
}

#[test]
fn lua_state_persists_across_invocations() {
    let handler = registry();
    let first =
        handler.execute_command(&vec![String::from("lua"), String::from("shared = 41")]);
    assert!(matches!(first, ExecOutcome::Completed));
    let second = handler.execute_command(&vec![
        String::from("lua"),
        String::from("assert(shared == 41)"),
    ]);
    assert!(matches!(second, ExecOutcome::Completed));
}

#[test]
fn lua_without_script_reports_missing_argument() {
    let handler = registry();
    let outcome = handler.execute_command(&vec![String::from("lua")]);
    match outcome {
        ExecOutcome::Failed(e) => {
            assert_eq!(e.message(), "Missing required argument: 'script'");
        }
        _ => panic!("expected a failure for the missing script argument"),
    }
}

#[test]
fn lua_error_is_contained() {
    let handler = registry();
    let outcome = handler
        .execute_command(&vec![String::from("lua"), String::from("error('boom')")]);
    match outcome {
        ExecOutcome::Failed(CommandError::ScriptFailed(report)) => {
            assert!(report.contains("boom"));
        }
        _ => panic!("expected the script failure to be reported"),
    }
}

#[test]
fn lua_command_constructs() {
    let command = <LuaCommand as Command>::new().expect("construction must succeed");
    assert!(command.execute(&vec![String::from("y = 3")]).is_ok());
    assert!(command.execute(&Vec::new()).is_err());
}
