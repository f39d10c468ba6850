use album_sync::command::CliCommand;
use album_sync::error::SyncError;

#[test]
fn the_three_command_words_are_recognised() {
    assert!(matches!(CliCommand::from_str("upload"), Ok(CliCommand::Upload)));
    assert!(matches!(CliCommand::from_str("download"), Ok(CliCommand::Download)));
    assert!(matches!(CliCommand::from_str("list"), Ok(CliCommand::List)));
}

#[test]
fn an_unknown_word_is_an_invalid_command_carrying_it() {
    match CliCommand::from_str("sync") {
        Err(SyncError::InvalidCommand { command }) => assert_eq!(command, "sync"),
        other => panic!("expected InvalidCommand, got {:?}", other),
    }
    match CliCommand::from_str("") {
        Err(SyncError::InvalidCommand { command }) => assert_eq!(command, ""),
        other => panic!("expected InvalidCommand, got {:?}", other),
    }
    assert!(matches!(
        CliCommand::from_str("Upload"),
        Err(SyncError::InvalidCommand { .. })
    ));
}

#[test]
fn to_str_gives_the_command_word_back() {
    assert_eq!(CliCommand::Upload.to_str(), "upload");
    assert_eq!(CliCommand::Download.to_str(), "download");
    assert_eq!(CliCommand::List.to_str(), "list");
}

#[test]
fn from_str_and_to_str_round_trip() {
    for word in ["upload", "download", "list"] {
        let cmd = CliCommand::from_str(word).unwrap();
        assert_eq!(cmd.to_str(), word);
    }
}
