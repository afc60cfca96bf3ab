use talking_head::cli::{reply_outcome, start_size, Commands};
use talking_head::ipc::{Command, Response, SizeValue};

#[test]
fn parse_size_named_sizes() {
    assert_eq!(Commands::parse_size("small"), Ok(128));
    assert_eq!(Commands::parse_size("medium"), Ok(200));
    assert_eq!(Commands::parse_size("large"), Ok(300));
}

#[test]
fn parse_size_ignores_case() {
    assert_eq!(Commands::parse_size("SMALL"), Ok(128));
    assert_eq!(Commands::parse_size("Medium"), Ok(200));
    assert_eq!(Commands::parse_size("lArGe"), Ok(300));
}

#[test]
fn parse_size_pixel_counts() {
    assert_eq!(Commands::parse_size("250"), Ok(250));
    assert_eq!(Commands::parse_size("+7"), Ok(7));
    assert_eq!(Commands::parse_size("0"), Ok(0));
    assert_eq!(Commands::parse_size("4294967295"), Ok(4294967295));
}

#[test]
fn parse_size_rejects_other_text() {
    assert_eq!(
        Commands::parse_size("huge"),
        Err("Invalid size 'huge': use small/medium/large or a pixel count".to_string())
    );
    assert_eq!(
        Commands::parse_size(""),
        Err("Invalid size '': use small/medium/large or a pixel count".to_string())
    );
    assert!(Commands::parse_size("4294967296").is_err());
    assert!(Commands::parse_size("-1").is_err());
    assert!(Commands::parse_size(" 5").is_err());
    assert!(Commands::parse_size("+").is_err());
}

#[test]
fn size_from_lowered_uses_the_lowercase_form() {
    assert_eq!(Commands::size_from_lowered("small", "SMALL"), Ok(128));
    assert_eq!(Commands::size_from_lowered("12", "12"), Ok(12));
}

#[test]
fn requests_of_subcommands() {
    assert_eq!(Commands::Stop.request(), Some(Ok(Command::Stop)));
    assert_eq!(Commands::Toggle.request(), Some(Ok(Command::Toggle)));
    assert_eq!(Commands::Status.request(), Some(Ok(Command::Status)));
    assert_eq!(Commands::Select.request(), Some(Ok(Command::Select)));
    assert_eq!(
        Commands::Size { value: "Large".to_string() }.request(),
        Some(Ok(Command::Size(SizeValue::Large)))
    );
    assert_eq!(
        Commands::Size { value: "250".to_string() }.request(),
        Some(Ok(Command::Size(SizeValue::Custom(250))))
    );
    assert_eq!(
        Commands::Size { value: "big".to_string() }.request(),
        Some(Err("invalid size 'big': use small/medium/large or pixels".to_string()))
    );
    assert_eq!(Commands::Devices.request(), None);
    assert_eq!(Commands::Install.request(), None);
    assert_eq!(
        Commands::Start { device: None, size: "medium".to_string(), foreground: false }.request(),
        None
    );
}

#[test]
fn start_size_refuses_while_running() {
    assert_eq!(start_size(true, "small"), Err("daemon is already running".to_string()));
    assert_eq!(start_size(false, "small"), Ok(128));
    assert_eq!(
        start_size(false, "x"),
        Err("Invalid size 'x': use small/medium/large or a pixel count".to_string())
    );
}

#[test]
fn reply_outcomes() {
    let done: Result<Response<u8>, String> = Ok(Response::Done);
    assert_eq!(reply_outcome(&done), Ok(()));
    let data: Result<Response<u8>, String> = Ok(Response::OkData(3));
    assert_eq!(reply_outcome(&data), Ok(()));
    let refused: Result<Response<u8>, String> = Ok(Response::Error("no camera".to_string()));
    assert_eq!(reply_outcome(&refused), Err("daemon error: no camera".to_string()));
    let failed: Result<Response<u8>, String> = Err("cannot connect".to_string());
    assert_eq!(reply_outcome(&failed), Err("cannot connect".to_string()));
}
