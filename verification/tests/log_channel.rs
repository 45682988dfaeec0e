use dofus_vision::log_channel::LogChannel;
use dofus_vision::log_channel::LogLevel;
use dofus_vision::log_channel::LogMessage;

fn msg(text: &str, level: LogLevel) -> LogMessage {
    LogMessage { timestamp: "00:00:00".to_owned(), level, message: text.to_owned() }
}

#[test]
fn drain_yields_messages_in_emission_order() {
    let mut ch = LogChannel::new();
    ch.emit(msg("E1", LogLevel::Info));
    ch.emit(msg("E2", LogLevel::Warning));
    ch.emit(msg("E3", LogLevel::Success));
    let out = ch.drain_available();
    let texts: Vec<&str> = out.iter().map(|m| m.message.as_str()).collect();
    assert_eq!(texts, vec!["E1", "E2", "E3"]);
    assert!(matches!(out[0].level, LogLevel::Info));
    assert!(matches!(out[1].level, LogLevel::Warning));
    assert!(matches!(out[2].level, LogLevel::Success));
}

#[test]
fn drain_leaves_the_channel_empty() {
    let mut ch = LogChannel::new();
    ch.emit(msg("only", LogLevel::Error));
    assert_eq!(ch.drain_available().len(), 1);
    assert!(ch.drain_available().is_empty());
    assert_eq!(ch.len(), 0);
}

/// `wanted` appears within `all`, in order, possibly interleaved with
/// other messages.
fn in_order(all: &[LogMessage], wanted: &[&str]) -> bool {
    let mut next = 0;
    for m in all {
        if next < wanted.len() && m.message == wanted[next] {
            next += 1;
        }
    }
    next == wanted.len()
}

#[test]
fn interleaved_producers_each_keep_their_order() {
    let mut ch = LogChannel::new();
    ch.emit(msg("A1", LogLevel::Info));
    ch.emit(msg("B1", LogLevel::Info));
    ch.emit(msg("A2", LogLevel::Info));
    ch.emit(msg("A3", LogLevel::Info));
    ch.emit(msg("B2", LogLevel::Info));
    let out = ch.drain_available();
    assert_eq!(out.len(), 5);
    assert!(in_order(&out, &["A1", "A2", "A3"]));
    assert!(in_order(&out, &["B1", "B2"]));
}
