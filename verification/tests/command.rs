use chat_relay::chat::{
    adjust_capacity, parse_histsize, report_capacity, report_histsize, report_histsize_change,
    ChatError, Data, HistsizeCommand, Message, Role,
};

#[test]
fn the_command_alone_shows_the_capacity() {
    assert_eq!(parse_histsize("!histsize"), Ok(HistsizeCommand::Show));
    assert_eq!(parse_histsize("  !histsize \n"), Ok(HistsizeCommand::Show));
}

#[test]
fn one_number_changes_the_capacity() {
    assert_eq!(parse_histsize("!histsize 5"), Ok(HistsizeCommand::Change(5)));
    assert_eq!(parse_histsize("!histsize 0"), Ok(HistsizeCommand::Change(0)));
    assert_eq!(parse_histsize("!histsize\t+12 "), Ok(HistsizeCommand::Change(12)));
}

#[test]
fn a_negative_or_unreadable_capacity_is_invalid() {
    for content in ["!histsize -1", "!histsize five", "!histsize 1.5", "!histsize 99999999999999999999"] {
        assert_eq!(parse_histsize(content), Err(ChatError::InvalidCapacity), "{content:?}");
    }
}

#[test]
fn other_numbers_of_words_are_invalid_parameters() {
    for content in ["", "   ", "!histsize 1 2", "!histsize a b c"] {
        assert_eq!(parse_histsize(content), Err(ChatError::InvalidParameter), "{content:?}");
    }
}

#[test]
fn reports_are_written_as_lines() {
    assert_eq!(report_histsize(0), "histsize: 0");
    assert_eq!(report_histsize(20), "histsize: 20");
    assert_eq!(report_histsize_change(3, 1), "histsize: 3 -> 1");
    assert_eq!(report_histsize_change(0, 1000), "histsize: 0 -> 1000");
}

#[test]
fn an_invalid_command_leaves_the_store_alone() {
    let mut data = Data::new(2);
    data.add_history(Message { role: Role::User, content: "A".to_owned() });
    let line = match parse_histsize("!histsize -3") {
        Ok(HistsizeCommand::Show) => report_histsize(report_capacity(&data)),
        Ok(HistsizeCommand::Change(histsize)) => {
            let (previous, now) = adjust_capacity(&mut data, histsize);
            report_histsize_change(previous, now)
        }
        Err(_) => String::new(),
    };
    assert_eq!(line, "");
    assert_eq!(data.histsize(), 2);
    assert_eq!(data.len(), 1);
}

#[test]
fn a_command_runs_against_the_store() {
    let mut data = Data::new(3);
    for text in ["A", "B", "C"] {
        data.add_history(Message { role: Role::User, content: text.to_owned() });
    }
    let mut lines = Vec::new();
    for content in ["!histsize", "!histsize 1", "!histsize"] {
        lines.push(match parse_histsize(content) {
            Ok(HistsizeCommand::Show) => report_histsize(report_capacity(&data)),
            Ok(HistsizeCommand::Change(histsize)) => {
                let (previous, now) = adjust_capacity(&mut data, histsize);
                report_histsize_change(previous, now)
            }
            Err(_) => unreachable!(),
        });
    }
    assert_eq!(lines, vec!["histsize: 3", "histsize: 3 -> 1", "histsize: 1"]);
    assert_eq!(data.len(), 1);
}
