use arenta::clock::Date;
use arenta::command::{
    parse_args, parse_command, parse_command_on, same_text, split_whitespace, try_parse_bv,
    try_parse_date,
    try_parse_date_filter, try_parse_date_filter_on, try_parse_date_on, try_parse_list_option,
    Command, DateFilterOp, ListOption,
};
use chrono::{Datelike, Days, Local, NaiveDate};

fn date(day: Option<NaiveDate>) -> Option<Date> {
    day.map(|day| Date::new(i64::from(day.to_epoch_days())))
}

fn ymd(year: i32, month: u32, day: u32) -> Date {
    date(NaiveDate::from_ymd_opt(year, month, day)).unwrap()
}

fn words(line: &[&str]) -> Vec<String> {
    line.iter().map(|word| word.to_string()).collect()
}

#[test]
fn test_try_parse_date() {
    assert_eq!(
        try_parse_date("01-26"),
        date(NaiveDate::from_ymd_opt(Local::now().year(), 1, 26))
    );
    assert_eq!(try_parse_date("01-32"), None);
    assert_eq!(
        try_parse_date("2023-01-27"),
        date(NaiveDate::from_ymd_opt(2023, 1, 27))
    );
    let today = Local::now().date_naive();
    assert_eq!(try_parse_date("+2"), date(today.checked_add_days(Days::new(2))));
    assert_eq!(try_parse_date("3"), date(today.checked_add_days(Days::new(3))));
    assert_eq!(try_parse_date("-1"), date(today.checked_sub_days(Days::new(1))));
}

#[test]
fn test_try_parse_date_filter() {
    let today = Local::now().date_naive();
    assert_eq!(
        try_parse_date_filter(">=1"),
        Some((
            DateFilterOp::LaterEqual,
            date(today.checked_add_days(Days::new(1))).unwrap()
        ))
    );
    assert_eq!(
        try_parse_date_filter(">-2"),
        Some((
            DateFilterOp::Later,
            date(today.checked_sub_days(Days::new(2))).unwrap()
        ))
    );
    assert_eq!(
        try_parse_date_filter("0"),
        Some((DateFilterOp::Equal, date(Some(today)).unwrap()))
    );
    assert_eq!(
        try_parse_date_filter("<4"),
        Some((
            DateFilterOp::Earlier,
            date(today.checked_add_days(Days::new(4))).unwrap()
        ))
    );
    assert_eq!(
        try_parse_date_filter("<=-1"),
        Some((
            DateFilterOp::EarlierEqual,
            date(today.checked_sub_days(Days::new(1))).unwrap()
        ))
    );
}

#[test]
fn test_parse_command() {
    assert_eq!(parse_command(""), Some(Command::Empty));
    assert_eq!(parse_command("  "), Some(Command::Empty));
    assert_eq!(parse_command("q "), Some(Command::Quit));
    assert_eq!(parse_command(" quit "), Some(Command::Quit));
    assert_eq!(parse_command("h"), Some(Command::Help));
    assert_eq!(parse_command(" help"), Some(Command::Help));
    assert_eq!(parse_command("n"), Some(Command::New));
    assert_eq!(parse_command("new"), Some(Command::New));
    assert_eq!(parse_command("sort "), Some(Command::Sort));
    assert_eq!(parse_command("s 1"), Some(Command::Start(1)));
    assert_eq!(parse_command("start 2"), Some(Command::Start(2)));
    assert_eq!(parse_command("start a"), None);
    assert_eq!(parse_command("c 1"), Some(Command::Complete(1)));
    assert_eq!(parse_command("complete 2"), Some(Command::Complete(2)));
    assert_eq!(parse_command("complete a"), None);
    assert_eq!(parse_command("d 1"), None);
    assert_eq!(parse_command("delete 2"), Some(Command::Delete(2)));
    assert_eq!(parse_command("delete a"), None);
    assert_eq!(parse_command("e 1"), Some(Command::Edit(1)));
    assert_eq!(parse_command("edit 2"), Some(Command::Edit(2)));
    assert_eq!(parse_command("edit a"), None);
    assert_eq!(
        parse_command("ls"),
        Some(Command::List(ListOption::default()))
    );
    let date_filter = (
        DateFilterOp::LaterEqual,
        date(Local::now().date_naive().checked_add_days(Days::new(1))).unwrap(),
    );
    assert_eq!(
        parse_command("ls >=1"),
        Some(Command::List(ListOption {
            date_filter,
            ..ListOption::default()
        }))
    );
    assert_eq!(
        parse_command("ls >=1 b"),
        Some(Command::List(ListOption {
            date_filter,
            include_backlog: true,
            ..ListOption::default()
        }))
    );
    assert_eq!(
        parse_command("ls bv >=1"),
        Some(Command::List(ListOption {
            date_filter,
            include_backlog: true,
            is_verbose: true,
            ..ListOption::default()
        }))
    );
    assert_eq!(
        parse_command("ll"),
        Some(Command::List(ListOption {
            has_timeline: true,
            ..ListOption::default()
        }))
    );
    assert_eq!(parse_command("ll >=1"), None);
    assert_eq!(
        parse_command("ll b 1"),
        Some(Command::List(ListOption {
            date_filter: (
                DateFilterOp::Equal,
                date(Local::now().date_naive().checked_add_days(Days::new(1))).unwrap(),
            ),
            include_backlog: true,
            has_timeline: true,
            ..ListOption::default()
        }))
    );
    assert_eq!(
        parse_command("ll vb"),
        Some(Command::List(ListOption {
            include_backlog: true,
            is_verbose: true,
            has_timeline: true,
            ..ListOption::default()
        }))
    );
}

#[test]
fn flags_are_any_mix_of_b_and_v() {
    assert_eq!(try_parse_bv("b"), Some((true, false)));
    assert_eq!(try_parse_bv("v"), Some((false, true)));
    assert_eq!(try_parse_bv("bv"), Some((true, true)));
    assert_eq!(try_parse_bv("vvbb"), Some((true, true)));
    assert_eq!(try_parse_bv(""), Some((false, false)));
    assert_eq!(try_parse_bv("bx"), None);
    assert_eq!(try_parse_bv("B"), None);
    assert_eq!(try_parse_bv("b v"), None);
}

#[test]
fn texts_compare_by_characters() {
    assert!(same_text("ls", "ls"));
    assert!(!same_text("ls", "ll"));
    assert!(!same_text("ls", "l"));
    assert!(!same_text("", "l"));
    assert!(same_text("", ""));
}

#[test]
fn dates_are_read_in_three_forms() {
    let today = ymd(2023, 1, 26);
    assert_eq!(try_parse_date_on("02-28", today), Some(ymd(2023, 2, 28)));
    assert_eq!(try_parse_date_on("02-29", today), None);
    assert_eq!(try_parse_date_on("02-29", ymd(2024, 5, 1)), Some(ymd(2024, 2, 29)));
    assert_eq!(try_parse_date_on("2022-12-31", today), Some(ymd(2022, 12, 31)));
    assert_eq!(try_parse_date_on("2022-13-01", today), None);
    assert_eq!(try_parse_date_on("0", today), Some(today));
    assert_eq!(try_parse_date_on("+6", today), Some(ymd(2023, 2, 1)));
    assert_eq!(try_parse_date_on("6", today), Some(ymd(2023, 2, 1)));
    assert_eq!(try_parse_date_on("-26", today), Some(ymd(2022, 12, 31)));
    assert_eq!(try_parse_date_on("-0", today), Some(today));
    assert_eq!(try_parse_date_on("365", today), Some(ymd(2024, 1, 26)));
    assert_eq!(try_parse_date_on("2147483647", today), None);
    assert_eq!(try_parse_date_on("2147483648", today), None);
    assert_eq!(try_parse_date_on("-2147483648", today), None);
    assert_eq!(try_parse_date_on("", today), None);
    assert_eq!(try_parse_date_on("+", today), None);
    assert_eq!(try_parse_date_on("-", today), None);
    assert_eq!(try_parse_date_on("1 ", today), None);
    assert_eq!(try_parse_date_on("tomorrow", today), None);
    assert_eq!(try_parse_date_on("12-3a", today), None);
    assert_eq!(try_parse_date_on("\u{e9}\u{20ac}", today), None);
    assert_eq!(try_parse_date_on("01-26", Date::new(i64::MAX)), None);
    assert_eq!(try_parse_date_on("1", Date::new(i64::MAX)), None);
    assert_eq!(try_parse_date_on("-1", Date::new(i64::MIN)), None);
    assert_eq!(try_parse_date_on("0", Date::new(i64::MAX)), Some(Date::new(i64::MAX)));
}

#[test]
fn date_filters_start_with_a_comparison() {
    let today = ymd(2023, 1, 26);
    assert_eq!(try_parse_date_filter_on(">=1", today), Some((DateFilterOp::LaterEqual, ymd(2023, 1, 27))));
    assert_eq!(try_parse_date_filter_on(">01-27", today), Some((DateFilterOp::Later, ymd(2023, 1, 27))));
    assert_eq!(
        try_parse_date_filter_on("<=2023-01-27", today),
        Some((DateFilterOp::EarlierEqual, ymd(2023, 1, 27)))
    );
    assert_eq!(try_parse_date_filter_on("<-1", today), Some((DateFilterOp::Earlier, ymd(2023, 1, 25))));
    assert_eq!(try_parse_date_filter_on("-1", today), Some((DateFilterOp::Equal, ymd(2023, 1, 25))));
    assert_eq!(try_parse_date_filter_on(">", today), None);
    assert_eq!(try_parse_date_filter_on(">=", today), None);
    assert_eq!(try_parse_date_filter_on("=1", today), None);
    assert_eq!(try_parse_date_filter_on("=>1", today), None);
    assert_eq!(try_parse_date_filter_on("<<1", today), None);
    assert_eq!(try_parse_date_filter_on("b", today), None);
}

#[test]
fn list_options_take_up_to_two_words() {
    let today = ymd(2023, 1, 26);
    let default = || ListOption::default_for(today);
    assert_eq!(default().date_filter, (DateFilterOp::Equal, today));
    assert!(!default().include_backlog && !default().is_verbose && !default().has_timeline);
    assert_eq!(try_parse_list_option(&words(&["ls"]), today), Some(default()));
    assert_eq!(try_parse_list_option(&words(&["lx"]), today), None);
    assert_eq!(try_parse_list_option(&words(&[]), today), None);
    assert_eq!(
        try_parse_list_option(&words(&["ls", "v", "<1"]), today),
        Some(ListOption { date_filter: (DateFilterOp::Earlier, ymd(2023, 1, 27)), is_verbose: true, ..default() })
    );
    assert_eq!(
        try_parse_list_option(&words(&["ls", "1", "2"]), today),
        Some(ListOption { date_filter: (DateFilterOp::Equal, ymd(2023, 1, 28)), ..default() })
    );
    assert_eq!(
        try_parse_list_option(&words(&["ls", "b", "v"]), today),
        Some(ListOption { is_verbose: true, ..default() })
    );
    assert_eq!(try_parse_list_option(&words(&["ls", "x"]), today), None);
    assert_eq!(try_parse_list_option(&words(&["ls", "b", "x"]), today), None);
    assert_eq!(
        try_parse_list_option(&words(&["ls", "b", "v", "x"]), today),
        Some(ListOption { is_verbose: true, ..default() })
    );
    assert_eq!(try_parse_list_option(&words(&["ll", "<1"]), today), None);
    assert_eq!(try_parse_list_option(&words(&["ll", "b", ">=0"]), today), None);
    assert_eq!(
        try_parse_list_option(&words(&["ll", "-1"]), today),
        Some(ListOption { date_filter: (DateFilterOp::Equal, ymd(2023, 1, 25)), has_timeline: true, ..default() })
    );
}

#[test]
fn commands_are_read_word_by_word() {
    let today = ymd(2023, 1, 26);
    assert_eq!(parse_args(&words(&[]), today), Some(Command::Empty));
    assert_eq!(parse_args(&words(&["quit"]), today), Some(Command::Quit));
    assert_eq!(parse_args(&words(&["quit", "now"]), today), None);
    assert_eq!(parse_args(&words(&["sort", "1"]), today), None);
    assert_eq!(parse_args(&words(&["s"]), today), None);
    assert_eq!(parse_args(&words(&["s", "+7"]), today), Some(Command::Start(7)));
    assert_eq!(parse_args(&words(&["s", "007", "x"]), today), Some(Command::Start(7)));
    assert_eq!(parse_args(&words(&["s", "-1"]), today), None);
    assert_eq!(parse_args(&words(&["s", "-0"]), today), None);
    assert_eq!(parse_args(&words(&["e", "99999999999999999999999999"]), today), None);
    assert_eq!(
        parse_args(&words(&["c", "18446744073709551615"]), today),
        "18446744073709551615".parse::<usize>().ok().map(Command::Complete)
    );
    assert_eq!(parse_args(&words(&["del", "1"]), today), None);
    assert_eq!(parse_args(&words(&["ls", "??"]), today), None);
    assert_eq!(
        parse_args(&words(&["ll", "bv"]), today),
        Some(Command::List(ListOption {
            include_backlog: true,
            is_verbose: true,
            has_timeline: true,
            ..ListOption::default_for(today)
        }))
    );
}

#[test]
fn lines_are_split_at_any_whitespace() {
    let today = ymd(2023, 1, 26);
    assert_eq!(parse_command_on("\t start \u{a0} 12\n", today), Some(Command::Start(12)));
    assert_eq!(parse_command_on("start12", today), None);
    assert_eq!(parse_command_on("\u{3000}", today), Some(Command::Empty));
    assert_eq!(
        parse_command_on("ls  02-01   b", today),
        Some(Command::List(ListOption {
            date_filter: (DateFilterOp::Equal, ymd(2023, 2, 1)),
            include_backlog: true,
            ..ListOption::default_for(today)
        }))
    );
}

#[test]
fn words_are_the_runs_between_white_space() {
    assert_eq!(split_whitespace(""), Vec::<String>::new());
    assert_eq!(split_whitespace(" \t\n "), Vec::<String>::new());
    assert_eq!(split_whitespace("ls"), vec!["ls"]);
    assert_eq!(split_whitespace("  ls   02-01 bv "), vec!["ls", "02-01", "bv"]);
    assert_eq!(split_whitespace("a\u{a0}b\u{2003}c\u{3000}d\u{85}e"), vec!["a", "b", "c", "d", "e"]);
    assert_eq!(split_whitespace("a\u{200b}b \u{feff}c"), vec!["a\u{200b}b", "\u{feff}c"]);
    for line in ["", "x", " x", "x ", " \u{1680}x\u{2028}\u{2029}y\u{202f}z\u{205f}", "\u{e9}t\u{e9} \u{20ac}"] {
        let expected: Vec<String> = line.split_whitespace().map(|word| word.to_string()).collect();
        assert_eq!(split_whitespace(line), expected);
    }
}
