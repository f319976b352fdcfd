//! Commands and list options.
use vstd::prelude::*;
use vstd::string::*;
use vstd::utf8::encode_utf8;
use chrono::Datelike;
use crate::clock::{now, Date};
use crate::task::{decimal, decimal_text};

verus! {

/// How a timestamp's calendar day is compared with a reference day.
#[derive(Copy, Clone, Debug, PartialEq, Eq, Structural)]
pub enum DateFilterOp {
    Earlier,
    EarlierEqual,
    Equal,
    Later,
    LaterEqual,
}

/// What a listing shows: which days, whether the backlog is included, how
/// much detail, and whether a timeline is drawn.
#[derive(Debug, PartialEq)]
pub struct ListOption {
    pub date_filter: (DateFilterOp, Date),
    pub include_backlog: bool,
    pub is_verbose: bool,
    pub has_timeline: bool,
}

/// What a line typed at the prompt asks for.
#[derive(Debug, PartialEq)]
pub enum Command {
    Empty,
    Quit,
    Help,
    New,
    Sort,
    Start(usize),
    Complete(usize),
    Delete(usize),
    Edit(usize),
    List(ListOption),
}

impl DateFilterOp {
    /// Whether day `day` stands in this relation to day `reference`.
    pub open spec fn holds(self, day: int, reference: int) -> bool {
        match self {
            DateFilterOp::Earlier => day < reference,
            DateFilterOp::EarlierEqual => day <= reference,
            DateFilterOp::Equal => day == reference,
            DateFilterOp::Later => day > reference,
            DateFilterOp::LaterEqual => day >= reference,
        }
    }
}

impl ListOption {
    /// The listing shown when nothing is asked for: tasks of `today` only,
    /// no backlog, terse, no timeline.
    pub open spec fn default_on(today: Date) -> ListOption {
        ListOption {
            date_filter: (DateFilterOp::Equal, today),
            include_backlog: false,
            is_verbose: false,
            has_timeline: false,
        }
    }

    /// The listing shown when nothing is asked for, today being read from
    /// the system clock.
    pub fn default() -> (option: ListOption)
        ensures
            exists|today: Date| option == ListOption::default_on(today),
    {
        ListOption::default_for(now().date_naive())
    }

    pub fn default_for(today: Date) -> (option: ListOption)
        ensures
            option == ListOption::default_on(today),
    {
        ListOption {
            date_filter: (DateFilterOp::Equal, today),
            include_backlog: false,
            is_verbose: false,
            has_timeline: false,
        }
    }
}

/// Whether `c` separates words: whether it has the Unicode property
/// White_Space, as `char::is_whitespace` tells.
pub uninterp spec fn white_space(c: char) -> bool;

/// The words of `text` from position `at` on, where the word that `at` is
/// in, if any, began at `word_start`.
pub open spec fn split_from(text: Seq<char>, at: int, word_start: int) -> Seq<Seq<char>>
    decreases text.len() - at,
{
    if at >= text.len() {
        if word_start < at {
            seq![text.subrange(word_start, at)]
        } else {
            Seq::empty()
        }
    } else if !white_space(text[at]) {
        split_from(text, at + 1, word_start)
    } else if word_start < at {
        seq![text.subrange(word_start, at)] + split_from(text, at + 1, at + 1)
    } else {
        split_from(text, at + 1, at + 1)
    }
}

/// The words of a line: its longest runs of characters that are not white
/// space, in order.
pub open spec fn whitespace_tokens(text: Seq<char>) -> Seq<Seq<char>> {
    split_from(text, 0, 0)
}

/// The day, counted from 1970-01-01, that `chrono` reads from a text in the
/// form year-month-day, if it reads one.
pub uninterp spec fn iso_day(text: Seq<char>) -> Option<i64>;

/// The calendar year of a day counted from 1970-01-01, where `chrono` has
/// a date for that day.
pub uninterp spec fn year_of_day(day: i64) -> Option<i32>;

/// The day `days` days after `day`, where `chrono` has dates for both.
pub uninterp spec fn day_plus(day: i64, days: u64) -> Option<i64>;

/// The day `days` days before `day`, where `chrono` has dates for both.
pub uninterp spec fn day_minus(day: i64, days: u64) -> Option<i64>;

/// The date of a day number, if there is one.
pub open spec fn date_of(day: Option<i64>) -> Option<Date> {
    match day {
        Some(days) => Some(Date { days }),
        None => None,
    }
}

/// Whether `c` is one of the digits `0` to `9`.
pub open spec fn is_digit(c: char) -> bool {
    '0' <= c <= '9'
}

/// The number that a run of digits spells in base ten.
pub open spec fn digits_value(digits: Seq<char>) -> nat
    decreases digits.len(),
{
    if digits.len() == 0 {
        0
    } else {
        (digits_value(digits.drop_last()) * 10 + (digits.last() as nat - 48)) as nat
    }
}

/// Whether `digits` is one digit or more and nothing else.
pub open spec fn all_digits(digits: Seq<char>) -> bool {
    digits.len() > 0 && forall|i: int| 0 <= i < digits.len() ==> is_digit(#[trigger] digits[i])
}

/// The number spelled by `text`: digits, with `+` allowed in front, and `-`
/// too where `signed`.
pub open spec fn number(text: Seq<char>, signed: bool) -> Option<int> {
    if text.len() > 0 && text[0] == '+' && all_digits(text.skip(1)) {
        Some(digits_value(text.skip(1)) as int)
    } else if signed && text.len() > 0 && text[0] == '-' && all_digits(text.skip(1)) {
        Some(-(digits_value(text.skip(1)) as int))
    } else if all_digits(text) {
        Some(digits_value(text) as int)
    } else {
        None
    }
}

/// The task number spelled by `text`, if it spells one that fits `usize`.
pub open spec fn parsed_usize(text: Seq<char>) -> Option<usize> {
    match number(text, false) {
        Some(n) => if n <= usize::MAX {
            Some(n as usize)
        } else {
            None
        },
        None => None,
    }
}

/// The day offset spelled by `text`, if it spells one that fits `i32`.
pub open spec fn parsed_i32(text: Seq<char>) -> Option<i32> {
    match number(text, true) {
        Some(n) => if i32::MIN <= n <= i32::MAX {
            Some(n as i32)
        } else {
            None
        },
        None => None,
    }
}

/// A whole number in decimal digits, with `-` in front when negative.
pub open spec fn signed_decimal(n: int) -> Seq<char> {
    if n < 0 {
        "-"@ + decimal((-n) as nat)
    } else {
        decimal(n as nat)
    }
}

/// Whether `arg` has the shape month-day: five bytes, the third character
/// a hyphen.
pub open spec fn is_short_date(arg: Seq<char>) -> bool {
    encode_utf8(arg).len() as usize == 5 && arg.len() > 2 && arg[2] == '-'
}

/// The date that the month-day text `arg` names in the year of `today`.
pub open spec fn dated_this_year(arg: Seq<char>, today: Date) -> Option<Date> {
    match year_of_day(today.days) {
        Some(year) => date_of(iso_day(signed_decimal(year as int) + "-"@ + arg)),
        None => None,
    }
}

/// The date `offset` days from `today`, backwards when negative.
pub open spec fn day_offset(today: Date, offset: i32) -> Option<Date> {
    if offset > 0 {
        date_of(day_plus(today.days, offset as u64))
    } else if offset < 0 {
        date_of(day_minus(today.days, (-offset) as u64))
    } else {
        Some(today)
    }
}

/// The date that `arg` names: a month and day of this year, else a full
/// date, else a number of days from today.
pub open spec fn parsed_date(arg: Seq<char>, today: Date) -> Option<Date> {
    if is_short_date(arg) && dated_this_year(arg, today) is Some {
        dated_this_year(arg, today)
    } else if iso_day(arg) is Some {
        date_of(iso_day(arg))
    } else {
        match parsed_i32(arg) {
            Some(offset) => day_offset(today, offset),
            None => None,
        }
    }
}

/// The comparison that `arg` starts with, and how many characters spell it.
/// No sign in front means equality.
pub open spec fn filter_prefix(arg: Seq<char>) -> (DateFilterOp, int) {
    if arg.len() >= 2 && arg[0] == '>' && arg[1] == '=' {
        (DateFilterOp::LaterEqual, 2)
    } else if arg.len() >= 1 && arg[0] == '>' {
        (DateFilterOp::Later, 1)
    } else if arg.len() >= 2 && arg[0] == '<' && arg[1] == '=' {
        (DateFilterOp::EarlierEqual, 2)
    } else if arg.len() >= 1 && arg[0] == '<' {
        (DateFilterOp::Earlier, 1)
    } else {
        (DateFilterOp::Equal, 0)
    }
}

/// The date filter that `arg` spells: a comparison sign, then a date.
pub open spec fn parsed_date_filter(arg: Seq<char>, today: Date) -> Option<(DateFilterOp, Date)> {
    let (op, width) = filter_prefix(arg);
    match parsed_date(arg.skip(width), today) {
        Some(date) => Some((op, date)),
        None => None,
    }
}

/// The flags that `arg` spells, backlog first and verbose second, where it
/// holds no character but `b` and `v`.
pub open spec fn parsed_bv(arg: Seq<char>) -> Option<(bool, bool)> {
    if forall|i: int| 0 <= i < arg.len() ==> #[trigger] arg[i] == 'b' || arg[i] == 'v' {
        Some((arg.contains('b'), arg.contains('v')))
    } else {
        None
    }
}

/// `option` after the word `arg` of a listing command, or nothing where
/// the word is neither a date filter nor flags. Where it could be both, the
/// date filter wins if `date_first`, the flags otherwise.
pub open spec fn with_list_word(option: ListOption, arg: Seq<char>, today: Date, date_first: bool) -> Option<
    ListOption,
> {
    let filter = parsed_date_filter(arg, today);
    let flags = parsed_bv(arg);
    if filter is Some && (date_first || flags is None) {
        Some(ListOption { date_filter: filter->0, ..option })
    } else {
        match flags {
            Some((include_backlog, is_verbose)) => Some(
                ListOption { include_backlog, is_verbose, ..option },
            ),
            None => None,
        }
    }
}

/// `option` after the word at position `at` of `args`, if there is one.
pub open spec fn with_list_word_at(
    option: Option<ListOption>,
    args: Seq<Seq<char>>,
    at: int,
    today: Date,
) -> Option<ListOption> {
    match option {
        Some(so_far) => if at < args.len() {
            with_list_word(so_far, args[at], today, at == 1)
        } else {
            option
        },
        None => None,
    }
}

/// The listing that the words `args` ask for: `ls` or `ll`, then up to two
/// words that give a date filter and flags. A timeline takes no comparison
/// but equality.
pub open spec fn parsed_list_option(args: Seq<Seq<char>>, today: Date) -> Option<ListOption> {
    if args.len() == 0 || (args[0] != "ls"@ && args[0] != "ll"@) {
        None
    } else {
        let start = ListOption { has_timeline: args[0] != "ls"@, ..ListOption::default_on(today) };
        match with_list_word_at(with_list_word_at(Some(start), args, 1, today), args, 2, today) {
            Some(option) => if option.has_timeline && option.date_filter.0 != DateFilterOp::Equal {
                None
            } else {
                Some(option)
            },
            None => None,
        }
    }
}

/// The command with a task number that the words `args` spell, if any.
pub open spec fn parsed_numbered(args: Seq<Seq<char>>) -> Option<Command> {
    if args.len() < 2 {
        None
    } else {
        match parsed_usize(args[1]) {
            Some(index) => if args[0] == "s"@ || args[0] == "start"@ {
                Some(Command::Start(index))
            } else if args[0] == "c"@ || args[0] == "complete"@ {
                Some(Command::Complete(index))
            } else if args[0] == "delete"@ {
                Some(Command::Delete(index))
            } else if args[0] == "e"@ || args[0] == "edit"@ {
                Some(Command::Edit(index))
            } else {
                None
            },
            None => None,
        }
    }
}

/// The command that the words `args` of a line spell, if any.
pub open spec fn parsed_command(args: Seq<Seq<char>>, today: Date) -> Option<Command> {
    if args.len() == 0 {
        Some(Command::Empty)
    } else if args.len() == 1 && (args[0] == "q"@ || args[0] == "quit"@) {
        Some(Command::Quit)
    } else if args.len() == 1 && (args[0] == "h"@ || args[0] == "help"@) {
        Some(Command::Help)
    } else if args.len() == 1 && (args[0] == "n"@ || args[0] == "new"@) {
        Some(Command::New)
    } else if args.len() == 1 && args[0] == "sort"@ {
        Some(Command::Sort)
    } else if args[0] == "ls"@ || args[0] == "ll"@ {
        match parsed_list_option(args, today) {
            Some(option) => Some(Command::List(option)),
            None => None,
        }
    } else {
        parsed_numbered(args)
    }
}

/// The texts of a list of words.
pub open spec fn texts(words: Seq<String>) -> Seq<Seq<char>> {
    Seq::new(words.len(), |i: int| words[i]@)
}

/// `char::is_whitespace`: whether `c` has the Unicode property White_Space.
#[verifier::external_body]
fn is_whitespace(c: char) -> (b: bool)
    ensures
        b == white_space(c),
{
    c.is_whitespace()
}

/// The words of `text`, in order. None of them is empty.
pub fn split_whitespace(text: &str) -> (words: Vec<String>)
    ensures
        texts(words@) == whitespace_tokens(text@),
        forall|i: int| 0 <= i < words@.len() ==> (#[trigger] words@[i])@.len() > 0,
{
    let n: usize = text.unicode_len();
    let mut words: Vec<String> = Vec::new();
    let mut word_start: usize = 0;
    let mut at: usize = 0;
    assert(texts(words@) + split_from(text@, 0, 0) =~= whitespace_tokens(text@));
    while at < n
        invariant
            word_start <= at <= n,
            n == text@.len(),
            texts(words@) + split_from(text@, at as int, word_start as int) == whitespace_tokens(
                text@,
            ),
            forall|i: int| 0 <= i < words@.len() ==> (#[trigger] words@[i])@.len() > 0,
        decreases n - at,
    {
        let ghost rest = split_from(text@, at as int + 1, at as int + 1);
        let ghost found = texts(words@);
        if is_whitespace(text.get_char(at)) {
            if word_start < at {
                let word = String::from_str(text.substring_char(word_start, at));
                words.push(word);
                assert(texts(words@) =~= found.push(word@));
                assert(texts(words@) + rest =~= found + (seq![word@] + rest));
            }
            word_start = at + 1;
        }
        at += 1;
    }
    if word_start < at {
        let ghost found = texts(words@);
        let word = String::from_str(text.substring_char(word_start, at));
        words.push(word);
        assert(texts(words@) =~= found + seq![word@]);
    } else {
        assert(texts(words@) + Seq::<Seq<char>>::empty() =~= texts(words@));
    }
    words
}

/// `str::parse::<usize>`: the number that `text` spells in decimal digits,
/// a `+` allowed in front, where it fits `usize`.
#[verifier::external_body]
fn parse_usize(text: &str) -> (n: Option<usize>)
    ensures
        n == parsed_usize(text@),
{
    text.parse::<usize>().ok()
}

/// `str::parse::<i32>`: the number that `text` spells in decimal digits, a
/// `+` or `-` allowed in front, where it fits `i32`.
#[verifier::external_body]
fn parse_i32(text: &str) -> (n: Option<i32>)
    ensures
        n == parsed_i32(text@),
{
    text.parse::<i32>().ok()
}

/// `chrono::NaiveDate::parse_from_str` with the format `%F`: the date that
/// `text` spells as year-month-day, if it spells one.
#[verifier::external_body]
fn parse_iso_date(text: &str) -> (date: Option<Date>)
    ensures
        date == date_of(iso_day(text@)),
{
    chrono::NaiveDate::parse_from_str(text, "%F").ok().map(
        |date| Date { days: i64::from(date.to_epoch_days()) },
    )
}

/// `chrono::Datelike::year` of the `chrono::NaiveDate` for `date`: its
/// calendar year, where `chrono` has such a date.
#[verifier::external_body]
fn year_of(date: Date) -> (year: Option<i32>)
    ensures
        year == year_of_day(date.days),
{
    let day = i32::try_from(date.days).ok()?;
    Some(chrono::NaiveDate::from_epoch_days(day)?.year())
}

/// `chrono::NaiveDate::checked_add_days`: the date `days` days after
/// `date`, where `chrono` has dates for both.
#[verifier::external_body]
fn checked_add_days(date: Date, days: u64) -> (later: Option<Date>)
    ensures
        later == date_of(day_plus(date.days, days)),
{
    let day = i32::try_from(date.days).ok()?;
    let later = chrono::NaiveDate::from_epoch_days(day)?.checked_add_days(chrono::Days::new(days))?;
    Some(Date { days: i64::from(later.to_epoch_days()) })
}

/// `chrono::NaiveDate::checked_sub_days`: the date `days` days before
/// `date`, where `chrono` has dates for both.
#[verifier::external_body]
fn checked_sub_days(date: Date, days: u64) -> (earlier: Option<Date>)
    ensures
        earlier == date_of(day_minus(date.days, days)),
{
    let day = i32::try_from(date.days).ok()?;
    let earlier = chrono::NaiveDate::from_epoch_days(day)?.checked_sub_days(chrono::Days::new(days))?;
    Some(Date { days: i64::from(earlier.to_epoch_days()) })
}

/// Whether two texts are the same.
pub fn same_text(a: &str, b: &str) -> (same: bool)
    ensures
        same == (a@ == b@),
{
    let n: usize = a.unicode_len();
    if b.unicode_len() != n {
        return false;
    }
    let mut i: usize = 0;
    while i < n
        invariant
            i <= n,
            n == a@.len(),
            n == b@.len(),
            forall|k: int| 0 <= k < i ==> a@[k] == b@[k],
        decreases n - i,
    {
        if a.get_char(i) != b.get_char(i) {
            return false;
        }
        i += 1;
    }
    assert(a@ =~= b@);
    true
}

/// A year in decimal digits, with `-` in front when negative.
fn year_text(year: i32) -> (text: String)
    ensures
        text@ == signed_decimal(year as int),
{
    if year < 0 {
        let mut text = String::from_str("-");
        text.append(decimal_text((-(year as i64)) as u64).as_str());
        text
    } else {
        decimal_text(year as u64)
    }
}

pub fn try_parse_bv(arg: &str) -> (flags: Option<(bool, bool)>)
    ensures
        flags == parsed_bv(arg@),
{
    let n: usize = arg.unicode_len();
    let mut has_b: bool = false;
    let mut has_v: bool = false;
    let mut i: usize = 0;
    while i < n
        invariant
            i <= n,
            n == arg@.len(),
            forall|k: int| 0 <= k < i ==> #[trigger] arg@[k] == 'b' || arg@[k] == 'v',
            has_b == arg@.take(i as int).contains('b'),
            has_v == arg@.take(i as int).contains('v'),
        decreases n - i,
    {
        let c: char = arg.get_char(i);
        if c != 'b' && c != 'v' {
            return None;
        }
        proof {
            let before = arg@.take(i as int);
            let after = arg@.take(i as int + 1);
            assert(after[i as int] == c);
            assert forall|x: char| after.contains(x) <==> (before.contains(x) || x == c) by {
                if before.contains(x) {
                    let k = choose|k: int| 0 <= k < before.len() && before[k] == x;
                    assert(after[k] == x);
                }
            }
        }
        has_b = has_b || c == 'b';
        has_v = has_v || c == 'v';
        i += 1;
    }
    assert(arg@.take(n as int) =~= arg@);
    Some((has_b, has_v))
}

/// The date that `arg` names, counting from `today`.
pub fn try_parse_date_on(arg: &str, today: Date) -> (date: Option<Date>)
    ensures
        date == parsed_date(arg@, today),
{
    if arg.len() == 5 && arg.unicode_len() > 2 && arg.get_char(2) == '-' {
        match year_of(today) {
            Some(year) => {
                let mut text = year_text(year);
                text.append("-");
                text.append(arg);
                let dated = parse_iso_date(text.as_str());
                if dated.is_some() {
                    return dated;
                }
            },
            None => {},
        }
    }
    let dated = parse_iso_date(arg);
    if dated.is_some() {
        return dated;
    }
    match parse_i32(arg) {
        Some(offset) => {
            if offset > 0 {
                checked_add_days(today, offset as u64)
            } else if offset < 0 {
                checked_sub_days(today, (-(offset as i64)) as u64)
            } else {
                Some(today)
            }
        },
        None => None,
    }
}

/// The date that `arg` names, counting from the system clock's today.
pub fn try_parse_date(arg: &str) -> (date: Option<Date>)
    ensures
        exists|today: Date| date == parsed_date(arg@, today),
{
    try_parse_date_on(arg, now().date_naive())
}

/// The date filter that `arg` spells, counting from `today`.
pub fn try_parse_date_filter_on(arg: &str, today: Date) -> (filter: Option<(DateFilterOp, Date)>)
    requires
        arg@.len() > 0,
    ensures
        filter == parsed_date_filter(arg@, today),
{
    let n: usize = arg.unicode_len();
    let first: char = arg.get_char(0);
    let second_is_equals: bool = n >= 2 && arg.get_char(1) == '=';
    let (op, width): (DateFilterOp, usize) = if first == '>' && second_is_equals {
        (DateFilterOp::LaterEqual, 2)
    } else if first == '>' {
        (DateFilterOp::Later, 1)
    } else if first == '<' && second_is_equals {
        (DateFilterOp::EarlierEqual, 2)
    } else if first == '<' {
        (DateFilterOp::Earlier, 1)
    } else {
        (DateFilterOp::Equal, 0)
    };
    let rest: &str = arg.substring_char(width, n);
    match try_parse_date_on(rest, today) {
        Some(date) => Some((op, date)),
        None => None,
    }
}

/// The date filter that `arg` spells, counting from the system clock's
/// today.
pub fn try_parse_date_filter(arg: &str) -> (filter: Option<(DateFilterOp, Date)>)
    requires
        arg@.len() > 0,
    ensures
        exists|today: Date| filter == parsed_date_filter(arg@, today),
{
    try_parse_date_filter_on(arg, now().date_naive())
}

/// `option` after one more word of a listing command.
fn apply_list_word(option: ListOption, arg: &str, today: Date, date_first: bool) -> (result: Option<
    ListOption,
>)
    requires
        arg@.len() > 0,
    ensures
        result == with_list_word(option, arg@, today, date_first),
{
    let mut option = option;
    let filter = try_parse_date_filter_on(arg, today);
    let flags = try_parse_bv(arg);
    if filter.is_some() && (date_first || flags.is_none()) {
        option.date_filter = filter.unwrap();
        Some(option)
    } else if flags.is_some() {
        let (include_backlog, is_verbose) = flags.unwrap();
        option.include_backlog = include_backlog;
        option.is_verbose = is_verbose;
        Some(option)
    } else {
        None
    }
}

/// The listing that the words `args` ask for, counting dates from `today`.
pub fn try_parse_list_option(args: &Vec<String>, today: Date) -> (result: Option<ListOption>)
    requires
        forall|i: int| 0 <= i < args@.len() ==> (#[trigger] args@[i])@.len() > 0,
    ensures
        result == parsed_list_option(texts(args@), today),
{
    if args.len() == 0 {
        return None;
    }
    let mut option = ListOption::default_for(today);
    if same_text(args[0].as_str(), "ls") {
        option.has_timeline = false;
    } else if same_text(args[0].as_str(), "ll") {
        option.has_timeline = true;
    } else {
        return None;
    }
    if args.len() > 1 {
        match apply_list_word(option, args[1].as_str(), today, true) {
            Some(next) => {
                option = next;
            },
            None => {
                return None;
            },
        }
    }
    if args.len() > 2 {
        match apply_list_word(option, args[2].as_str(), today, false) {
            Some(next) => {
                option = next;
            },
            None => {
                return None;
            },
        }
    }
    match option.date_filter.0 {
        DateFilterOp::Equal => Some(option),
        _ => if option.has_timeline {
            None
        } else {
            Some(option)
        },
    }
}

/// The command that the words `args` spell, counting dates from `today`.
pub fn parse_args(args: &Vec<String>, today: Date) -> (command: Option<Command>)
    requires
        forall|i: int| 0 <= i < args@.len() ==> (#[trigger] args@[i])@.len() > 0,
    ensures
        command == parsed_command(texts(args@), today),
{
    if args.len() == 0 {
        return Some(Command::Empty);
    }
    let word: &str = args[0].as_str();
    if args.len() == 1 {
        if same_text(word, "q") || same_text(word, "quit") {
            return Some(Command::Quit);
        } else if same_text(word, "h") || same_text(word, "help") {
            return Some(Command::Help);
        } else if same_text(word, "n") || same_text(word, "new") {
            return Some(Command::New);
        } else if same_text(word, "sort") {
            return Some(Command::Sort);
        }
    }
    if same_text(word, "ls") || same_text(word, "ll") {
        match try_parse_list_option(args, today) {
            Some(option) => Some(Command::List(option)),
            None => None,
        }
    } else if args.len() < 2 {
        None
    } else {
        match parse_usize(args[1].as_str()) {
            Some(index) => if same_text(word, "s") || same_text(word, "start") {
                Some(Command::Start(index))
            } else if same_text(word, "c") || same_text(word, "complete") {
                Some(Command::Complete(index))
            } else if same_text(word, "delete") {
                Some(Command::Delete(index))
            } else if same_text(word, "e") || same_text(word, "edit") {
                Some(Command::Edit(index))
            } else {
                None
            },
            None => None,
        }
    }
}

/// The command that the line `cmd` spells, counting dates from `today`.
pub fn parse_command_on(cmd: &str, today: Date) -> (command: Option<Command>)
    ensures
        command == parsed_command(whitespace_tokens(cmd@), today),
{
    let args = split_whitespace(cmd);
    parse_args(&args, today)
}

pub fn parse_command(cmd: &str) -> (command: Option<Command>)
    ensures
        exists|today: Date| command == parsed_command(whitespace_tokens(cmd@), today),
{
    parse_command_on(cmd, now().date_naive())
}

} // verus!
