use wonky::layout::{reading_offset, DrawOp, Paint};
use wonky::schedule::is_due;
use wonky::text::{
    is_white, parse_flag, parse_flag_reading, parse_leading_number, parse_number, same_text,
    short_utf8_width, split_words,
};
use wonky::widget::{
    construct_command, CommandExt, CommandLine, Indicator, Meter, Seperator, Widget, WidgetError,
};

struct FakeShell {
    output: String,
    calls: Vec<String>,
}

impl FakeShell {
    fn new(output: &str) -> FakeShell {
        FakeShell { output: output.to_string(), calls: Vec::new() }
    }
}

impl CommandExt for FakeShell {
    fn get_stdout(&mut self, command: &CommandLine) -> String {
        let mut line = command.program.clone();
        for a in &command.args {
            line.push(' ');
            line.push_str(a);
        }
        self.calls.push(line);
        self.output.clone()
    }
}

fn indicator(command: &str, frequency: u64) -> Indicator {
    Indicator::new(Some("AC".to_string()), command.to_string(), frequency, false, false)
}

fn op(text: &str, x: u16, y: u16, fg: Option<Paint>, bg: Option<Paint>) -> (String, u16, u16, Option<Paint>, Option<Paint>) {
    (text.to_string(), x, y, fg, bg)
}

fn plain(ops: &[DrawOp]) -> Vec<(String, u16, u16, Option<Paint>, Option<Paint>)> {
    ops.iter().map(|o| (o.text.clone(), o.x, o.y, o.fg, o.bg)).collect()
}

#[test]
fn refresh_waits_for_strictly_more_than_the_interval() {
    let mut w = indicator("battery --now", 5);
    w.timer = Some(100);
    let mut shell = FakeShell::new("1 charging");
    assert_eq!(w.update(105, &mut shell), Ok(()));
    assert!(shell.calls.is_empty());
    assert_eq!(w.timer, Some(100));
    assert_eq!(w.update(106, &mut shell), Ok(()));
    assert_eq!(shell.calls, vec!["battery --now".to_string()]);
    assert_eq!(w.timer, Some(106));
    assert!(w.value);
}

#[test]
fn meter_refresh_boundary() {
    let mut m = Meter::new();
    m.timer = Some(10);
    let mut shell = FakeShell::new("300");
    assert_eq!(m.update(11, &mut shell), Ok(()));
    assert!(shell.calls.is_empty());
    assert_eq!(m.update(12, &mut shell), Ok(()));
    assert_eq!(shell.calls, vec!["memcheck".to_string()]);
    assert_eq!(m.current_value, 300);
}

#[test]
fn first_update_always_runs() {
    let mut w = indicator("battery", 1_000_000);
    let mut shell = FakeShell::new("true");
    assert_eq!(w.update(0, &mut shell), Ok(()));
    assert_eq!(shell.calls.len(), 1);
    assert!(w.value);
    assert_eq!(w.update(0, &mut shell), Ok(()));
    assert_eq!(shell.calls.len(), 1);
}

#[test]
fn schedule_decisions() {
    assert!(is_due(None, 7, 0));
    assert!(!is_due(Some(3), 7, 10));
    assert!(is_due(Some(3), 7, 11));
    assert!(is_due(Some(3), 0, 4));
    assert!(!is_due(Some(3), 0, 3));
    assert!(!is_due(Some(50), 0, 10));
}

#[test]
fn reading_is_current_slash_max_unit() {
    let mut m = Meter::new();
    m.current_value = 512;
    m.max_value = 2048;
    assert_eq!(m.reading_text(), "512/2048mb");
    m.current_value = 0;
    m.max_value = 0;
    assert_eq!(m.reading_text(), "0/0mb");
    m.current_value = u64::MAX;
    m.unit = "°C".to_string();
    assert_eq!(m.reading_text(), "18446744073709551615/0°C");
}

#[test]
fn centering_formula() {
    // width / 2 - 2 - len, with the halved width rounded down
    assert_eq!(reading_offset(80, 10), Some(28));
    assert_eq!(reading_offset(81, 10), Some(28));
    assert_eq!(reading_offset(24, 10), Some(0));
    assert_eq!(reading_offset(23, 10), None);
    assert_eq!(reading_offset(3, 0), None);
}

#[test]
fn indicator_parse() {
    let mut w = indicator("", 1);
    assert_eq!(w.apply_output("1 charging"), Ok(()));
    assert!(w.value);
    assert_eq!(w.reading, "charging");
    assert_eq!(w.apply_output("0"), Ok(()));
    assert!(!w.value);
    assert_eq!(w.reading, "");
    assert_eq!(w.apply_output("true on ac power"), Ok(()));
    assert!(w.value);
    assert_eq!(w.reading, "onacpower");
    assert_eq!(w.apply_output("1\tcharging"), Ok(()));
    assert_eq!(w.reading, "charging");
    assert_eq!(w.apply_output("true on ac power"), Ok(()));
    assert_eq!(w.apply_output(""), Err(WidgetError::Parse));
    assert_eq!(w.apply_output("yes"), Err(WidgetError::Parse));
    assert!(w.value);
    assert_eq!(w.reading, "onacpower");
}

#[test]
fn flag_words_and_splits() {
    assert_eq!(parse_flag("true"), Some(true));
    assert_eq!(parse_flag("1"), Some(true));
    assert_eq!(parse_flag("false"), Some(false));
    assert_eq!(parse_flag("0"), Some(false));
    assert_eq!(parse_flag("True"), None);
    assert_eq!(parse_flag(""), None);
    assert_eq!(parse_flag_reading("1 charging"), Some((true, "charging".to_string())));
    assert_eq!(parse_flag_reading("0"), Some((false, String::new())));
    assert_eq!(parse_flag_reading("  false  a  b "), Some((false, "ab".to_string())));
    assert_eq!(parse_flag_reading(""), None);
    assert_eq!(parse_flag_reading("x 1"), None);
    assert!(same_text("abc", "abc"));
    assert!(!same_text("abc", "abd"));
}

#[test]
fn numbers() {
    assert_eq!(parse_number("16014"), Some(16014));
    assert_eq!(parse_number("+7"), Some(7));
    assert_eq!(parse_number("007"), Some(7));
    assert_eq!(parse_number(""), None);
    assert_eq!(parse_number("+"), None);
    assert_eq!(parse_number("12a"), None);
    assert_eq!(parse_number("-1"), None);
    assert_eq!(parse_number("18446744073709551615"), Some(u64::MAX));
    assert_eq!(parse_number("18446744073709551616"), None);
    assert_eq!(parse_leading_number("7 kb"), Some(7));
    assert_eq!(parse_leading_number("\t 42\n"), Some(42));
    assert_eq!(parse_leading_number(" "), None);
    assert_eq!(parse_leading_number("kb 7"), None);
}

#[test]
fn white_space_and_widths() {
    for c in ['\t', '\n', '\u{b}', '\u{c}', '\r', ' ', '\u{85}', '\u{a0}', '\u{1680}', '\u{2000}', '\u{200a}', '\u{2028}', '\u{2029}', '\u{202f}', '\u{205f}', '\u{3000}'] {
        assert!(is_white(c));
        assert_eq!(is_white(c), c.is_whitespace());
    }
    for c in ['a', '\u{8}', '\u{e}', '\u{200b}', '\u{feff}', '_'] {
        assert!(!is_white(c));
        assert_eq!(is_white(c), c.is_whitespace());
    }
    assert_eq!(short_utf8_width("mb"), Some(2));
    assert_eq!(short_utf8_width("°C"), Some(3));
    assert_eq!(short_utf8_width("€😀"), Some(7));
    assert_eq!(short_utf8_width(&"x".repeat(70000)), None);
}

#[test]
fn meter_parse_error_keeps_value() {
    let mut m = Meter::new();
    m.current_value = 9;
    let mut shell = FakeShell::new("lots");
    assert_eq!(m.update(0, &mut shell), Err(WidgetError::Parse));
    assert_eq!(m.current_value, 9);
    assert_eq!(m.timer, None);
    assert_eq!(m.apply_max("2048"), Ok(()));
    assert_eq!(m.max_value, 2048);
    assert_eq!(m.apply_max("4096 mb"), Ok(()));
    assert_eq!(m.max_value, 4096);
    assert_eq!(m.apply_max("mb"), Err(WidgetError::Parse));
    assert_eq!(m.max_value, 4096);
    let mut shell = FakeShell::new("7 kb");
    assert_eq!(m.update(3, &mut shell), Ok(()));
    assert_eq!((m.current_value, m.timer), (7, Some(3)));
}

#[test]
fn empty_command_is_skipped() {
    let mut w = indicator("", 0);
    let mut shell = FakeShell::new("1 charging");
    assert_eq!(w.init(&mut shell), Ok(()));
    for now in 0..20 {
        assert_eq!(w.update(now * 3, &mut shell), Ok(()));
    }
    assert!(shell.calls.is_empty());
    assert!(!w.value);
    assert_eq!(w.reading, "");

    let mut m = Meter::new();
    m.value_command = "   ".to_string();
    m.max_command = String::new();
    let mut shell = FakeShell::new("5");
    assert_eq!(m.init(&mut shell), Ok(()));
    assert_eq!(m.update(0, &mut shell), Ok(()));
    assert_eq!(m.update(100, &mut shell), Ok(()));
    assert!(shell.calls.is_empty());
    assert_eq!(m.current_value, 0);
    assert_eq!(m.max_value, 0);
}

#[test]
fn init_reads_once() {
    let mut m = Meter::new();
    let mut shell = FakeShell::new("16014");
    assert_eq!(m.init(&mut shell), Ok(()));
    assert_eq!(m.max_value, 16014);
    assert_eq!(shell.calls, vec!["echo 16014".to_string()]);
    assert_eq!(m.timer, None);

    let mut w = indicator("battery", 1);
    let mut shell = FakeShell::new("1 full");
    assert_eq!(w.init(&mut shell), Ok(()));
    assert!(w.value);
    assert_eq!(w.reading, "full");
    let mut bad = FakeShell::new("maybe");
    assert_eq!(w.init(&mut bad), Err(WidgetError::Parse));
    assert!(w.value);
}

#[test]
fn commands() {
    assert!(construct_command("").is_none());
    assert!(construct_command(" \t\n").is_none());
    assert!(construct_command("\u{2003}\u{85}").is_none());
    let c = construct_command("  ls   -l\t/tmp ").unwrap();
    assert_eq!(c.program, "ls");
    assert_eq!(c.args, vec!["-l".to_string(), "/tmp".to_string()]);
    let c = construct_command("memcheck").unwrap();
    assert_eq!((c.program.as_str(), c.args.len()), ("memcheck", 0));
    assert_eq!(split_words("a\u{2003}b  c\n"), vec!["a", "b", "c"]);
    assert_eq!(split_words(" \t "), Vec::<String>::new());
}

#[test]
fn separator_without_title_draws_nothing() {
    let s = Seperator { title: None, right: false, bottom: true };
    assert!(s.draw(4, 9).is_empty());
    let s = Seperator { title: Some("|".to_string()), right: true, bottom: false };
    assert_eq!(plain(&s.draw(4, 9)), vec![op("|", 4, 9, Some(Paint::Green), None)]);
}

#[test]
fn meter_draw_layout() {
    let mut m = Meter::new();
    m.current_value = 512;
    m.max_value = 2048;
    let ops = m.draw(80, 3, 5).unwrap();
    assert_eq!(
        plain(&ops),
        vec![
            op("RAM", 3, 5, Some(Paint::Green), None),
            op("512/2048mb", 31, 4, Some(Paint::Green), None),
            op("RAM", 3, 4, Some(Paint::Green), None),
        ]
    );
    m.title = String::new();
    m.reading = false;
    let ops = m.draw(80, 0, 0).unwrap();
    assert_eq!(plain(&ops), vec![op("", 0, 0, Some(Paint::Green), None)]);
    m.reading = true;
    assert_eq!(m.draw(20, 0, 0).err(), Some(WidgetError::Viewport));
    m.unit = "°C".to_string();
    m.title = "T".to_string();
    let ops = m.draw(40, 0, 0).unwrap();
    // "512/2048°C" takes 11 bytes: 20 - 2 - 11
    assert_eq!(
        plain(&ops),
        vec![
            op("T", 0, 0, Some(Paint::Green), None),
            op("512/2048°C", 7, 0, Some(Paint::Green), None),
            op("T", 0, 0, Some(Paint::Green), None),
        ]
    );
}

#[test]
fn indicator_draw_layout() {
    let mut w = indicator("", 1);
    let ops = w.draw(10, 1, 2).unwrap();
    assert_eq!(
        plain(&ops),
        vec![
            op("   ", 1, 2, None, Some(Paint::DarkGreen)),
            op("AC", 1, 2, Some(Paint::Black), Some(Paint::DarkGreen)),
        ]
    );
    w.value = true;
    w.title = None;
    let ops = w.draw(10, 1, 2).unwrap();
    assert_eq!(plain(&ops), vec![op("   ", 1, 2, None, Some(Paint::Green))]);
    assert_eq!(w.draw(3, 0, 0).err(), Some(WidgetError::Viewport));
}

#[test]
fn update_then_draw() {
    let mut w = indicator("battery", 1);
    let mut shell = FakeShell::new("1");
    let ops = w.draw_and_update(0, &mut shell, 8, 0, 0).unwrap();
    assert_eq!(ops[0].bg, Some(Paint::Green));
    let mut m = Meter::new();
    let mut shell = FakeShell::new("77");
    let ops = m.update_and_draw(0, &mut shell, 80, 0, 1).unwrap();
    assert_eq!(ops[1].text, "77/0mb");
    let mut bad = FakeShell::new("x");
    m.timer = None;
    assert_eq!(m.update_and_draw(0, &mut bad, 80, 0, 1).err(), Some(WidgetError::Parse));
    assert_eq!((m.current_value, m.timer), (77, None));
    let mut w = indicator("battery", 1);
    assert_eq!(w.draw_and_update(0, &mut bad, 80, 0, 1).err(), Some(WidgetError::Parse));
    assert_eq!(w.timer, None);
    let mut quiet = FakeShell::new("1");
    assert_eq!(w.update(5, &mut quiet), Ok(()));
    assert_eq!(w.timer, Some(5));
}

#[test]
fn stock_meter() {
    let m = Meter::new();
    let d = Meter::default();
    assert_eq!(m.title, "RAM");
    assert_eq!(d.unit, "mb");
    assert_eq!(d.max_command, "echo 16014");
    assert_eq!(d.value_command, "memcheck");
    assert_eq!((d.frequency, d.theme, d.right, d.bottom, d.meter, d.reading), (1, 1, true, false, true, true));
    assert_eq!((d.max_value, d.current_value, d.timer), (0, 0, None));
}

#[test]
fn widgets_share_one_cycle() {
    let mut widgets = vec![
        Widget::Meter(Meter::new()),
        Widget::Indicator(indicator("battery", 2)),
        Widget::Seperator(Seperator { title: None, right: false, bottom: false }),
    ];
    let mut shell = FakeShell::new("1");
    for w in widgets.iter_mut() {
        assert_eq!(w.init(&mut shell), Ok(()));
    }
    assert_eq!(shell.calls, vec!["echo 16014".to_string(), "battery".to_string()]);
    let counts: Vec<usize> = widgets
        .iter_mut()
        .map(|w| w.update_and_draw(0, &mut shell, 40, 0, 1).unwrap().len())
        .collect();
    assert_eq!(counts, vec![3, 2, 0]);
    assert_eq!(shell.calls.len(), 4);
    match &widgets[0] {
        Widget::Meter(m) => assert_eq!((m.max_value, m.current_value), (1, 1)),
        _ => unreachable!(),
    }
}
