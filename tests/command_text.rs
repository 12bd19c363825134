use wheel_motion::command_parser::{parse_command_at, parse_position_commands, CommandSpans, Span};

fn sp(start: usize, end: usize) -> Span {
    Span { start, end }
}

fn text<'a>(input: &'a str, s: Span) -> &'a str {
    &input[s.start..s.end]
}

#[test]
fn empty_text_is_an_empty_list() {
    assert_eq!(parse_position_commands(b""), Some(vec![]));
}

#[test]
fn blank_text_is_rejected() {
    assert_eq!(parse_position_commands(b"   "), None);
}

#[test]
fn two_number_command() {
    let input = "(10, 300)";
    let r = parse_position_commands(input.as_bytes()).unwrap();
    assert_eq!(r, vec![CommandSpans { displacement: sp(1, 3), vel_max: sp(5, 8), vel_end: None }]);
    assert_eq!(text(input, r[0].displacement), "10");
    assert_eq!(text(input, r[0].vel_max), "300");
}

#[test]
fn three_number_commands_with_separators() {
    let input = " ( -2.5 ,1e2 , 0.5 ) ;(3,4,);(5, 6 7)\n;";
    let r = parse_position_commands(input.as_bytes()).unwrap();
    assert_eq!(r.len(), 3);
    assert_eq!(text(input, r[0].displacement), "-2.5");
    assert_eq!(text(input, r[0].vel_max), "1e2");
    assert_eq!(text(input, r[0].vel_end.unwrap()), "0.5");
    assert_eq!(text(input, r[1].displacement), "3");
    assert_eq!(text(input, r[1].vel_max), "4");
    assert_eq!(r[1].vel_end, None);
    assert_eq!(text(input, r[2].vel_end.unwrap()), "7");
}

#[test]
fn special_values_and_signs() {
    let input = "(+.5, INF, nan)";
    let r = parse_position_commands(input.as_bytes()).unwrap();
    assert_eq!(text(input, r[0].displacement), "+.5");
    assert_eq!(text(input, r[0].vel_max), "INF");
    assert_eq!(text(input, r[0].vel_end.unwrap()), "nan");
}

#[test]
fn malformed_texts_are_rejected() {
    assert_eq!(parse_position_commands(b"(1)"), None);
    assert_eq!(parse_position_commands(b"(1, 2"), None);
    assert_eq!(parse_position_commands(b"(1, 2, 3e)"), None);
    assert_eq!(parse_position_commands(b"(1, 2);;"), None);
    assert_eq!(parse_position_commands(b"(1, 2) (3, 4)"), None);
    assert_eq!(parse_position_commands(b"(a, 2)"), None);
}

#[test]
fn command_at_reports_its_end() {
    let input = b"xx (1,2)  ; rest";
    let (c, end) = parse_command_at(input, 2).unwrap();
    assert_eq!(c.displacement, sp(4, 5));
    assert_eq!(c.vel_max, sp(6, 7));
    assert_eq!(end, 10);
    assert_eq!(parse_command_at(input, 0), None);
}
