use splint::Position;
use splint::report::{build_report, render_lines};

fn ten_lines() -> String {
    let mut s = String::new();
    for i in 1..=10 {
        if i > 1 {
            s.push('\n');
        }
        s.push('l');
        s.push_str(&i.to_string());
    }
    s
}

#[test]
fn context_window_correctness() {
    let content = ten_lines();
    let r = build_report("f.yaml", &content, &Position::new(6, 3), "boom");
    // 3 leading lines, the offending line, 1 trailing line: lines 3..=7
    assert_eq!(r.window.len(), 5);
    let numbers: Vec<usize> = r.window.iter().map(|c| c.number).collect();
    assert_eq!(numbers, vec![3, 4, 5, 6, 7]);
    let texts: Vec<&str> = r.window.iter().map(|c| c.text.as_str()).collect();
    assert_eq!(texts, vec!["l3", "l4", "l5", "l6", "l7"]);
    for c in &r.window {
        if c.number == 6 {
            assert!(c.marked);
            assert_eq!(c.gutter, "> ");
        } else {
            assert!(!c.marked);
            assert_eq!(c.gutter, "  ");
        }
    }
    assert_eq!(r.header, "error: boom");
    assert_eq!(r.footer, "at f.yaml:6:3");
}

#[test]
fn context_window_clamps_at_the_top() {
    let content = ten_lines();
    let r = build_report("f.yaml", &content, &Position::new(1, 1), "boom");
    // no negative indices: the offending first line plus 1 trailing line
    let numbers: Vec<usize> = r.window.iter().map(|c| c.number).collect();
    assert_eq!(numbers, vec![1, 2]);
    assert!(r.window[0].marked);
    assert!(!r.window[1].marked);
}

#[test]
fn context_window_clamps_at_the_bottom() {
    let content = ten_lines();
    let r = build_report("f.yaml", &content, &Position::new(10, 2), "boom");
    let numbers: Vec<usize> = r.window.iter().map(|c| c.number).collect();
    assert_eq!(numbers, vec![7, 8, 9, 10]);
    assert!(r.window[3].marked);
}

#[test]
fn numbers_right_align_to_the_widest() {
    let content = ten_lines();
    let r = build_report("f.yaml", &content, &Position::new(9, 1), "boom");
    // window lines 6..=10: width two, so 6..=9 get one leading space
    let prefixes: Vec<&str> = r.window.iter().map(|c| c.prefix.as_str()).collect();
    assert_eq!(prefixes, vec![" 6 |", " 7 |", " 8 |", " 9 |", "10 |"]);
}

#[test]
fn rendered_lines_have_header_window_footer() {
    let content = "a: 1\nb: 2\nc: 3";
    let r = build_report("x.yaml", content, &Position::new(2, 1), "b is wrong");
    let lines = render_lines(&r);
    assert_eq!(lines.len(), r.window.len() + 4);
    assert_eq!(lines[0], "error: b is wrong");
    assert_eq!(lines[1], "");
    assert_eq!(lines[2], "   1 |a: 1");
    assert_eq!(lines[3], ">  2 |b: 2");
    assert_eq!(lines[4], "   3 |c: 3");
    assert_eq!(lines[5], "");
    assert_eq!(lines[6], "at x.yaml:2:1");
}
