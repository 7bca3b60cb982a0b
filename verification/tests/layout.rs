use toot::widgets::status::{is_plain_markup, plain_text};

const WIDTHS: [usize; 12] = [0, 1, 2, 3, 4, 5, 7, 8, 16, 80, 700, 100_000];

/// Lays `markup` out at every width, and says how often that gave text.
fn lay_out(markup: &str) -> usize {
    assert!(is_plain_markup(markup), "{markup:?}");
    WIDTHS.iter().filter(|width| plain_text(markup, **width).is_some()).count()
}

fn nested(open: &str, close: &str, depth: usize, inner: &str) -> String {
    format!("{}{}{}", open.repeat(depth), inner, close.repeat(depth))
}

#[test]
fn plain_text_and_blocks_lay_out_at_any_width() {
    let long_word = "a".repeat(2000);
    let wide_word = "\u{65e5}\u{672c}\u{8a9e}".repeat(300);
    let cases = vec![
        String::new(),
        "plain".to_string(),
        "<p></p>".to_string(),
        "<p>one two three four five six seven eight nine ten</p>".to_string(),
        format!("<p>{long_word}</p>"),
        format!("<p>x {long_word} y</p>"),
        format!("<p>{wide_word}</p>"),
        "<p>\u{65e5} \u{672c} \u{8a9e}</p>".to_string(),
        "<p>\u{1f642}\u{1f642}\u{1f642} \u{1f1e9}\u{1f1ea} e\u{301}</p>".to_string(),
        "<p>a&nbsp;b&nbsp;c\u{a0}d\u{200b}e\u{ad}f</p>".to_string(),
        "<h1>Head</h1><h2>line</h2><h3>s</h3><h6>deep</h6>".to_string(),
        "<p>a<br>b<br><br>c</p><hr><p>d</p>".to_string(),
        "<p>a\tb\n    c   d\n\n\te</p>".to_string(),
        "<code>a\tb\n    c   d</code><listing>\ta\n b</listing><textarea>\ta\n b</textarea>"
            .to_string(),
        nested("<blockquote>", "</blockquote>", 400, " \t \n "),
        nested("<ul><li>", "</li></ul>", 400, " \t \n "),
        nested("<blockquote><code>", "</code></blockquote>", 400, "\t<br>\t"),
        "<p><a href=\"http://x/\">link</a> <em>em</em> <strong>strong</strong> <code>code</code> \
         <del>gone</del> <s>struck</s> <u>under</u> <sup>123</sup> <sup>x2</sup></p>"
            .to_string(),
        "<p><img src=\"http://x/i.png\" alt=\"an image\"> <img src=\"x\"></p>".to_string(),
        "<dl><dt>term</dt><dd>what it means</dd></dl>".to_string(),
        "<div><div><span>a</span></div><p>b</p></div>".to_string(),
        "<details><summary>s</summary>body</details>".to_string(),
        "</p></div><p>stray <b>unclosed <i>tags".to_string(),
        "<!-- a comment --><p>after</p><!DOCTYPE html>".to_string(),
        "<script>var x = 1;</script><style>p { color: red }</style><p>shown</p>".to_string(),
        nested("<blockquote>", "</blockquote>", 3, "quoted words here"),
        nested("<blockquote>", "</blockquote>", 400, "deep"),
        nested("<div>", "</div>", 3000, "deep"),
        nested("<b>", "</b>", 3000, "bold"),
    ];
    for markup in &cases {
        lay_out(markup);
    }
    assert_eq!(lay_out("<p>abc</p>"), 11);
}

#[test]
fn lists_lay_out_at_any_width() {
    let many: String = (0..1200).map(|i| format!("<li>item {i}</li>")).collect();
    let cases = vec![
        "<ul></ul><ol></ol>".to_string(),
        "<ul><li></li></ul><ol><li></li></ol>".to_string(),
        "<ul><li>a</li><li>b<ul><li>c</li></ul></li></ul>".to_string(),
        "<ol><li>a</li>text between<li>b</li></ol>".to_string(),
        "<ol start=0><li>a</li></ol>".to_string(),
        "<ol start=-5><li>a</li><li>b</li></ol>".to_string(),
        "<ol start=\"-999999999\"><li>a</li><li>b</li></ol>".to_string(),
        "<ol start=\"999999999\"><li>a</li><li>b</li></ol>".to_string(),
        "<ol start=\"\"><li>a</li></ol><ol start><li>a</li></ol>".to_string(),
        "<ol start=\"x\"><li>a</li></ol><ol start=\" 7\"><li>a</li></ol>".to_string(),
        format!("<ol>{many}</ol>"),
        format!("<ol start=999999990>{many}</ol>"),
        format!("<ul>{many}</ul>"),
        nested("<ul><li>", "</li></ul>", 400, "deep"),
        nested("<ol><li>", "</li></ol>", 400, "deep"),
        nested("<ol start=99999><li>", "</li></ol>", 200, "\u{65e5}\u{672c}\u{8a9e}"),
        "<li>an item without a list</li>".to_string(),
    ];
    for markup in &cases {
        lay_out(markup);
    }
}

#[test]
fn tables_without_spans_lay_out_at_any_width() {
    let wide_row: String = (0..900).map(|i| format!("<td>{i}</td>")).collect();
    let empty_row = "<td></td>".repeat(900);
    let tall: String = (0..300).map(|i| format!("<tr><td>{i}</td><td>b</td></tr>")).collect();
    let cases = vec![
        "<table></table>".to_string(),
        "<table><tr></tr></table>".to_string(),
        "<table><tr><td></td></tr></table>".to_string(),
        "<table><tbody></tbody><thead></thead><tfoot></tfoot></table>".to_string(),
        "<table><tr><td>a</td><td>b</td></tr><tr><td>c</td></tr></table>".to_string(),
        "<table><tr><th>h</th></tr><tr><td>a</td><td>b</td><td>c</td></tr></table>".to_string(),
        "<table><caption>c</caption><tr><td>a b c d e f g</td><td>\u{65e5}\u{672c}</td></tr></table>"
            .to_string(),
        format!("<table><tr>{wide_row}</tr></table>"),
        format!("<table><tr>{empty_row}</tr></table>"),
        format!("<table>{tall}</table>"),
        "<table><tr><td><table><tr><td>in</td><td>ner</td></tr></table></td><td>o</td></tr></table>"
            .to_string(),
        nested("<table><tr><td>", "</td></tr></table>", 60, "deep"),
        "<table><tr><td><ul><li>a</li></ul></td><td><code>x\ty</code></td></tr></table>".to_string(),
        "<table>text<tr>more<td>a</td>stray</tr></table>".to_string(),
        "<td>a cell without a table</td><tr><td>b</td></tr>".to_string(),
        "<table><colgroup><col><col></colgroup><tr><td>a</td><td>b</td></tr></table>".to_string(),
        "<table><tr><td colspan>a</td><td rowspan>b</td></tr></table>".to_string(),
    ];
    for markup in &cases {
        lay_out(markup);
    }
}

/// A stream of numbers that is the same on every run.
struct Numbers(u64);

impl Numbers {
    fn next(&mut self, below: usize) -> usize {
        self.0 = self.0.wrapping_mul(6364136223846793005).wrapping_add(1442695040888963407);
        ((self.0 >> 33) as usize) % below
    }
}

const PIECES: [&str; 62] = [
    "<p>", "</p>", "<br>", "<ul>", "</ul>", "<ol>", "</ol>", "<ol start=42>", "<li>", "</li>",
    "<blockquote>", "</blockquote>", "<span>", "</span>", "<h1>", "</h1>", "<h3>", "</h3>",
    "<table>", "</table>", "<tr>", "</tr>", "<td>", "</td>", "<th>", "</th>", "<b>", "</b>",
    "<a href=\"http://x/\">", "</a>", "<sup>", "</sup>", "<del>", "</del>", "<hr>", "<div>",
    "</div>", "<dl>", "<dt>", "<dd>", "</dl>", "<img alt=\"picture\">", "<code>", "</code>",
    "word ", "12345", " ", "\n", "\t", "a-very-long-word-without-any-break-in-it ",
    "\u{65e5}\u{672c}\u{8a9e}", "\u{1f642}", "e\u{301}", "&amp;", "&lt;", "&#39;", "&nbsp;",
    "\u{a0}", "\u{200b}", "\u{2014}", "</pre>", "<ol start=-7>",
];

/// Lays out markup put together from the pieces by chance, the same chance on
/// every run.
fn mixed(seed: u64) {
    let mut numbers = Numbers(seed);
    for _ in 0..100 {
        let length = 1 + numbers.next(40);
        let markup: String = (0..length).map(|_| PIECES[numbers.next(PIECES.len())]).collect();
        lay_out(&markup);
    }
}

#[test]
fn mixed_plain_markup_lays_out_at_any_width_1() {
    mixed(7919);
}

#[test]
fn mixed_plain_markup_lays_out_at_any_width_2() {
    mixed(15838);
}

#[test]
fn mixed_plain_markup_lays_out_at_any_width_3() {
    mixed(23757);
}

#[test]
fn mixed_plain_markup_lays_out_at_any_width_4() {
    mixed(31676);
}

#[test]
fn mixed_plain_markup_lays_out_at_any_width_5() {
    mixed(39595);
}

#[test]
fn mixed_plain_markup_lays_out_at_any_width_6() {
    mixed(47514);
}

#[test]
fn mixed_plain_markup_lays_out_at_any_width_7() {
    mixed(55433);
}

#[test]
fn mixed_plain_markup_lays_out_at_any_width_8() {
    mixed(63352);
}

#[test]
fn mixed_plain_markup_lays_out_at_any_width_9() {
    mixed(71271);
}

#[test]
fn mixed_plain_markup_lays_out_at_any_width_10() {
    mixed(79190);
}

#[test]
fn mixed_plain_markup_lays_out_at_any_width_11() {
    mixed(87109);
}

#[test]
fn mixed_plain_markup_lays_out_at_any_width_12() {
    mixed(95028);
}
