use kapow::fill::{count_tokens, fill, fill_images, link_text};
use kapow::paths::rebase_images;
use kapow::pieces::{cut, Kind, Piece};
use regex::Regex;

fn v(s: &str) -> Vec<char> {
    s.chars().collect()
}

fn text(s: &str) -> Piece {
    Piece::Text(s.to_string())
}

#[test]
fn cut_by_elapsed() {
    assert_eq!(
        cut(&v("a `!elapsed` b `!elapsed`"), Kind::Elapsed),
        vec![text("a "), Piece::Elapsed, text(" b "), Piece::Elapsed]
    );
    assert_eq!(cut(&v("`\\!elapsed`"), Kind::Elapsed), vec![text("`\\!elapsed`")]);
    assert_eq!(cut(&v(""), Kind::Elapsed), Vec::<Piece>::new());
}

#[test]
fn cut_by_now() {
    assert_eq!(
        cut(&v("at `!now:UTC:%Y` or `!now:MST7MDT`."), Kind::Now),
        vec![
            text("at "),
            Piece::Pattern("UTC".to_string(), "%Y".to_string()),
            text(" or "),
            Piece::Zone("MST7MDT".to_string()),
            text("."),
        ]
    );
}

#[test]
fn pattern_starts_behind_the_first_colon() {
    assert_eq!(
        cut(&v("`!now:UTC:%H:%M`"), Kind::Now),
        vec![Piece::Pattern("UTC".to_string(), "%H:%M".to_string())]
    );
    assert_eq!(cut(&v("`!now::`"), Kind::Now), vec![Piece::Pattern(String::new(), String::new())]);
    assert_eq!(cut(&v("`!now:`"), Kind::Now), vec![Piece::Zone(String::new())]);
}

#[test]
fn cut_by_today() {
    assert_eq!(
        cut(&v("`!today:UTC` `!today:UTC:%d`"), Kind::Today),
        vec![
            Piece::Pattern("UTC".to_string(), "%Y-%m-%d".to_string()),
            text(" "),
            Piece::Pattern("UTC".to_string(), "%d".to_string()),
        ]
    );
}

#[test]
fn token_without_its_end_is_text() {
    assert_eq!(cut(&v("`!now:UTC"), Kind::Now), vec![text("`!now:UTC")]);
    assert_eq!(cut(&v("`!nowhere`"), Kind::Now), vec![text("`!nowhere`")]);
    assert_eq!(cut(&v("`\\!now:UTC`"), Kind::Now), vec![text("`\\!now:UTC`")]);
}

#[test]
fn time_tokens_agree_with_the_pattern() {
    let pattern = Regex::new(r"`!now:([^`]*)`").unwrap();
    let lines = [
        "`!now:a`", "x`!now:a:b`y`!now:c`", "`!now:a", "`!now:`!now:b`", "``!now:a``", "`!now:a`!now:b`",
        "plain", "`!now`", "`!now:é:ü`z",
    ];
    for line in lines {
        let found: Vec<String> = pattern.captures_iter(line).map(|c| c[1].to_string()).collect();
        let mut mine: Vec<String> = Vec::new();
        for piece in cut(&v(line), Kind::Now) {
            match piece {
                Piece::Zone(z) => mine.push(z),
                Piece::Pattern(z, p) => mine.push(format!("{z}:{p}")),
                _ => {}
            }
        }
        assert_eq!(mine, found, "{line:?}");
    }
}

#[test]
fn cut_by_image() {
    assert_eq!(
        cut(&v("see ![a](b/c.png) and ![d](e.png \"t\")!"), Kind::Image),
        vec![
            text("see "),
            Piece::Image("a".to_string(), "b/c.png".to_string(), String::new()),
            text(" and "),
            Piece::Image("d".to_string(), "e.png".to_string(), " \"t\"".to_string()),
            text("!"),
        ]
    );
}

#[test]
fn absolute_and_broken_links_are_text() {
    assert_eq!(
        cut(&v("![a](https://x.org/i.png)"), Kind::Image),
        vec![text("![a](https://x.org/i.png)")]
    );
    assert_eq!(cut(&v("![a](b c)"), Kind::Image), vec![text("![a](b c)")]);
    assert_eq!(cut(&v("![a]()"), Kind::Image), vec![text("![a]()")]);
    assert_eq!(cut(&v("![a] (b)"), Kind::Image), vec![text("![a] (b)")]);
    assert_eq!(cut(&v("![a](b"), Kind::Image), vec![text("![a](b")]);
}

#[test]
fn image_url_gives_way_to_a_title() {
    assert_eq!(
        cut(&v("![x](u\"a b\")"), Kind::Image),
        vec![Piece::Image("x".to_string(), "u".to_string(), "\"a b\"".to_string())]
    );
    assert_eq!(
        cut(&v("![x](a\"b\")"), Kind::Image),
        vec![Piece::Image("x".to_string(), "a\"b\"".to_string(), String::new())]
    );
}

#[test]
fn fill_puts_answers_in_order() {
    let pieces = cut(&v("a `!now:UTC` b `!now:X:%Y`"), Kind::Now);
    assert_eq!(count_tokens(&pieces), 2);
    assert_eq!(
        fill(&pieces, &vec!["ONE".to_string(), "TWO".to_string()]),
        Some("a ONE b TWO".to_string())
    );
    assert_eq!(fill(&pieces, &vec!["ONE".to_string()]), None);
    assert_eq!(fill(&Vec::new(), &Vec::new()), Some(String::new()));
}

#[test]
fn fill_images_keeps_or_replaces_urls() {
    let pieces = cut(&v("![a](b.png) ![c](d.png \"t\")"), Kind::Image);
    assert_eq!(
        fill_images(&pieces, &vec![Some("x/b.png".to_string()), None]),
        Some("![a](x/b.png) ![c](d.png \"t\")".to_string())
    );
    assert_eq!(fill_images(&pieces, &vec![None]), None);
    assert_eq!(link_text("a", "u", " \"t\""), v("![a](u \"t\")"));
}

#[test]
fn rebase_images_on_the_root() {
    let pieces = cut(&v("![a](img/b.png) and ![c](d.png \"t\")"), Kind::Image);
    assert_eq!(
        rebase_images(&pieces, "/root/doc/part", "/root/doc"),
        "![a](part/img/b.png) and ![c](part/d.png \"t\")"
    );
    assert_eq!(
        rebase_images(&pieces, "/root/doc", "/root/doc"),
        "![a](img/b.png) and ![c](d.png \"t\")"
    );
}

#[test]
fn image_outside_the_root_keeps_its_url() {
    let pieces = cut(&v("![a](b.png)"), Kind::Image);
    assert_eq!(rebase_images(&pieces, "/elsewhere", "/root/doc"), "![a](b.png)");
}

#[test]
fn absolute_link_is_a_piece_of_its_own() {
    assert_eq!(
        cut(&v("x ![a](http://b/c.png) y"), Kind::Image),
        vec![text("x "), text("![a](http://b/c.png)"), text(" y")]
    );
    assert_eq!(
        cut(&v("![a](http://x![b](c))"), Kind::Image),
        vec![text("![a](http://x![b](c)"), text(")")]
    );
}

#[test]
fn image_links_agree_with_the_pattern() {
    let pattern = Regex::new(r#"!\[([^\]]*)\]\(([^\) ]+)( *"[^"]*"|)\)"#).unwrap();
    let lines = [
        "![a](b)", "![a](b \"t\")", "![a](b  \"t u\") ![c](d)", "![a](b\"t\")", "![a](u\"a b\")",
        "![a](b c)", "![a]()", "![](x)", "![a](b \"t\" )", "![a](b \"t)", "![![a](b)](c)",
        "![a](http://x) ![b](y)", "![a](http://x![b](c))", "text", "![a](b\"\")", "![a](b \"\"\")",
        "![a](b\" \")", "![a]](b)", "![a](b))", "!![a](é \"ü\")",
    ];
    for line in lines {
        let mut found: Vec<(String, String, String)> = Vec::new();
        for c in pattern.captures_iter(line) {
            if !c[2].starts_with("http") {
                found.push((c[1].to_string(), c[2].to_string(), c[3].to_string()));
            }
        }
        let mut mine: Vec<(String, String, String)> = Vec::new();
        let mut whole = String::new();
        for piece in cut(&v(line), Kind::Image) {
            match piece {
                Piece::Image(alt, url, title) => {
                    whole.push_str(&format!("![{alt}]({url}{title})"));
                    mine.push((alt, url, title));
                }
                Piece::Text(t) => whole.push_str(&t),
                other => panic!("{other:?}"),
            }
        }
        assert_eq!(mine, found, "{line:?}");
        assert_eq!(whole, line);
    }
}

#[test]
fn today_tokens_agree_with_the_pattern() {
    let pattern = Regex::new(r"`!today:([^`]*)`").unwrap();
    let lines = ["`!today:a`", "x`!today:a:b`y`!today:c`", "`!today:a", "`!today`", "`!today:`"];
    for line in lines {
        let found: Vec<String> = pattern
            .captures_iter(line)
            .map(|c| {
                if c[1].contains(':') {
                    c[1].to_string()
                } else {
                    format!("{}:%Y-%m-%d", &c[1])
                }
            })
            .collect();
        let mut mine: Vec<String> = Vec::new();
        for piece in cut(&v(line), Kind::Today) {
            match piece {
                Piece::Pattern(z, p) => mine.push(format!("{z}:{p}")),
                Piece::Text(_) => {}
                other => panic!("{other:?}"),
            }
        }
        assert_eq!(mine, found, "{line:?}");
    }
}
