use qobuz_player::overlay::{escape_template, find_bytes, settings_overlay_parts};

fn bytes(s: &str) -> Vec<u8> {
    s.as_bytes().to_vec()
}

#[test]
fn find_returns_first_occurrence() {
    assert_eq!(find_bytes(&bytes("abcabc"), &bytes("bc")), Some(1));
    assert_eq!(find_bytes(&bytes("abcabc"), &bytes("cb")), None);
    assert_eq!(find_bytes(&bytes("ab"), &bytes("abc")), None);
    assert_eq!(find_bytes(&bytes("abc"), &bytes("")), Some(0));
    assert_eq!(find_bytes(&bytes("xyz"), &bytes("xyz")), Some(0));
}

#[test]
fn page_parts_are_cut_at_the_tags() {
    let page = bytes("<html><head><style>p{color:red}</style></head><body><p>Hi</p></body></html>");
    let parts = settings_overlay_parts(&page);
    assert_eq!(parts.styles, bytes("<style>p{color:red}</style>"));
    assert_eq!(parts.body, bytes("<p>Hi</p>"));
}

#[test]
fn page_without_tags() {
    let parts = settings_overlay_parts(&bytes("0123456789"));
    assert_eq!(parts.styles, Vec::<u8>::new());
    assert_eq!(parts.body, bytes("6789"));
    let short = settings_overlay_parts(&bytes("abc"));
    assert!(short.body.is_empty());
    assert!(short.styles.is_empty());
}

#[test]
fn style_at_the_start_is_not_taken() {
    let parts = settings_overlay_parts(&bytes("<style>a</style><body>b</body>"));
    assert!(parts.styles.is_empty());
    assert_eq!(parts.body, bytes("b"));
}

#[test]
fn body_close_before_open_gives_nothing() {
    let parts = settings_overlay_parts(&bytes("xx</body>yy<body>zz"));
    assert!(parts.body.is_empty());
}

#[test]
fn template_escapes_backticks_and_placeholders() {
    assert_eq!(escape_template(&bytes("a`b${c}$d")), bytes("a\\`b\\${c}$d"));
    assert_eq!(escape_template(&bytes("`${")), bytes("\\`\\${"));
    assert_eq!(escape_template(&bytes("$$${")), bytes("$$\\${"));
    assert_eq!(escape_template(&bytes("")), Vec::<u8>::new());
}
