use pasteimg::{
    bold, c, clear_line, cyan, error_line, green, path, red, success_line, warn_line, yellow,
};

#[test]
fn styles_work() {
    assert!(path("/tmp").contains("/tmp"));
    assert!(success_line("ok").contains("ok"));
    assert!(warn_line("warn").contains("warn"));
    assert!(error_line("err").contains("err"));
}

#[test]
fn style_escape_sequences() {
    assert_eq!(c("7", "x"), "\x1b[7mx\x1b[0m");
    assert_eq!(bold("b"), "\x1b[1mb\x1b[0m");
    assert_eq!(green("g"), "\x1b[32mg\x1b[0m");
    assert_eq!(red("r"), "\x1b[31mr\x1b[0m");
    assert_eq!(yellow("y"), "\x1b[33my\x1b[0m");
    assert_eq!(cyan("c"), "\x1b[36mc\x1b[0m");
    assert_eq!(path("/tmp"), "\x1b[1m\x1b[36m/tmp\x1b[0m\x1b[0m");
}

#[test]
fn status_lines() {
    assert_eq!(success_line("done"), "\x1b[32m✔\x1b[0m done");
    assert_eq!(error_line("bad"), "\x1b[31m✖\x1b[0m bad");
    assert_eq!(warn_line("hm"), "\x1b[33m!\x1b[0m hm");
    assert_eq!(clear_line(), "\r\x1b[K");
}
