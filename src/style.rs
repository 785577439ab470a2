use vstd::prelude::*;

verus! {

/// `s` wrapped in the terminal escape that selects graphic rendition `code`,
/// followed by the escape that resets it.
pub open spec fn styled(code: Seq<char>, s: Seq<char>) -> Seq<char> {
    "\x1b["@ + code + "m"@ + s + "\x1b[0m"@
}

/// Wraps `s` in the escape sequence for rendition `code` and a reset.
pub fn c(code: &str, s: &str) -> (r: String)
    ensures
        r@ == styled(code@, s@),
{
    let r = String::from_str("\x1b[");
    let r = r.concat(code);
    let r = r.concat("m");
    let r = r.concat(s);
    r.concat("\x1b[0m")
}

/// Bold text.
pub fn bold(s: &str) -> (r: String)
    ensures
        r@ == styled("1"@, s@),
{
    c("1", s)
}

/// Green text.
pub fn green(s: &str) -> (r: String)
    ensures
        r@ == styled("32"@, s@),
{
    c("32", s)
}

/// Red text.
pub fn red(s: &str) -> (r: String)
    ensures
        r@ == styled("31"@, s@),
{
    c("31", s)
}

/// Yellow text.
pub fn yellow(s: &str) -> (r: String)
    ensures
        r@ == styled("33"@, s@),
{
    c("33", s)
}

/// Cyan text.
pub fn cyan(s: &str) -> (r: String)
    ensures
        r@ == styled("36"@, s@),
{
    c("36", s)
}

/// A file path as shown to the user: bold cyan.
pub fn path(p: &str) -> (r: String)
    ensures
        r@ == styled("1"@, styled("36"@, p@)),
{
    let inner = cyan(p);
    bold(inner.as_str())
}

/// A status line: a styled marker, a space and the message.
pub open spec fn marked_line(code: Seq<char>, marker: Seq<char>, msg: Seq<char>) -> Seq<char> {
    styled(code, marker) + " "@ + msg
}

/// The line that reports success: a green check mark and the message.
pub fn success_line(msg: &str) -> (r: String)
    ensures
        r@ == marked_line("32"@, "✔"@, msg@),
{
    green("✔").concat(" ").concat(msg)
}

/// The line that reports a failure: a red cross and the message.
pub fn error_line(msg: &str) -> (r: String)
    ensures
        r@ == marked_line("31"@, "✖"@, msg@),
{
    red("✖").concat(" ").concat(msg)
}

/// The line that reports a warning: a yellow exclamation mark and the message.
pub fn warn_line(msg: &str) -> (r: String)
    ensures
        r@ == marked_line("33"@, "!"@, msg@),
{
    yellow("!").concat(" ").concat(msg)
}

/// Returns the cursor to the start of the line and erases the line.
pub fn clear_line() -> (r: &'static str)
    ensures
        r@ == "\r\x1b[K"@,
{
    "\r\x1b[K"
}

} // verus!
