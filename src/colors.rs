//! ANSI decoration of terminal messages.
use vstd::prelude::*;

verus! {

/// ANSI escape sequences used to decorate terminal output.
pub struct Color;

impl Color {
    pub const RESET: &'static str = "\x1b[0m";
    pub const RED: &'static str = "\x1b[31m";
    pub const GREEN: &'static str = "\x1b[32m";
    pub const YELLOW: &'static str = "\x1b[33m";
    pub const BLUE: &'static str = "\x1b[34m";
    pub const MAGENTA: &'static str = "\x1b[35m";
    pub const CYAN: &'static str = "\x1b[36m";
    pub const BOLD: &'static str = "\x1b[1m";
    pub const DIM: &'static str = "\x1b[2m";
}

/// A message led by a colored marker: `<color><marker><reset> <msg>`.
pub open spec fn marked(color: Seq<char>, marker: Seq<char>, msg: Seq<char>) -> Seq<char> {
    color + marker + Color::RESET@ + " "@ + msg
}

/// A message wrapped in a style and a reset: `<style><msg><reset>`.
pub open spec fn styled(style: Seq<char>, msg: Seq<char>) -> Seq<char> {
    style + msg + Color::RESET@
}

fn make_marked(color: &str, marker: &str, msg: &str) -> (r: String)
    ensures
        r@ == marked(color@, marker@, msg@),
{
    let mut s = String::from_str(color);
    s.append(marker);
    s.append(Color::RESET);
    s.append(" ");
    s.append(msg);
    s
}

fn make_styled(style: &str, msg: &str) -> (r: String)
    ensures
        r@ == styled(style@, msg@),
{
    let mut s = String::from_str(style);
    s.append(msg);
    s.append(Color::RESET);
    s
}

/// A green check mark before `msg`.
pub fn success(msg: &str) -> (r: String)
    ensures
        r@ == marked(Color::GREEN@, "✓"@, msg@),
{
    make_marked(Color::GREEN, "✓", msg)
}

/// A red cross before `msg`.
pub fn error(msg: &str) -> (r: String)
    ensures
        r@ == marked(Color::RED@, "✗"@, msg@),
{
    make_marked(Color::RED, "✗", msg)
}

/// A yellow warning sign before `msg`.
pub fn warning(msg: &str) -> (r: String)
    ensures
        r@ == marked(Color::YELLOW@, "⚠"@, msg@),
{
    make_marked(Color::YELLOW, "⚠", msg)
}

/// A blue information sign before `msg`.
pub fn info(msg: &str) -> (r: String)
    ensures
        r@ == marked(Color::BLUE@, "ℹ"@, msg@),
{
    make_marked(Color::BLUE, "ℹ", msg)
}

/// `msg` in cyan.
pub fn highlight(msg: &str) -> (r: String)
    ensures
        r@ == styled(Color::CYAN@, msg@),
{
    make_styled(Color::CYAN, msg)
}

/// `msg` in bold.
pub fn bold(msg: &str) -> (r: String)
    ensures
        r@ == styled(Color::BOLD@, msg@),
{
    make_styled(Color::BOLD, msg)
}

/// `msg` dimmed.
pub fn dim(msg: &str) -> (r: String)
    ensures
        r@ == styled(Color::DIM@, msg@),
{
    make_styled(Color::DIM, msg)
}

} // verus!
