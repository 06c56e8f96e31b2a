//! The path that names an open file by its descriptor number.
//!
//! A composite image refers to its partition images, its header and its
//! footer by paths of the form `/proc/self/fd/N`, where `N` is the number of
//! a file descriptor in the table of the process that composed the image.
//! Whoever opens the composite image must hold the same files open at the
//! same descriptor numbers.

use vstd::prelude::*;
use vstd::string::*;

verus! {

/// The character for a decimal digit.
pub open spec fn digit_char(d: int) -> char
    recommends
        0 <= d < 10,
{
    seq!['0', '1', '2', '3', '4', '5', '6', '7', '8', '9'][d]
}

/// The decimal digits of a natural number, without leading zeros.
pub open spec fn decimal(n: nat) -> Seq<char>
    decreases n,
{
    if n < 10 {
        seq![digit_char(n as int)]
    } else {
        decimal(n / 10).push(digit_char((n % 10) as int))
    }
}

/// An integer in decimal, with a minus sign if it is negative.
pub open spec fn decimal_int(n: int) -> Seq<char> {
    if n < 0 {
        seq!['-'] + decimal((-n) as nat)
    } else {
        decimal(n as nat)
    }
}

/// The path that names the file open at descriptor number `fd` in the
/// current process.
pub open spec fn fd_path(fd: int) -> Seq<char> {
    "/proc/self/fd/"@ + decimal_int(fd)
}

fn digit_str(d: u32) -> (s: &'static str)
    requires
        d < 10,
    ensures
        s@ == seq![digit_char(d as int)],
{
    proof {
        reveal_strlit("0");
        reveal_strlit("1");
        reveal_strlit("2");
        reveal_strlit("3");
        reveal_strlit("4");
        reveal_strlit("5");
        reveal_strlit("6");
        reveal_strlit("7");
        reveal_strlit("8");
        reveal_strlit("9");
    }
    let s = match d {
        0 => "0",
        1 => "1",
        2 => "2",
        3 => "3",
        4 => "4",
        5 => "5",
        6 => "6",
        7 => "7",
        8 => "8",
        _ => "9",
    };
    assert(s@ =~= seq![digit_char(d as int)]);
    s
}

fn append_decimal(path: &mut String, n: u32)
    ensures
        final(path)@ == old(path)@ + decimal(n as nat),
    decreases n,
{
    if n >= 10 {
        append_decimal(path, n / 10);
    }
    path.append(digit_str(n % 10));
    assert(path@ =~= old(path)@ + decimal(n as nat));
}

fn append_decimal_int(text: &mut String, n: i32)
    ensures
        final(text)@ == old(text)@ + decimal_int(n as int),
{
    if n < 0 {
        proof {
            reveal_strlit("-");
        }
        text.append("-");
        let magnitude: u32 = (-(n as i64)) as u32;
        append_decimal(text, magnitude);
        assert(text@ =~= old(text)@ + decimal_int(n as int));
    } else {
        append_decimal(text, n as u32);
    }
}

/// A descriptor number in decimal.
pub fn decimal_string(n: i32) -> (text: String)
    ensures
        text@ == decimal_int(n as int),
{
    let mut text = String::new();
    append_decimal_int(&mut text, n);
    assert(text@ =~= decimal_int(n as int));
    text
}

/// The path that names the file open at descriptor number `fd` in the
/// current process: `/proc/self/fd/` and the number in decimal.
pub fn fd_path_for_file(fd: i32) -> (path: String)
    ensures
        path@ == fd_path(fd as int),
{
    let mut path = String::from_str("/proc/self/fd/");
    append_decimal_int(&mut path, fd);
    path
}

} // verus!
