use vstd::prelude::*;
use vstd::string::*;

verus! {

/// Number of bytes in one KB.
pub const KB: u64 = 1024;

/// Number of bytes in one MB.
pub const MB: u64 = 1048576;

/// Number of bytes in one GB.
pub const GB: u64 = 1073741824;

/// Number of bytes in one TB.
pub const TB: u64 = 1099511627776;

/// The character of a decimal digit.
pub open spec fn digit_char(d: nat) -> char {
    if d == 0 {
        '0'
    } else if d == 1 {
        '1'
    } else if d == 2 {
        '2'
    } else if d == 3 {
        '3'
    } else if d == 4 {
        '4'
    } else if d == 5 {
        '5'
    } else if d == 6 {
        '6'
    } else if d == 7 {
        '7'
    } else if d == 8 {
        '8'
    } else {
        '9'
    }
}

/// The decimal notation of `n`, without leading zeros.
pub open spec fn decimal(n: nat) -> Seq<char>
    decreases n,
{
    if n < 10 {
        seq![digit_char(n)]
    } else {
        decimal(n / 10).push(digit_char(n % 10))
    }
}

/// How a byte count is written: the largest unit of bytes, KB, MB, GB, TB
/// (powers of 1024) under which it is at least one, the count divided
/// (truncating) by that unit.
pub open spec fn size_text(n: nat) -> Seq<char> {
    if n < KB {
        decimal(n) + " bytes"@
    } else if n < MB {
        decimal(n / KB as nat) + " KB"@
    } else if n < GB {
        decimal(n / MB as nat) + " MB"@
    } else if n < TB {
        decimal(n / GB as nat) + " GB"@
    } else {
        decimal(n / TB as nat) + " TB"@
    }
}

/// The line that reports an entry of `size` bytes at `path`.
pub open spec fn report_text(size: nat, path: Seq<char>) -> Seq<char> {
    size_text(size) + " bytes: "@ + path
}

fn digit_str(d: u64) -> (r: &'static str)
    requires
        d < 10,
    ensures
        r@ == seq![digit_char(d as nat)],
{
    proof {
        reveal_strlit("0");
        reveal_strlit("1");
        reveal_strlit("2");
        reveal_strlit("3");
        reveal_strlit("4");
        reveal_strlit("5");
        reveal_strlit("6");
        reveal_strlit("7");
        reveal_strlit("8");
        reveal_strlit("9");
    }
    if d == 0 {
        "0"
    } else if d == 1 {
        "1"
    } else if d == 2 {
        "2"
    } else if d == 3 {
        "3"
    } else if d == 4 {
        "4"
    } else if d == 5 {
        "5"
    } else if d == 6 {
        "6"
    } else if d == 7 {
        "7"
    } else if d == 8 {
        "8"
    } else {
        "9"
    }
}

/// Writes `n` in decimal.
pub fn decimal_string(n: u64) -> (r: String)
    ensures
        r@ == decimal(n as nat),
    decreases n,
{
    if n < 10 {
        String::from_str(digit_str(n))
    } else {
        let mut s = decimal_string(n / 10);
        s.append(digit_str(n % 10));
        s
    }
}

/// Writes a byte count for people, in the largest binary unit that fits
/// (TB at most), the count truncated to that unit.
pub fn format_size(size_in_bytes: u64) -> (r: String)
    ensures
        r@ == size_text(size_in_bytes as nat),
{
    if size_in_bytes < KB {
        decimal_string(size_in_bytes).concat(" bytes")
    } else if size_in_bytes < MB {
        decimal_string(size_in_bytes / KB).concat(" KB")
    } else if size_in_bytes < GB {
        decimal_string(size_in_bytes / MB).concat(" MB")
    } else if size_in_bytes < TB {
        decimal_string(size_in_bytes / GB).concat(" GB")
    } else {
        decimal_string(size_in_bytes / TB).concat(" TB")
    }
}

/// The line that reports an entry: its formatted size, then ` bytes: `, then
/// its path.
pub fn report_line(size: u64, path: &str) -> (r: String)
    ensures
        r@ == report_text(size as nat, path@),
{
    format_size(size).concat(" bytes: ").concat(path)
}

} // verus!
