use vstd::prelude::*;
use vstd::utf8::encode_utf8;

verus! {

/// Number of bytes that the UTF-8 encoding of `s` takes.
pub open spec fn utf8_len(s: Seq<char>) -> nat {
    encode_utf8(s).len()
}

/// The decimal digit for `d` (taken modulo 10).
pub open spec fn digit_char(d: nat) -> char {
    seq!['0', '1', '2', '3', '4', '5', '6', '7', '8', '9'][(d % 10) as int]
}

/// The decimal notation of `n`, without leading zeros.
pub open spec fn decimal(n: nat) -> Seq<char>
    decreases n,
{
    if n < 10 {
        seq![digit_char(n)]
    } else {
        decimal(n / 10).push(digit_char(n % 10))
    }
}

/// The line that records `msg` stamped with `ts`: `[ts]: msg` and a newline.
pub open spec fn line_text(ts: Seq<char>, msg: Seq<char>) -> Seq<char> {
    seq!['['] + ts + seq![']', ':', ' '] + msg + seq!['\n']
}

/// The number of bytes counted for one entry: the byte length of its line.
pub open spec fn entry_len(line: Seq<char>) -> u64 {
    (utf8_len(line) as usize) as u64
}

/// The extension used for rotated files when the log file has none.
pub open spec fn default_extension() -> Seq<char> {
    seq!['l', 'o', 'g']
}

/// The name of a rotated file: `{stem}-{nanos}-{counter}.{ext}`, with `log`
/// as the extension where the log file has none.
pub open spec fn rotated_name(stem: Seq<char>, ext: Option<Seq<char>>, nanos: nat, counter: nat) -> Seq<char> {
    stem + seq!['-'] + decimal(nanos) + seq!['-'] + decimal(counter) + seq!['.'] + match ext {
        Some(e) => e,
        None => default_extension(),
    }
}

fn digit_str(d: u128) -> (r: &'static str)
    requires
        d < 10,
    ensures
        r@ == seq![digit_char(d as nat)],
{
    let digits = "0123456789";
    proof {
        reveal_strlit("0123456789");
    }
    assert(digits@ =~= seq!['0', '1', '2', '3', '4', '5', '6', '7', '8', '9']);
    let r = digits.substring_char(d as usize, d as usize + 1);
    assert(r@ =~= seq![digit_char(d as nat)]);
    r
}

fn append_decimal(s: &mut String, n: u128)
    ensures
        final(s)@ == old(s)@ + decimal(n as nat),
    decreases n,
{
    if n >= 10 {
        append_decimal(s, n / 10);
    }
    s.append(digit_str(n % 10));
    proof {
        if n >= 10 {
            assert(old(s)@ + decimal(n as nat) =~= old(s)@ + decimal((n / 10) as nat) + seq![
                digit_char((n % 10) as nat),
            ]);
        } else {
            assert(n % 10 == n);
        }
    }
}

/// The decimal notation of `n`.
pub fn to_decimal(n: u128) -> (r: String)
    ensures
        r@ == decimal(n as nat),
{
    let mut s = String::new();
    append_decimal(&mut s, n);
    assert(s@ =~= decimal(n as nat));
    s
}

/// The number of bytes of the UTF-8 encoding of `s`.
pub fn byte_len(s: &str) -> (r: usize)
    ensures
        r == utf8_len(s@) as usize,
{
    s.len()
}

/// The byte count of an entry whose line is `line`.
pub fn line_length(line: &str) -> (r: u64)
    ensures
        r == entry_len(line@),
{
    byte_len(line) as u64
}

/// The line written for message `msg` stamped with `ts`.
pub fn format_line(ts: &str, msg: &str) -> (r: String)
    ensures
        r@ == line_text(ts@, msg@),
{
    proof {
        reveal_strlit("[");
        reveal_strlit("]: ");
        reveal_strlit("\n");
    }
    let mut line = String::new();
    line.append("[");
    line.append(ts);
    line.append("]: ");
    line.append(msg);
    line.append("\n");
    assert("["@ =~= seq!['[']);
    assert("]: "@ =~= seq![']', ':', ' ']);
    assert("\n"@ =~= seq!['\n']);
    assert(line@ =~= line_text(ts@, msg@));
    line
}

/// The name of a rotated file, from the log file's stem and extension (if
/// any), the time in nanoseconds since the Unix epoch and the rotation
/// counter: `{stem}-{nanos}-{counter}.{ext}`, `ext` being `log` where the
/// log file has no extension.
pub fn rotated_file_name(stem: &str, ext: Option<&str>, nanos: u128, counter: usize) -> (r: String)
    ensures
        r@ == rotated_name(stem@, match ext {
            Some(e) => Some(e@),
            None => None,
        }, nanos as nat, counter as nat),
{
    proof {
        reveal_strlit("-");
        reveal_strlit(".");
        reveal_strlit("log");
    }
    let mut name = String::from_str(stem);
    name.append("-");
    append_decimal(&mut name, nanos);
    name.append("-");
    append_decimal(&mut name, counter as u128);
    name.append(".");
    match ext {
        Some(e) => name.append(e),
        None => name.append("log"),
    }
    assert("-"@ =~= seq!['-']);
    assert("."@ =~= seq!['.']);
    assert("log"@ =~= default_extension());
    let ghost e = match ext {
        Some(e) => Some(e@),
        None => None,
    };
    assert(name@ =~= rotated_name(stem@, e, nanos as nat, counter as nat));
    name
}

} // verus!
