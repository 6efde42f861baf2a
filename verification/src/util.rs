use vstd::prelude::*;
use vstd::string::StringExecFns;

verus! {

/// The characters one of which an email address must hold: a lower-case
/// letter, a digit, `_` or `+`.
pub open spec fn is_email_char(c: char) -> bool {
    ('a' <= c && c <= 'z') || ('0' <= c && c <= '9') || c == '_' || c == '+'
}

/// The format that every stored email address has: somewhere in it stands a
/// run that begins and ends with a lower-case letter, a digit, `_` or `+` and
/// holds only those and dots in between, as the pattern
/// `[a-z0-9_+]([a-z0-9_+.]*[a-z0-9_+])?` says. One such character is the
/// shortest run, so the text need only hold one.
pub open spec fn email_format_ok(email: Seq<char>) -> bool {
    exists|i: int| 0 <= i < email.len() && is_email_char(#[trigger] email[i])
}

fn email_char(c: char) -> (r: bool)
    ensures
        r == is_email_char(c),
{
    ('a' <= c && c <= 'z') || ('0' <= c && c <= '9') || c == '_' || c == '+'
}

/// The characters of a text, one by one.
pub fn chars_of(s: &str) -> (r: Vec<char>)
    ensures
        r@ == s@,
{
    let mut out: Vec<char> = Vec::new();
    for c in it: s.chars()
        invariant
            it.seq() == s@,
            out@ == it.seq().take(it.index()),
    {
        out.push(c);
    }
    out
}

/// Tells whether `email` has the format of an email address.
pub fn control_email(email: &str) -> (r: bool)
    ensures
        r == email_format_ok(email@),
{
    let chars = chars_of(email);
    let n = chars.len();
    let mut i: usize = 0;
    while i < n
        invariant
            n == email@.len(),
            chars@ == email@,
            i <= n,
            forall|j: int| 0 <= j < i ==> !is_email_char(#[trigger] email@[j]),
        decreases n - i,
    {
        if email_char(chars[i]) {
            return true;
        }
        i += 1;
    }
    false
}

/// An optional string seen as an optional text.
pub open spec fn option_text(o: Option<String>) -> Option<Seq<char>> {
    match o {
        Some(s) => Some(s@),
        None => None,
    }
}

/// Tells whether two texts are the same, character for character.
pub fn same_text(a: &str, b: &str) -> (r: bool)
    ensures
        r == (a@ == b@),
{
    let x = a.to_owned();
    let y = b.to_owned();
    x == y
}

/// The sixteen symbols that salts, generated ids and recovery tokens are made of.
pub open spec fn is_hex_char(c: char) -> bool {
    ('0' <= c && c <= '9') || ('a' <= c && c <= 'f')
}

/// A text made of hexadecimal symbols only.
pub open spec fn is_hex_text(s: Seq<char>) -> bool {
    forall|i: int| 0 <= i < s.len() ==> is_hex_char(#[trigger] s[i])
}

/// Draws a number below `n`: `rand::Rng::gen_range` on the thread's generator,
/// from 0 up to and not including `n`. The generator decides which one; the
/// range is all that is known of it.
#[verifier::external_body]
fn random_below(n: usize) -> (r: usize)
    requires
        n > 0,
    ensures
        r < n,
{
    rand::Rng::gen_range(&mut rand::thread_rng(), 0, n)
}

/// Reads the clock: `chrono::Utc::now`, handed on as the whole seconds since
/// the Unix epoch (`timestamp`) and the nanoseconds past them
/// (`timestamp_subsec_nanos`). `now` never returns a time before the epoch,
/// nor one whose day number leaves the 32-bit range; during a leap second the
/// nanoseconds may pass one thousand million.
#[verifier::external_body]
pub(crate) fn utc_now() -> (r: (i64, u32))
    ensures
        0 <= r.0 < 185_542_587_187_200,
        r.1 < 2_000_000_000,
{
    let t = chrono::Utc::now();
    (t.timestamp(), t.timestamp_subsec_nanos())
}

/// The point in time that a reading of `secs` whole seconds since the Unix
/// epoch and `nanos` nanoseconds past them stands for, in nanoseconds since
/// the Unix epoch.
pub open spec fn instant_of(secs: int, nanos: int) -> int {
    secs * 1_000_000_000 + nanos
}

/// The point in time that a reading of the clock stands for, in nanoseconds
/// since the Unix epoch.
pub fn instant(secs: i64, nanos: u32) -> (r: i128)
    ensures
        r == instant_of(secs as int, nanos as int),
{
    let whole: i128 = secs as i128;
    let past: i128 = nanos as i128;
    whole * 1_000_000_000 + past
}

/// The present moment in nanoseconds since the Unix epoch.
pub fn now_nanos() -> (r: i128)
    ensures
        0 <= r < 185_542_587_187_200 * 1_000_000_000 + 2_000_000_000,
{
    let t = utc_now();
    instant(t.0, t.1)
}

/// The present moment in whole seconds since the Unix epoch.
pub fn now_seconds() -> (r: i64)
    ensures
        0 <= r < 185_542_587_187_200,
{
    utc_now().0
}

fn hex_symbol(i: usize) -> (r: &'static str)
    requires
        i < 16,
    ensures
        r@.len() == 1,
        is_hex_char(r@[0]),
{
    proof {
        reveal_strlit("0");
        reveal_strlit("1");
        reveal_strlit("2");
        reveal_strlit("3");
        reveal_strlit("4");
        reveal_strlit("5");
        reveal_strlit("6");
        reveal_strlit("7");
        reveal_strlit("8");
        reveal_strlit("9");
        reveal_strlit("a");
        reveal_strlit("b");
        reveal_strlit("c");
        reveal_strlit("d");
        reveal_strlit("e");
        reveal_strlit("f");
    }
    match i {
        0 => "1",
        1 => "2",
        2 => "3",
        3 => "4",
        4 => "5",
        5 => "6",
        6 => "7",
        7 => "8",
        8 => "9",
        9 => "0",
        10 => "a",
        11 => "b",
        12 => "c",
        13 => "d",
        14 => "e",
        _ => "f",
    }
}

/// A fresh random text of `amount` hexadecimal symbols.
pub fn get_hash(amount: usize) -> (r: String)
    ensures
        r@.len() == amount,
        is_hex_text(r@),
{
    let mut out = String::new();
    let mut i: usize = 0;
    while i < amount
        invariant
            i <= amount,
            out@.len() == i,
            is_hex_text(out@),
        decreases amount - i,
    {
        let symbol = hex_symbol(random_below(16));
        out.append(symbol);
        i += 1;
    }
    out
}

/// Taking an entry out of a list without repeats takes exactly that entry's
/// value out of the set of its values.
pub proof fn lemma_remove_from_distinct<A>(s: Seq<A>, i: int)
    requires
        s.no_duplicates(),
        0 <= i < s.len(),
    ensures
        s.remove(i).no_duplicates(),
        s.remove(i).to_set() =~= s.to_set().remove(s[i]),
{
    let t = s.remove(i);
    assert forall|x: A| t.to_set().contains(x) <==> s.to_set().remove(s[i]).contains(x) by {
        if t.to_set().contains(x) {
            let j = choose|j: int| 0 <= j < t.len() && t[j] == x;
            if j < i {
                assert(s[j] == x);
            } else {
                assert(s[j + 1] == x);
            }
        }
        if s.to_set().remove(s[i]).contains(x) {
            let j = choose|j: int| 0 <= j < s.len() && s[j] == x;
            if j < i {
                assert(t[j] == x);
            } else {
                assert(t[j - 1] == x);
            }
        }
    }
}

} // verus!
