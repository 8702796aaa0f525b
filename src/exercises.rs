//! The exercise programs' computations: temperature conversion, the number
//! sequence that starts 0, 1, and the cumulative verse.
use vstd::prelude::*;

verus! {

/// The classic two-term recurrence: `fib(0) == 0`, `fib(1) == 1`.
pub open spec fn fib(k: nat) -> nat
    decreases k,
{
    if k == 0 {
        0
    } else if k == 1 {
        1
    } else {
        fib((k - 2) as nat) + fib((k - 1) as nat)
    }
}

/// The `n`th term of the sequence counted from one: 0, 1, 1, 2, 3, 5, 8, ...
/// Indices below one give 0.
pub open spec fn term(n: int) -> nat {
    if n <= 1 {
        0
    } else {
        fib((n - 1) as nat)
    }
}

/// The recurrence never decreases.
pub proof fn lemma_fib_monotone(i: nat, j: nat)
    requires
        i <= j,
    ensures
        fib(i) <= fib(j),
    decreases j,
{
    if i < j {
        lemma_fib_monotone(i, (j - 1) as nat);
        if j >= 2 {
            assert(fib(j) == fib((j - 2) as nat) + fib((j - 1) as nat));
        }
    }
}

/// The `n`th term of the sequence, or `None` where it does not fit in a `u64`.
pub fn fibonacci(n: i32) -> (r: Option<u64>)
    ensures
        r is Some <==> term(n as int) <= u64::MAX,
        r matches Some(v) ==> v == term(n as int),
{
    if n <= 1 {
        return Some(0);
    }
    // first == fib(k - 1), second == fib(k)
    let mut first: u64 = 0;
    let mut second: u64 = 1;
    let mut k: i32 = 1;
    while k < n - 1
        invariant
            1 <= k <= n - 1,
            first == fib((k - 1) as nat),
            second == fib(k as nat),
        decreases n - k,
    {
        match first.checked_add(second) {
            Some(next) => {
                assert(fib((k + 1) as nat) == fib((k - 1) as nat) + fib(k as nat));
                first = second;
                second = next;
                k = k + 1;
            },
            None => {
                assert(fib((k + 1) as nat) == fib((k - 1) as nat) + fib(k as nat));
                proof {
                    lemma_fib_monotone((k + 1) as nat, (n - 1) as nat);
                }
                return None;
            },
        }
    }
    Some(second)
}

/// Five times the Fahrenheit value of a Celsius temperature: `9 * c + 160`.
/// Counting in fifths of a degree keeps the conversion exact.
pub open spec fn fahrenheit_fifths(c: int) -> int {
    9 * c + 160
}

/// Converts a Celsius temperature to Fahrenheit, in fifths of a degree.
pub fn convert_temp(temp: i32) -> (r: i64)
    ensures
        r == fahrenheit_fifths(temp as int),
{
    9 * (temp as i64) + 160
}

/// The ordinal word of a day of the verse; empty outside one to three.
pub open spec fn ordinal(index: int) -> Seq<char> {
    if index == 1 {
        "first"@
    } else if index == 2 {
        "second"@
    } else if index == 3 {
        "third"@
    } else {
        ""@
    }
}

/// The line that opens the verse of a day, with a blank line before it.
pub open spec fn heading(index: int) -> Seq<char> {
    "\nOn the "@ + ordinal(index) + " day of Christmas my true love sent to me"@
}

/// The gifts of a day, one per line, the newest first.
pub open spec fn gifts(day: int) -> Seq<char>
    decreases day,
{
    if day <= 1 {
        "A patridge in a pear tree."@
    } else if day == 2 {
        "Tow turtle doves,\nAnd "@ + gifts(1)
    } else {
        "Three French hens,\n"@ + gifts(2)
    }
}

/// The verses of the first `days` days, each line ended by a newline.
pub open spec fn verses(days: int) -> Seq<char>
    decreases days,
{
    if days <= 0 {
        Seq::empty()
    } else {
        verses(days - 1) + heading(days) + "\n"@ + gifts(days) + "\n"@
    }
}

/// The whole song: the verses of three days and a closing blank line.
pub open spec fn carol_text() -> Seq<char> {
    verses(3) + "\n"@
}

fn day_ordinal(index: i32) -> (r: &'static str)
    ensures
        r@ == ordinal(index as int),
{
    match index {
        1 => "first",
        2 => "second",
        3 => "third",
        _ => "",
    }
}

/// The line that opens the verse of day `index`.
pub fn repeating_line(index: i32) -> (r: String)
    ensures
        r@ == heading(index as int),
{
    let mut line = String::from_str("\nOn the ");
    line.append(day_ordinal(index));
    line.append(" day of Christmas my true love sent to me");
    line
}

/// The three verses of the song, cumulative: each day repeats the gifts of
/// the days before it under a new one.
pub fn carol() -> (r: String)
    ensures
        r@ == carol_text(),
{
    let mut out = String::new();
    let mut recursive_line = String::from_str("A patridge in a pear tree.");
    let mut i: i32 = 1;
    while i <= 3
        invariant
            1 <= i <= 4,
            out@ == verses(i - 1),
            recursive_line@ == gifts(if i <= 1 { 1 } else { i - 1 }),
        decreases 4 - i,
    {
        let line = repeating_line(i);
        out.append(line.as_str());
        out.append("\n");
        if i == 2 {
            let mut next = String::from_str("Tow turtle doves,\nAnd ");
            next.append(recursive_line.as_str());
            recursive_line = next;
        } else if i == 3 {
            let mut next = String::from_str("Three French hens,\n");
            next.append(recursive_line.as_str());
            recursive_line = next;
        }
        out.append(recursive_line.as_str());
        out.append("\n");
        i = i + 1;
    }
    out.append("\n");
    out
}

} // verus!
