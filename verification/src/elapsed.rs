use vstd::prelude::*;
use vstd::string::StringExecFns;

verus! {

/// The decimal digit character of a value below ten.
pub open spec fn digit_char(d: nat) -> char {
    if d == 0 {
        '0'
    } else if d == 1 {
        '1'
    } else if d == 2 {
        '2'
    } else if d == 3 {
        '3'
    } else if d == 4 {
        '4'
    } else if d == 5 {
        '5'
    } else if d == 6 {
        '6'
    } else if d == 7 {
        '7'
    } else if d == 8 {
        '8'
    } else {
        '9'
    }
}

/// The decimal numeral of `n`, most significant digit first.
pub open spec fn dec_str(n: nat) -> Seq<char>
    decreases n,
{
    if n < 10 {
        seq![digit_char(n)]
    } else {
        dec_str(n / 10).push(digit_char(n % 10))
    }
}

/// A two-digit rendering of a value below one hundred: one leading zero
/// where a single digit would stand alone.
pub open spec fn pad2(k: nat) -> Seq<char> {
    if k < 10 {
        "0"@ + dec_str(k)
    } else {
        dec_str(k)
    }
}

/// The rendering rule for an elapsed wall time of `secs` whole seconds and
/// `nanos` leftover nanoseconds: plain nanoseconds below a microsecond,
/// then whole microseconds, then whole milliseconds below one second, then
/// seconds with two centisecond digits below ten seconds, then whole
/// seconds alone.
pub open spec fn elapsed_str(secs: nat, nanos: nat) -> Seq<char> {
    if secs == 0 && nanos < 1000 {
        dec_str(nanos) + " ns"@
    } else if secs == 0 && nanos < 1000000 {
        dec_str(nanos / 1000) + " µs"@
    } else if secs == 0 {
        dec_str(nanos / 1000000) + " ms"@
    } else if secs < 10 {
        dec_str(secs) + "."@ + pad2(nanos / 10000000) + " s"@
    } else {
        dec_str(secs) + " s"@
    }
}

/// The one-character numeral of a single digit.
fn digit_str(d: u64) -> (r: &'static str)
    requires
        d < 10,
    ensures
        r@ == seq![digit_char(d as nat)],
{
    let r: &'static str = match d {
        0 => "0",
        1 => "1",
        2 => "2",
        3 => "3",
        4 => "4",
        5 => "5",
        6 => "6",
        7 => "7",
        8 => "8",
        _ => "9",
    };
    proof {
        reveal_strlit("0");
        reveal_strlit("1");
        reveal_strlit("2");
        reveal_strlit("3");
        reveal_strlit("4");
        reveal_strlit("5");
        reveal_strlit("6");
        reveal_strlit("7");
        reveal_strlit("8");
        reveal_strlit("9");
        assert(r@ =~= seq![digit_char(d as nat)]);
    }
    r
}

/// Renders `n` as its decimal numeral.
pub fn u64_to_string(n: u64) -> (r: String)
    ensures
        r@ == dec_str(n as nat),
    decreases n,
{
    if n < 10 {
        String::from_str(digit_str(n))
    } else {
        let front = u64_to_string(n / 10);
        let r = front.concat(digit_str(n % 10));
        proof {
            assert(r@ =~= dec_str((n / 10) as nat).push(digit_char((n % 10) as nat)));
        }
        r
    }
}

/// Renders an elapsed wall time, split into whole seconds and leftover
/// nanoseconds, by the fixed unit-choosing rule of `elapsed_str`.
pub fn format_elapsed(secs: u64, nanos: u32) -> (r: String)
    requires
        nanos < 1_000_000_000,
    ensures
        r@ == elapsed_str(secs as nat, nanos as nat),
{
    if secs == 0 && nanos < 1000 {
        u64_to_string(nanos as u64).concat(" ns")
    } else if secs == 0 && nanos < 1000000 {
        u64_to_string((nanos / 1000) as u64).concat(" µs")
    } else if secs == 0 {
        u64_to_string((nanos / 1000000) as u64).concat(" ms")
    } else if secs < 10 {
        let cent: u64 = (nanos / 10000000) as u64;
        let frac: String = if cent < 10 {
            String::from_str("0").concat(u64_to_string(cent).as_str())
        } else {
            u64_to_string(cent)
        };
        u64_to_string(secs).concat(".").concat(frac.as_str()).concat(" s")
    } else {
        u64_to_string(secs).concat(" s")
    }
}

} // verus!
