//! The SQL statements that link a user to their states: decimal rendering
//! of the values and exact statement text, all verified. The state code and
//! date come from closed types, so nothing user-controlled reaches the
//! statement text.

use vstd::prelude::*;
use vstd::string::StringExecFns;
use crate::hours::RenewalDate;
use crate::states::{spec_code, UsState};
use crate::text::push_char;

verus! {

/// The decimal digit of a value below ten.
pub open spec fn digit_char(n: int) -> char {
    if n == 0 {
        '0'
    } else if n == 1 {
        '1'
    } else if n == 2 {
        '2'
    } else if n == 3 {
        '3'
    } else if n == 4 {
        '4'
    } else if n == 5 {
        '5'
    } else if n == 6 {
        '6'
    } else if n == 7 {
        '7'
    } else if n == 8 {
        '8'
    } else {
        '9'
    }
}

/// The decimal digits of a non-negative value, most significant first, no
/// leading zeros (a lone zero for zero).
pub open spec fn dec_nat(n: nat) -> Seq<char>
    decreases n,
{
    if n < 10 {
        seq![digit_char(n as int)]
    } else {
        dec_nat(n / 10).push(digit_char(n as int % 10))
    }
}

/// The decimal rendering of an integer, a minus sign ahead of a negative.
pub open spec fn dec_int(n: int) -> Seq<char> {
    if n < 0 {
        seq!['-'] + dec_nat((-n) as nat)
    } else {
        dec_nat(n as nat)
    }
}

fn digit_of(n: u64) -> (c: char)
    requires
        n < 10,
    ensures
        c == digit_char(n as int),
{
    match n {
        0 => '0',
        1 => '1',
        2 => '2',
        3 => '3',
        4 => '4',
        5 => '5',
        6 => '6',
        7 => '7',
        8 => '8',
        _ => '9',
    }
}

fn push_dec(n: u64, out: &mut String)
    ensures
        final(out)@ == old(out)@ + dec_nat(n as nat),
    decreases n,
{
    if n >= 10 {
        push_dec(n / 10, out);
        let ghost mid = out@;
        push_char(out, digit_of(n % 10));
        proof {
            assert(mid.push(digit_char(n as int % 10)) =~= old(out)@ + dec_nat(n as nat));
        }
    } else {
        push_char(out, digit_of(n));
        proof {
            assert(old(out)@.push(digit_char(n as int)) =~= old(out)@ + dec_nat(n as nat));
        }
    }
}

fn push_int(n: i64, out: &mut String)
    ensures
        final(out)@ == old(out)@ + dec_int(n as int),
{
    if n < 0 {
        push_char(out, '-');
        let ghost mid = out@;
        let magnitude = (-(n as i128)) as u64;
        proof {
            assert(magnitude as nat == (-(n as int)) as nat);
        }
        push_dec(magnitude, out);
        proof {
            assert(old(out)@.push('-') + dec_nat((-(n as int)) as nat) =~= old(out)@ + dec_int(
                n as int,
            ));
        }
    } else {
        push_dec(n as u64, out);
    }
}

/// A number rendered to exactly `width` digits, zero-padded, truncated to
/// its low digits if it is too wide (the dates rendered here never are).
pub open spec fn dec_padded(n: int, width: nat) -> Seq<char>
    decreases width,
{
    if width == 0 {
        seq![]
    } else {
        dec_padded(n / 10, (width - 1) as nat).push(digit_char(n % 10))
    }
}

fn push_padded_u32(n: u32, width: u32, out: &mut String)
    ensures
        final(out)@ == old(out)@ + dec_padded(n as int, width as nat),
    decreases width,
{
    if width == 0 {
        proof {
            assert(old(out)@ + dec_padded(n as int, 0) =~= old(out)@);
        }
    } else {
        push_padded_u32(n / 10, width - 1, out);
        let ghost mid = out@;
        push_char(out, digit_of((n % 10) as u64));
        proof {
            assert(mid.push(digit_char(n as int % 10)) =~= old(out)@ + dec_padded(
                n as int,
                width as nat,
            ));
        }
    }
}

/// A date as SQL sees it: four-digit year, two-digit month and day,
/// hyphen-separated.
pub open spec fn spec_date_string(d: RenewalDate) -> Seq<char> {
    dec_padded(d.year as int, 4) + seq!['-'] + dec_padded(d.month as int, 2) + seq!['-']
        + dec_padded(d.day as int, 2)
}

/// Renders a renewal date as `YYYY-MM-DD`.
pub fn date_string(d: &RenewalDate) -> (s: String)
    ensures
        s@ == spec_date_string(*d),
{
    let mut s = String::new();
    push_padded_u32(d.year, 4, &mut s);
    push_char(&mut s, '-');
    push_padded_u32(d.month, 2, &mut s);
    push_char(&mut s, '-');
    push_padded_u32(d.day, 2, &mut s);
    proof {
        assert(s@ =~= spec_date_string(*d));
    }
    s
}

/// The statement that looks a state row up by its code.
pub fn state_lookup_query(state: UsState) -> (q: String)
    ensures
        q@ == "SELECT id FROM state WHERE name = '"@ + spec_code(state) + "' LIMIT 1"@,
{
    let mut q = String::new();
    q.append("SELECT id FROM state WHERE name = '");
    q.append(state.code());
    q.append("' LIMIT 1");
    proof {
        assert(q@ =~= "SELECT id FROM state WHERE name = '"@ + spec_code(state)
            + "' LIMIT 1"@);
    }
    q
}

/// The statement that records one state's hours and renewal date for a
/// user.
pub fn user_state_insert_query(user_id: i32, state_id: i32, completed: u16, due: &RenewalDate) -> (q:
    String)
    ensures
        q@ == "INSERT INTO user_state (user_id, state_id, hours_complete, renewal_date) VALUES ("@
            + dec_int(user_id as int) + ", "@ + dec_int(state_id as int) + ", "@ + dec_nat(
            completed as nat,
        ) + ", '"@ + spec_date_string(*due) + "')"@,
{
    let mut q = String::new();
    q.append("INSERT INTO user_state (user_id, state_id, hours_complete, renewal_date) VALUES (");
    push_int(user_id as i64, &mut q);
    q.append(", ");
    push_int(state_id as i64, &mut q);
    q.append(", ");
    push_dec(completed as u64, &mut q);
    q.append(", '");
    let ds = date_string(due);
    q.append(ds.as_str());
    q.append("')");
    proof {
        assert(q@ =~= "INSERT INTO user_state (user_id, state_id, hours_complete, renewal_date) VALUES ("@
            + dec_int(user_id as int) + ", "@ + dec_int(state_id as int) + ", "@ + dec_nat(
            completed as nat,
        ) + ", '"@ + spec_date_string(*due) + "')"@);
    }
    q
}

} // verus!
