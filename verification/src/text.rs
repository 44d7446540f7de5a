//! The status lines that the client reports, built character by character.
use vstd::prelude::*;
use vstd::string::*;

verus! {

/// The character of a decimal digit.
pub open spec fn digit_char(d: nat) -> char {
    if d == 0 {
        '0'
    } else if d == 1 {
        '1'
    } else if d == 2 {
        '2'
    } else if d == 3 {
        '3'
    } else if d == 4 {
        '4'
    } else if d == 5 {
        '5'
    } else if d == 6 {
        '6'
    } else if d == 7 {
        '7'
    } else if d == 8 {
        '8'
    } else {
        '9'
    }
}

/// The decimal notation of `n`, without sign or leading zeros.
pub open spec fn decimal(n: nat) -> Seq<char>
    decreases n,
{
    if n < 10 {
        seq![digit_char(n)]
    } else {
        decimal(n / 10) + seq![digit_char(n % 10)]
    }
}

/// The number that a string of decimal digits stands for.
pub open spec fn digits_value(s: Seq<char>) -> int
    decreases s.len(),
{
    if s.len() == 0 {
        0
    } else {
        digits_value(s.drop_last()) * 10 + (s.last() as int - '0' as int)
    }
}

/// Each digit character is `'0'` moved up by the digit.
pub proof fn lemma_digit_char_code(d: nat)
    requires
        d < 10,
    ensures
        digit_char(d) as int == '0' as int + d,
{
}

/// The decimal notation of `n` is made of digits, has no leading zero
/// (but for `n == 0`), and reads back as `n`.
pub proof fn lemma_decimal_reads_back(n: nat)
    ensures
        decimal(n).len() > 0,
        forall|i: int| 0 <= i < decimal(n).len() ==> '0' <= #[trigger] decimal(n)[i] <= '9',
        n > 0 ==> decimal(n)[0] != '0',
        digits_value(decimal(n)) == n,
    decreases n,
{
    if n < 10 {
        lemma_digit_char_code(n);
        let s = decimal(n);
        assert(s.drop_last() =~= Seq::<char>::empty());
        assert(digits_value(s) == digits_value(s.drop_last()) * 10 + (s.last() as int - '0' as int));
    } else {
        lemma_decimal_reads_back(n / 10);
        lemma_digit_char_code(n % 10);
        let s = decimal(n);
        assert(s.drop_last() =~= decimal(n / 10));
        assert(s.last() == digit_char(n % 10));
        assert forall|i: int| 0 <= i < s.len() implies '0' <= #[trigger] s[i] <= '9' by {
            if i < s.len() - 1 {
                assert(s[i] == decimal(n / 10)[i]);
            }
        }
        assert(s[0] == decimal(n / 10)[0]);
        assert(digits_value(s) == digits_value(s.drop_last()) * 10 + (s.last() as int - '0' as int));
        assert((n / 10) * 10 + n % 10 == n);
    }
}

fn digit_str(d: u64) -> (s: &'static str)
    requires
        d < 10,
    ensures
        s@ == seq![digit_char(d as nat)],
{
    if d == 0 {
        proof { reveal_strlit("0"); }
        "0"
    } else if d == 1 {
        proof { reveal_strlit("1"); }
        "1"
    } else if d == 2 {
        proof { reveal_strlit("2"); }
        "2"
    } else if d == 3 {
        proof { reveal_strlit("3"); }
        "3"
    } else if d == 4 {
        proof { reveal_strlit("4"); }
        "4"
    } else if d == 5 {
        proof { reveal_strlit("5"); }
        "5"
    } else if d == 6 {
        proof { reveal_strlit("6"); }
        "6"
    } else if d == 7 {
        proof { reveal_strlit("7"); }
        "7"
    } else if d == 8 {
        proof { reveal_strlit("8"); }
        "8"
    } else {
        proof { reveal_strlit("9"); }
        "9"
    }
}

/// The decimal notation of `n`, as `to_string` writes it.
pub fn decimal_string(n: u64) -> (s: String)
    ensures
        s@ == decimal(n as nat),
    decreases n,
{
    if n < 10 {
        String::from_str(digit_str(n))
    } else {
        let mut s = decimal_string(n / 10);
        s.append(digit_str(n % 10));
        s
    }
}

/// "Connected to {host}:{port}", reported after a connection is made.
pub open spec fn spec_connected_message(host: Seq<char>, port: u16) -> Seq<char> {
    "Connected to "@ + host + ":"@ + decimal(port as nat)
}

/// "Connected to {host}:{port}", reported after a connection is made.
pub fn connected_message(host: &str, port: u16) -> (s: String)
    ensures
        s@ == spec_connected_message(host@, port),
{
    let mut s = String::from_str("Connected to ");
    s.append(host);
    s.append(":");
    let p = decimal_string(port as u64);
    s.append(p.as_str());
    s
}

/// "Cannot connect: {reason}", reported when a connection fails.
pub fn cannot_connect_message(reason: &str) -> (s: String)
    ensures
        s@ == "Cannot connect: "@ + reason@,
{
    let mut s = String::from_str("Cannot connect: ");
    s.append(reason);
    s
}

/// The name under which an unhandled packet is reported: the opcode's name
/// where one is known, else "Unknown opcode: {opcode}".
pub open spec fn spec_unhandled_name(name: Option<Seq<char>>, opcode: u16) -> Seq<char> {
    match name {
        Some(n) => n,
        None => "Unknown opcode: "@ + decimal(opcode as nat),
    }
}

/// The name under which an unhandled packet is reported; `name` is the
/// opcode's name where the opcode table has one.
pub fn unhandled_name(name: Option<String>, opcode: u16) -> (s: String)
    ensures
        s@ == spec_unhandled_name(
            match name {
                Some(n) => Some(n@),
                None => None,
            },
            opcode,
        ),
{
    match name {
        Some(n) => n,
        None => {
            let mut s = String::from_str("Unknown opcode: ");
            let d = decimal_string(opcode as u64);
            s.append(d.as_str());
            s
        },
    }
}

/// "{name}: {bytes} bytes sent", reported after a packet is written; the
/// name is the opcode's name where one is known, else its number.
pub open spec fn spec_sent_message(name: Option<Seq<char>>, opcode: u32, bytes_sent: usize) -> Seq<char> {
    let shown = match name {
        Some(n) => n,
        None => decimal(opcode as nat),
    };
    shown + ": "@ + decimal(bytes_sent as nat) + " bytes sent"@
}

/// "{name}: {bytes} bytes sent", reported after a packet is written; `name`
/// is the opcode's name where the opcode table has one.
pub fn sent_message(name: Option<String>, opcode: u32, bytes_sent: usize) -> (s: String)
    ensures
        s@ == spec_sent_message(
            match name {
                Some(n) => Some(n@),
                None => None,
            },
            opcode,
            bytes_sent,
        ),
{
    let mut s = match name {
        Some(n) => n,
        None => decimal_string(opcode as u64),
    };
    s.append(": ");
    let b = decimal_string(bytes_sent as u64);
    s.append(b.as_str());
    s.append(" bytes sent");
    s
}

} // verus!
