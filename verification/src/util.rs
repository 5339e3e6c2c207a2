//! Chain registry and small helpers shared by the other modules.

use vstd::prelude::*;
use vstd::string::*;

verus! {

/// Numeric identifier of a chain.
pub type ChainID = u8;

/// The closed table of chains this service signs for.
pub open spec fn is_known_chain(id: int) -> bool {
    id == 1 || id == 2 || id == 3 || id == 4 || id == 5 || id == 6 || id == 30 || id == 31
        || id == 42 || id == 61 || id == 62 || id == 63
}

/// The character that stands for the decimal digit `d`.
pub open spec fn digit_char(d: int) -> char {
    if d == 0 {
        '0'
    } else if d == 1 {
        '1'
    } else if d == 2 {
        '2'
    } else if d == 3 {
        '3'
    } else if d == 4 {
        '4'
    } else if d == 5 {
        '5'
    } else if d == 6 {
        '6'
    } else if d == 7 {
        '7'
    } else if d == 8 {
        '8'
    } else {
        '9'
    }
}

/// Decimal notation of `n`, most significant digit first, without padding.
pub open spec fn decimal(n: nat) -> Seq<char>
    decreases n,
{
    if n < 10 {
        seq![digit_char(n as int)]
    } else {
        decimal(n / 10).push(digit_char((n % 10) as int))
    }
}

/// Canonical name of the chain `id`: its decimal notation.
pub open spec fn chain_name(id: int) -> Seq<char> {
    decimal(id as nat)
}

/// The name of the chain `id`, if the table holds it.
pub open spec fn name_of_chain(id: int) -> Option<Seq<char>> {
    if is_known_chain(id) {
        Some(chain_name(id))
    } else {
        None
    }
}

/// The identifier of the chain called `name`, if the table holds one of
/// that name.
pub open spec fn id_of_chain(name: Seq<char>) -> Option<u8> {
    if exists|id: u8| is_known_chain(id as int) && #[trigger] chain_name(id as int) == name {
        Some(choose|id: u8| is_known_chain(id as int) && #[trigger] chain_name(id as int) == name)
    } else {
        None
    }
}

/// The notation of a number below 1000, digit by digit.
pub proof fn lemma_decimal_small(n: nat)
    requires
        n < 1000,
    ensures
        n < 10 ==> decimal(n) =~= seq![digit_char(n as int)],
        10 <= n < 100 ==> decimal(n) =~= seq![digit_char(n as int / 10), digit_char(n as int % 10)],
        100 <= n ==> decimal(n) =~= seq![
            digit_char(n as int / 100),
            digit_char((n as int / 10) % 10),
            digit_char(n as int % 10),
        ],
{
    reveal_with_fuel(decimal, 3);
    if n >= 100 {
        assert((n / 10) / 10 == n / 100);
    }
}

fn digit_str(d: u8) -> (s: &'static str)
    requires
        d < 10,
    ensures
        s@ =~= seq![digit_char(d as int)],
{
    proof {
        reveal_strlit("0");
        reveal_strlit("1");
        reveal_strlit("2");
        reveal_strlit("3");
        reveal_strlit("4");
        reveal_strlit("5");
        reveal_strlit("6");
        reveal_strlit("7");
        reveal_strlit("8");
        reveal_strlit("9");
    }
    if d == 0 {
        "0"
    } else if d == 1 {
        "1"
    } else if d == 2 {
        "2"
    } else if d == 3 {
        "3"
    } else if d == 4 {
        "4"
    } else if d == 5 {
        "5"
    } else if d == 6 {
        "6"
    } else if d == 7 {
        "7"
    } else if d == 8 {
        "8"
    } else {
        "9"
    }
}

/// Writes `n` in decimal notation.
pub fn decimal_string(n: usize) -> (s: String)
    ensures
        s@ == decimal(n as nat),
    decreases n,
{
    if n < 10 {
        let s = String::from_str(digit_str(n as u8));
        assert(s@ =~= decimal(n as nat));
        s
    } else {
        let mut s = decimal_string(n / 10);
        s.append(digit_str((n % 10) as u8));
        s
    }
}

/// Whether `id` is in the table of chains.
pub fn known_chain(id: u8) -> (r: bool)
    ensures
        r == is_known_chain(id as int),
{
    id == 1 || id == 2 || id == 3 || id == 4 || id == 5 || id == 6 || id == 30 || id == 31
        || id == 42 || id == 61 || id == 62 || id == 63
}

/// Name of the chain `id`, if the table holds it.
pub fn to_chain_name(id: u8) -> (r: Option<String>)
    ensures
        match name_of_chain(id as int) {
            Some(name) => r matches Some(got) && got@ == name,
            None => r is None,
        },
{
    if known_chain(id) {
        Some(decimal_string(id as usize))
    } else {
        None
    }
}

/// Value of a decimal digit character.
pub open spec fn digit_value(c: char) -> Option<int> {
    if c == '0' {
        Some(0)
    } else if c == '1' {
        Some(1)
    } else if c == '2' {
        Some(2)
    } else if c == '3' {
        Some(3)
    } else if c == '4' {
        Some(4)
    } else if c == '5' {
        Some(5)
    } else if c == '6' {
        Some(6)
    } else if c == '7' {
        Some(7)
    } else if c == '8' {
        Some(8)
    } else if c == '9' {
        Some(9)
    } else {
        None
    }
}

fn digit_of(c: char) -> (r: Option<u8>)
    ensures
        match r {
            Some(d) => d < 10 && digit_value(c) == Some(d as int) && digit_char(d as int) == c,
            None => digit_value(c) is None && forall|d: int| digit_char(d) != c,
        },
{
    if c == '0' {
        Some(0)
    } else if c == '1' {
        Some(1)
    } else if c == '2' {
        Some(2)
    } else if c == '3' {
        Some(3)
    } else if c == '4' {
        Some(4)
    } else if c == '5' {
        Some(5)
    } else if c == '6' {
        Some(6)
    } else if c == '7' {
        Some(7)
    } else if c == '8' {
        Some(8)
    } else if c == '9' {
        Some(9)
    } else {
        None
    }
}

/// Identifier of the chain called `name`, if the table holds one of that name.
pub fn to_chain_id(name: &str) -> (r: Option<u8>)
    ensures
        r == id_of_chain(name@),
        match r {
            Some(id) => is_known_chain(id as int) && name@ == chain_name(id as int),
            None => forall|id: int| is_known_chain(id) ==> name@ != chain_name(id),
        },
{
    let r = parse_chain_id(name);
    proof {
        match r {
            Some(id) => {
                let found = id_of_chain(name@).unwrap();
                lemma_chain_names_distinct(found as int, id as int);
            },
            None => {},
        }
    }
    r
}

fn parse_chain_id(name: &str) -> (r: Option<u8>)
    ensures
        match r {
            Some(id) => is_known_chain(id as int) && name@ == chain_name(id as int),
            None => forall|id: int| is_known_chain(id) ==> name@ != chain_name(id),
        },
{
    let len: usize = name.unicode_len();
    proof {
        assert forall|id: int| is_known_chain(id) implies 1 <= (#[trigger] chain_name(id)).len()
            <= 2 by {
            lemma_decimal_small(id as nat);
        }
    }
    if len == 0 || len > 2 {
        return None;
    }
    let first = match digit_of(name.get_char(0)) {
        Some(d) => d,
        None => {
            proof {
                assert forall|id: int| is_known_chain(id) implies name@ != chain_name(id) by {
                    lemma_decimal_small(id as nat);
                }
            }
            return None;
        },
    };
    let value: u8 = if len == 1 {
        first
    } else {
        match digit_of(name.get_char(1)) {
            Some(d) => {
                if first == 0 {
                    proof {
                        assert forall|id: int| is_known_chain(id) implies name@ != chain_name(
                            id,
                        ) by {
                            lemma_decimal_small(id as nat);
                        }
                    }
                    return None;
                }
                first * 10 + d
            },
            None => {
                proof {
                    assert forall|id: int| is_known_chain(id) implies name@ != chain_name(id) by {
                        lemma_decimal_small(id as nat);
                    }
                }
                return None;
            },
        }
    };
    proof {
        lemma_decimal_small(value as nat);
        assert(name@ =~= chain_name(value as int));
        assert forall|id: int| is_known_chain(id) && id != value implies name@ != chain_name(
            id,
        ) by {
            lemma_decimal_small(id as nat);
        }
    }
    if known_chain(value) {
        Some(value)
    } else {
        None
    }
}

/// No two chains of the table have one name.
pub proof fn lemma_chain_names_distinct(a: int, b: int)
    requires
        is_known_chain(a),
        is_known_chain(b),
        chain_name(a) == chain_name(b),
    ensures
        a == b,
{
    lemma_decimal_small(a as nat);
    lemma_decimal_small(b as nat);
    let na = chain_name(a);
    let nb = chain_name(b);
    assert(na.len() == nb.len());
    assert(na[0] == nb[0]);
    if a >= 10 {
        assert(na[1] == nb[1]);
    }
}

/// The table pairs identifiers and names one to one: the name of a chain
/// of the table leads back to its identifier, and the identifier that a name
/// leads to has that name.
pub proof fn lemma_chain_round_trip(id: u8, name: Seq<char>)
    ensures
        name_of_chain(id as int) matches Some(n) ==> id_of_chain(n) == Some(id),
        id_of_chain(name) matches Some(i) ==> name_of_chain(i as int) == Some(name),
        !is_known_chain(id as int) ==> name_of_chain(id as int) is None,
{
    if is_known_chain(id as int) {
        let n = chain_name(id as int);
        let found = id_of_chain(n).unwrap();
        lemma_chain_names_distinct(found as int, id as int);
    }
}

} // verus!
