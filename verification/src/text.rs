//! Texts the relay builds: identifiers printed as UUIDs, decimal numbers,
//! and the keys and channel names under which publishers are known.

use vstd::prelude::*;

verus! {

/// The character of a hexadecimal digit, lower case.
pub open spec fn hex_digit(n: int) -> char {
    if n < 10 {
        (n + 48) as char
    } else {
        (n + 87) as char
    }
}

/// Sixteen to the power `e`.
pub open spec fn pow16(e: nat) -> nat
    decreases e,
{
    if e == 0 {
        1
    } else {
        16 * pow16((e - 1) as nat)
    }
}

/// The `k`-th hexadecimal digit of `id`, counted from the most significant one
/// (`0 <= k < 32`).
pub open spec fn nibble(id: u128, k: int) -> int {
    (id as nat / pow16((31 - k) as nat)) as int % 16
}

/// Which hexadecimal digit stands at position `i` of a hyphenated UUID text.
pub open spec fn hex_index(i: int) -> int {
    if i < 8 {
        i
    } else if i < 13 {
        i - 1
    } else if i < 18 {
        i - 2
    } else if i < 23 {
        i - 3
    } else {
        i - 4
    }
}

/// The hyphenated lower-case text of a UUID whose 128 bits, most significant
/// first, are `id`: 32 hexadecimal digits in groups of 8-4-4-4-12.
pub open spec fn uuid_text(id: u128) -> Seq<char> {
    Seq::new(
        36,
        |i: int|
            if i == 8 || i == 13 || i == 18 || i == 23 {
                '-'
            } else {
                hex_digit(nibble(id, hex_index(i)))
            },
    )
}

/// Prints an identifier as a UUID, by `uuid`'s `Display`.
///
/// Trusted: `uuid::Uuid::from_u128` takes the bits most significant first,
/// and `Display` for `Uuid` writes the hyphenated lower-case form
/// (`format_hyphenated` in the crate's `fmt.rs`); the contract states that
/// form over `id`.
#[verifier::external_body]
pub(crate) fn format_uuid(id: u128) -> (text: String)
    ensures
        text@ == uuid_text(id),
{
    uuid::Uuid::from_u128(id).to_string()
}

/// The character of a decimal digit.
pub open spec fn digit_char(d: nat) -> char {
    (d + 48) as char
}

/// The decimal text of `n`, without leading zeros.
pub open spec fn decimal(n: nat) -> Seq<char>
    decreases n,
{
    if n < 10 {
        seq![digit_char(n)]
    } else {
        decimal(n / 10) + seq![digit_char(n % 10)]
    }
}

fn digit_text(d: u64) -> (text: &'static str)
    requires
        d < 10,
    ensures
        text@ == seq![digit_char(d as nat)],
{
    let t = match d {
        0 => "0",
        1 => "1",
        2 => "2",
        3 => "3",
        4 => "4",
        5 => "5",
        6 => "6",
        7 => "7",
        8 => "8",
        _ => "9",
    };
    proof {
        reveal_strlit("0");
        reveal_strlit("1");
        reveal_strlit("2");
        reveal_strlit("3");
        reveal_strlit("4");
        reveal_strlit("5");
        reveal_strlit("6");
        reveal_strlit("7");
        reveal_strlit("8");
        reveal_strlit("9");
    }
    assert(t@ =~= seq![digit_char(d as nat)]);
    t
}

/// The decimal text of `n`.
pub fn decimal_text(n: u64) -> (text: String)
    ensures
        text@ == decimal(n as nat),
    decreases n,
{
    if n < 10 {
        String::from_str(digit_text(n))
    } else {
        let mut text = decimal_text(n / 10);
        text.append(digit_text(n % 10));
        text
    }
}

/// The key under which a publisher is known to the store: `publisher:` and
/// its identifier.
pub open spec fn publisher_key(id: u128) -> Seq<char> {
    "publisher:"@ + uuid_text(id)
}

/// The key under which a publisher is known to the store.
pub fn publisher_key_text(id: u128) -> (key: String)
    ensures
        key@ == publisher_key(id),
{
    let mut key = String::from_str("publisher:");
    let ident = format_uuid(id);
    key.append(ident.as_str());
    key
}

/// The name of the channel on which a publisher's messages travel: its
/// identifier.
pub open spec fn channel_name(id: u128) -> Seq<char> {
    uuid_text(id)
}

/// The name of the channel on which a publisher's messages travel.
pub fn channel_text(id: u128) -> (channel: String)
    ensures
        channel@ == channel_name(id),
{
    format_uuid(id)
}

} // verus!
