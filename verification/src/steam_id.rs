//! Steam account identifiers: the 64-bit number, the textual forms it is
//! read from and the canonical text it is written as.

use crate::text::{
    append_string, decimal, decimal_value, is_digit, is_numeral, lemma_decimal_round_trip,
    lemma_trimmed_fixed, parse_decimal, trimmed, u64_to_string,
};
use gokz_rs::SteamID;
use vstd::prelude::*;
use vstd::string::*;

verus! {

/// The 64-bit identifier of account number zero in the public universe.
/// A 32-bit identifier is the distance from this number.
pub const STEAM_ID_OFFSET: u64 = 76561197960265728;

/// The first 64-bit number whose universe has no canonical digit.
pub const STEAM_ID_LIMIT: u64 = 432345564227567616;

/// Two to the power of 56: the weight of the universe within an identifier.
pub const UNIVERSE_UNIT: u64 = 72057594037927936;

/// Two to the power of 32: the number of 32-bit identifiers.
pub const ID32_COUNT: u64 = 4294967296;

/// Whether `id` can be written in the canonical form: it is not below the
/// offset and its universe is one of `0..=5`.
pub open spec fn is_steam_id64(id: u64) -> bool {
    STEAM_ID_OFFSET <= id < STEAM_ID_LIMIT
}

/// The universe of an identifier, its top eight bits.
pub open spec fn universe_of(id: u64) -> nat {
    (id / UNIVERSE_UNIT) as nat
}

/// The lowest bit of an identifier, the `Y` of `STEAM_X:Y:Z`.
pub open spec fn account_type_of(id: u64) -> nat {
    (id % 2) as nat
}

/// The 32-bit form of an identifier: the low 32 bits of its distance from
/// the offset.
pub open spec fn id32_of(id: u64) -> nat
    recommends
        is_steam_id64(id),
{
    ((id - STEAM_ID_OFFSET) % (ID32_COUNT as int)) as nat
}

/// The account number of an identifier, the `Z` of `STEAM_X:Y:Z`.
pub open spec fn account_number_of(id: u64) -> nat
    recommends
        is_steam_id64(id),
{
    id32_of(id) / 2
}

/// The canonical text of an identifier: `STEAM_X:Y:Z` with the universe, the
/// lowest bit and the account number in base ten.
pub open spec fn steam_id_text(id: u64) -> Seq<char>
    recommends
        is_steam_id64(id),
{
    "STEAM_"@ + decimal(universe_of(id)) + ":"@ + decimal(account_type_of(id)) + ":"@ + decimal(
        account_number_of(id),
    )
}

/// The 64-bit identifier that `gokz_rs::SteamID::new` reads out of a text,
/// or `None` where it rejects the text.
pub uninterp spec fn steam_id64_of(text: Seq<char>) -> Option<u64>;

/// Calls `gokz_rs::SteamID::new` and hands out the 64-bit number of what it
/// accepted.
///
/// Trusted: the result is the one that [`steam_id64_of`] names.
#[verifier::external_body]
fn parse_steam_id64(text: &str) -> (r: Option<u64>)
    ensures
        r == steam_id64_of(text@),
{
    match SteamID::new(text) {
        Ok(steam_id) => Some(steam_id.as_id64()),
        Err(_) => None,
    }
}

/// A Steam account identifier that has a canonical text.
#[derive(Debug, Clone, Copy, PartialEq, Eq, Hash)]
pub struct SteamId {
    id64: u64,
}

impl View for SteamId {
    type V = u64;

    closed spec fn view(&self) -> u64 {
        self.id64
    }
}

impl SteamId {
    /// What holds of every identifier: it has a canonical text.
    #[verifier::type_invariant]
    pub closed spec fn well_formed(self) -> bool {
        is_steam_id64(self.id64)
    }

    /// What [`SteamId::new`] makes of the identifier that the outside parser
    /// read: the identifier itself where it has a canonical text.
    pub open spec fn accepted(parsed: Option<u64>) -> Option<u64> {
        match parsed {
            Some(id) if is_steam_id64(id) => Some(id),
            _ => None,
        }
    }

    /// Keeps a parsed identifier if it has a canonical text.
    pub fn from_parsed(parsed: Option<u64>) -> (r: Option<SteamId>)
        ensures
            r is Some <==> Self::accepted(parsed) is Some,
            r is Some ==> r->0@ == Self::accepted(parsed)->0,
    {
        match parsed {
            Some(id64) => {
                if STEAM_ID_OFFSET <= id64 && id64 < STEAM_ID_LIMIT {
                    Some(SteamId { id64 })
                } else {
                    None
                }
            },
            None => None,
        }
    }

    /// The identifier that a number stands for: a number that fits in 32 bits
    /// is the 32-bit form, the distance from the offset; a number above the
    /// offset that has a canonical text is the 64-bit form, the identifier
    /// itself; any other number is none.
    pub open spec fn of_number(number: nat) -> Option<u64> {
        if number <= u32::MAX {
            Some((number + STEAM_ID_OFFSET) as u64)
        } else if STEAM_ID_OFFSET < number < STEAM_ID_LIMIT {
            Some(number as u64)
        } else {
            None
        }
    }

    /// The identifier that a text is read as, if any. A numeral that fits in
    /// 64 bits is read as the number that it denotes. A text that is empty
    /// or starts with `<`, as a mention does, is no identifier. Any other
    /// text is handed to the outside parser, and what that reads counts if
    /// it has a canonical text.
    pub open spec fn read(text: Seq<char>) -> Option<u64> {
        if is_numeral(text) && decimal_value(text) <= u64::MAX {
            Self::of_number(decimal_value(text))
        } else if text.len() > 0 && text[0] != '<' {
            Self::accepted(steam_id64_of(text))
        } else {
            None
        }
    }

    /// The identifier that a number stands for, in the 32-bit or the 64-bit
    /// form.
    pub fn from_number(number: u64) -> (r: Option<SteamId>)
        ensures
            r is Some <==> Self::of_number(number as nat) is Some,
            r is Some ==> r->0@ == Self::of_number(number as nat)->0,
    {
        if number <= u32::MAX as u64 {
            Some(SteamId::from_id32(number as u32))
        } else {
            SteamId::from_id64(number)
        }
    }

    /// Reads an identifier from a text: from a number in base ten, or from
    /// any of the other textual forms that `gokz_rs::SteamID::new` accepts.
    pub fn new(input: &str) -> (r: Option<SteamId>)
        ensures
            r is Some <==> Self::read(input@) is Some,
            r is Some ==> r->0@ == Self::read(input@)->0,
    {
        if let Some(number) = parse_decimal(input) {
            return SteamId::from_number(number);
        }
        if input.unicode_len() == 0 {
            return None;
        }
        if input.get_char(0) == '<' {
            return None;
        }
        Self::from_parsed(parse_steam_id64(input))
    }

    /// The identifier with the given 64-bit number, which must lie above the
    /// offset and have a canonical text.
    pub fn from_id64(steam_id64: u64) -> (r: Option<SteamId>)
        ensures
            r is Some <==> STEAM_ID_OFFSET < steam_id64 < STEAM_ID_LIMIT,
            r is Some ==> r->0@ == steam_id64,
    {
        if STEAM_ID_OFFSET < steam_id64 && steam_id64 < STEAM_ID_LIMIT {
            Some(SteamId { id64: steam_id64 })
        } else {
            None
        }
    }

    /// The identifier with the given 32-bit number.
    pub fn from_id32(steam_id32: u32) -> (r: SteamId)
        ensures
            r@ == steam_id32 + STEAM_ID_OFFSET,
            is_steam_id64(r@),
            id32_of(r@) == steam_id32,
    {
        SteamId { id64: steam_id32 as u64 + STEAM_ID_OFFSET }
    }

    /// The 64-bit number.
    pub fn as_id64(&self) -> (r: u64)
        ensures
            r == self@,
            is_steam_id64(r),
    {
        proof {
            use_type_invariant(self);
        }
        self.id64
    }

    /// The 32-bit number.
    pub fn as_id32(&self) -> (r: u32)
        ensures
            r == id32_of(self@),
    {
        proof {
            use_type_invariant(self);
        }
        ((self.id64 - STEAM_ID_OFFSET) % ID32_COUNT) as u32
    }

    /// The canonical text, `STEAM_X:Y:Z`.
    pub fn to_text(&self) -> (r: String)
        ensures
            r@ == steam_id_text(self@),
    {
        proof {
            use_type_invariant(self);
        }
        let universe: u64 = self.id64 / UNIVERSE_UNIT;
        let account_type: u64 = self.id64 % 2;
        let account_number: u64 = ((self.id64 - STEAM_ID_OFFSET) % ID32_COUNT) / 2;
        let mut r = String::from_str("STEAM_");
        append_string(&mut r, u64_to_string(universe));
        r.append(":");
        append_string(&mut r, u64_to_string(account_type));
        r.append(":");
        append_string(&mut r, u64_to_string(account_number));
        r
    }
}

/// The canonical text neither starts nor ends with white space: it starts
/// with a letter and ends with a digit.
pub proof fn lemma_steam_id_text_is_trimmed(id: u64)
    ensures
        steam_id_text(id).len() >= 11,
        steam_id_text(id)[0] == 'S',
        is_digit(steam_id_text(id).last()),
        trimmed(steam_id_text(id)) == steam_id_text(id),
{
    reveal_strlit("STEAM_");
    reveal_strlit(":");
    let text = steam_id_text(id);
    let number = decimal(account_number_of(id));
    lemma_decimal_round_trip(universe_of(id));
    lemma_decimal_round_trip(account_type_of(id));
    lemma_decimal_round_trip(account_number_of(id));
    assert(text[0] == 'S');
    assert(text.last() == number.last());
    assert(is_digit(number[number.len() - 1]));
    lemma_trimmed_fixed(text);
}

/// Whether `id` belongs to an account of the public universe: it is at most
/// as far from the offset as a 32-bit identifier can tell.
pub open spec fn is_public_id64(id: u64) -> bool {
    STEAM_ID_OFFSET <= id < STEAM_ID_OFFSET + ID32_COUNT
}

/// The canonical text of an account of the public universe is `STEAM_1:`,
/// the lowest bit, a colon and half the distance from the offset.
pub proof fn lemma_public_steam_id_text(id: u64)
    requires
        is_public_id64(id),
    ensures
        is_steam_id64(id),
        universe_of(id) == 1,
        id == STEAM_ID_OFFSET + 2 * account_number_of(id) + account_type_of(id),
        steam_id_text(id) == "STEAM_1:"@ + decimal(account_type_of(id)) + ":"@ + decimal(
            account_number_of(id),
        ),
        decimal(account_type_of(id)).len() == 1,
{
    reveal_strlit("STEAM_");
    reveal_strlit("STEAM_1:");
    reveal_strlit(":");
    reveal_with_fuel(decimal, 2);
    assert(universe_of(id) == 1);
    assert(decimal(1) =~= seq!['1']);
    assert("STEAM_"@ + decimal(1) + ":"@ =~= "STEAM_1:"@);
    assert(steam_id_text(id) =~= "STEAM_1:"@ + decimal(account_type_of(id)) + ":"@ + decimal(
        account_number_of(id),
    ));
}

/// Two accounts of the public universe with the same canonical text are the
/// same account.
pub proof fn lemma_steam_id_text_tells_ids_apart(a: u64, b: u64)
    requires
        is_public_id64(a),
        is_public_id64(b),
        steam_id_text(a) == steam_id_text(b),
    ensures
        a == b,
{
    lemma_public_steam_id_text(a);
    lemma_public_steam_id_text(b);
    reveal_strlit("STEAM_1:");
    reveal_strlit(":");
    let text = steam_id_text(a);
    let type_a = decimal(account_type_of(a));
    let type_b = decimal(account_type_of(b));
    let number_a = decimal(account_number_of(a));
    let number_b = decimal(account_number_of(b));
    assert(text == "STEAM_1:"@ + type_a + ":"@ + number_a);
    assert(text == "STEAM_1:"@ + type_b + ":"@ + number_b);
    assert(text.subrange(8, 9) =~= type_a);
    assert(text.subrange(8, 9) =~= type_b);
    assert(text.subrange(10, text.len() as int) =~= number_a);
    assert(text.subrange(10, text.len() as int) =~= number_b);
    lemma_decimal_round_trip(account_type_of(a));
    lemma_decimal_round_trip(account_type_of(b));
    lemma_decimal_round_trip(account_number_of(a));
    lemma_decimal_round_trip(account_number_of(b));
}

/// A 32-bit number written in base ten is read as the identifier that far
/// from the offset, which is an account of the public universe, and so is
/// that identifier written in base ten, unless it is the offset itself.
pub proof fn lemma_numbers_are_read(id32: u32)
    ensures
        SteamId::read(decimal(id32 as nat)) == Some((id32 + STEAM_ID_OFFSET) as u64),
        id32 > 0 ==> SteamId::read(decimal((id32 + STEAM_ID_OFFSET) as nat)) == Some(
            (id32 + STEAM_ID_OFFSET) as u64,
        ),
        is_public_id64((id32 + STEAM_ID_OFFSET) as u64),
        id32_of((id32 + STEAM_ID_OFFSET) as u64) == id32,
{
    lemma_decimal_round_trip(id32 as nat);
    lemma_decimal_round_trip((id32 + STEAM_ID_OFFSET) as nat);
}

} // verus!
