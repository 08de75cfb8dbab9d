//! Keys and derived addresses as 32 plain bytes. The text form, the parser and
//! the address derivation are those of `solana_sdk`.

use vstd::prelude::*;
use vstd::std_specs::cmp::PartialEqSpecImpl;

verus! {

/// A public key, or an address derived from one.
#[derive(Clone, Copy, Debug, Eq)]
pub struct Pubkey {
    pub bytes: [u8; 32],
}

impl PartialEq for Pubkey {
    /// Two keys are equal when their bytes are.
    fn eq(&self, other: &Pubkey) -> (r: bool) {
        let mut i: usize = 0;
        while i < 32
            invariant
                i <= 32,
                forall|j: int| 0 <= j < i ==> self.bytes@[j] == other.bytes@[j],
            decreases 32 - i,
        {
            if self.bytes[i] != other.bytes[i] {
                return false;
            }
            i += 1;
        }
        assert(self.bytes@ =~= other.bytes@);
        true
    }
}

impl PartialEqSpecImpl for Pubkey {
    open spec fn obeys_eq_spec() -> bool {
        true
    }

    open spec fn eq_spec(&self, other: &Pubkey) -> bool {
        self.bytes@ == other.bytes@
    }
}

/// Keys with the same bytes are the same key.
pub proof fn lemma_key_by_bytes(a: Pubkey, b: Pubkey)
    ensures
        (a.bytes@ == b.bytes@) == (a == b),
{
    if a.bytes@ == b.bytes@ {
        assert(a.bytes =~= b.bytes);
    }
}

/// Why a text is not a key.
#[derive(Clone, Copy, Debug, PartialEq, Eq, Structural)]
pub enum ParsePubkeyError {
    /// The text is too long, or does not decode to 32 bytes.
    WrongSize,
    /// The text is not Base58.
    Invalid,
}

/// What `solana_sdk` reads from a text: the key's bytes, or why there is none.
pub uninterp spec fn parsed_key(text: Seq<char>) -> Result<Seq<u8>, ParsePubkeyError>;

/// The Base58 text by which `solana_sdk` shows the key of the given bytes.
pub uninterp spec fn key_text(bytes: Seq<u8>) -> Seq<char>;

/// The address that `solana_sdk` derives for a program from seeds, with the
/// bump that made it valid; `None` where no bump does or a seed is not allowed.
pub uninterp spec fn derived_address(seeds: Seq<Seq<u8>>, program_id: Seq<u8>) -> Option<
    (Seq<u8>, u8),
>;

/// A parser's result, with the key as its bytes.
pub open spec fn key_outcome(r: Result<Pubkey, ParsePubkeyError>) -> Result<
    Seq<u8>,
    ParsePubkeyError,
> {
    match r {
        Ok(key) => Ok(key.bytes@),
        Err(e) => Err(e),
    }
}

/// A derivation's result, with the address as its bytes.
pub open spec fn address_outcome(r: Option<(Pubkey, u8)>) -> Option<(Seq<u8>, u8)> {
    match r {
        Some(found) => Some((found.0.bytes@, found.1)),
        None => None,
    }
}

/// The seeds as sequences of bytes.
pub open spec fn seed_bytes(seeds: Seq<Vec<u8>>) -> Seq<Seq<u8>> {
    seeds.map_values(|seed: Vec<u8>| seed@)
}

/// Calls `Pubkey::from_str` of `solana_sdk`. The outcome is a function of the
/// text alone and is named `parsed_key`; a key that comes back holds the 32
/// bytes that were decoded, an error is one of the parser's two.
#[verifier::external_body]
pub(crate) fn parse_key(text: &str) -> (r: Result<Pubkey, ParsePubkeyError>)
    ensures
        parsed_key(text@) == key_outcome(r),
{
    match text.parse::<solana_sdk::pubkey::Pubkey>() {
        Ok(key) => Ok(Pubkey { bytes: key.to_bytes() }),
        Err(solana_sdk::pubkey::ParsePubkeyError::WrongSize) => Err(ParsePubkeyError::WrongSize),
        Err(solana_sdk::pubkey::ParsePubkeyError::Invalid) => Err(ParsePubkeyError::Invalid),
    }
}

/// Calls `to_string` on the `solana_sdk` key of these bytes: its Base58 text,
/// named `key_text`.
#[verifier::external_body]
pub(crate) fn show_key(key: &Pubkey) -> (text: String)
    ensures
        text@ == key_text(key.bytes@),
{
    solana_sdk::pubkey::Pubkey::new_from_array(key.bytes).to_string()
}

/// Calls `Pubkey::try_find_program_address` of `solana_sdk`, which searches
/// the bump seeds from 255 down and returns the first valid address with its
/// bump, or `None`. The outcome is a function of the seeds and the program's
/// key alone and is named `derived_address`.
#[verifier::external_body]
pub(crate) fn derive_address(seeds: &Vec<Vec<u8>>, program_id: &Pubkey) -> (r: Option<(Pubkey, u8)>)
    ensures
        derived_address(seed_bytes(seeds@), program_id.bytes@) == address_outcome(r),
{
    let parts: Vec<&[u8]> = seeds.iter().map(|seed| seed.as_slice()).collect();
    let program = solana_sdk::pubkey::Pubkey::new_from_array(program_id.bytes);
    solana_sdk::pubkey::Pubkey::try_find_program_address(&parts, &program).map(
        |(key, bump)| (Pubkey { bytes: key.to_bytes() }, bump),
    )
}

impl ParsePubkeyError {
    /// The error's message.
    pub open spec fn message_text(self) -> Seq<char> {
        match self {
            ParsePubkeyError::WrongSize => "String is the wrong size"@,
            ParsePubkeyError::Invalid => "Invalid Base58 string"@,
        }
    }

    /// The error's message.
    pub fn message(&self) -> (text: String)
        ensures
            text@ == self.message_text(),
    {
        match self {
            ParsePubkeyError::WrongSize => String::from_str("String is the wrong size"),
            ParsePubkeyError::Invalid => String::from_str("Invalid Base58 string"),
        }
    }
}

impl Pubkey {
    /// Reads a key from its Base58 text.
    pub fn from_str(text: &str) -> (r: Result<Pubkey, ParsePubkeyError>)
        ensures
            parsed_key(text@) == key_outcome(r),
    {
        parse_key(text)
    }

    /// The key's Base58 text.
    pub fn to_text(&self) -> (text: String)
        ensures
            text@ == key_text(self.bytes@),
    {
        show_key(self)
    }

    /// The key's bytes, as a seed for deriving an address.
    pub fn to_seed(&self) -> (seed: Vec<u8>)
        ensures
            seed@ == self.bytes@,
    {
        let mut seed: Vec<u8> = Vec::new();
        let mut i: usize = 0;
        while i < 32
            invariant
                i <= 32,
                seed@ == self.bytes@.subrange(0, i as int),
            decreases 32 - i,
        {
            seed.push(self.bytes[i]);
            i += 1;
        }
        seed
    }
}

} // verus!
