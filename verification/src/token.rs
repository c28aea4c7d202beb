//! Token symbols and the metadata that a fungible faucet keeps about its token.

use miden_protocol::asset::TokenSymbol;
use miden_protocol::errors::TokenSymbolError as ProtocolTokenSymbolError;
use vstd::prelude::*;
use vstd::utf8::encode_utf8;

verus! {

/// The largest number of characters in a token symbol.
pub const MAX_SYMBOL_LENGTH: usize = 12;

/// The largest number of decimals that a fungible token may have.
pub const MAX_DECIMALS: u8 = 12;

/// The largest amount of a fungible asset: `2^63 - 2^31`.
pub const MAX_AMOUNT: u64 = 9_223_372_034_707_292_160;

/// The order of the field that account storage is made of: `2^64 - 2^32 + 1`.
pub const FIELD_ORDER: u64 = 18_446_744_069_414_584_321;

// TOKEN SYMBOL
// ================================================================================================

/// One to twelve upper-case ASCII letters.
pub open spec fn is_symbol(s: Seq<char>) -> bool {
    &&& 1 <= s.len() <= MAX_SYMBOL_LENGTH
    &&& forall|i: int| 0 <= i < s.len() ==> 'A' <= #[trigger] s[i] <= 'Z'
}

/// The letters of a symbol read as digits of a number to base 26, where `A` is zero.
pub open spec fn letters_value(s: Seq<char>) -> int
    decreases s.len(),
{
    if s.len() == 0 {
        0
    } else {
        letters_value(s.drop_last()) * 26 + (s.last() as int - 'A' as int)
    }
}

/// The number under which account storage keeps a symbol: its letters, then its length.
pub open spec fn encoded_symbol(s: Seq<char>) -> int {
    letters_value(s) * 26 + s.len()
}

/// Two symbols with the same encoding are the same symbol.
pub proof fn encoding_identifies_symbols(a: Seq<char>, b: Seq<char>)
    requires
        is_symbol(a),
        is_symbol(b),
        encoded_symbol(a) == encoded_symbol(b),
    ensures
        a == b,
{
    assert(a.len() == b.len() && letters_value(a) == letters_value(b)) by (nonlinear_arith)
        requires
            letters_value(a) * 26 + a.len() == letters_value(b) * 26 + b.len(),
            1 <= a.len() <= 12,
            1 <= b.len() <= 12,
    ;
    lemma_letters_injective(a, b);
}

proof fn lemma_letters_injective(a: Seq<char>, b: Seq<char>)
    requires
        a.len() == b.len(),
        forall|i: int| 0 <= i < a.len() ==> 'A' <= #[trigger] a[i] <= 'Z',
        forall|i: int| 0 <= i < b.len() ==> 'A' <= #[trigger] b[i] <= 'Z',
        letters_value(a) == letters_value(b),
    ensures
        a == b,
    decreases a.len(),
{
    if a.len() > 0 {
        let n = a.len() - 1;
        let (x, y) = (letters_value(a.drop_last()), letters_value(b.drop_last()));
        let (c, d) = (a.last() as int - 'A' as int, b.last() as int - 'A' as int);
        assert('A' <= a[n] <= 'Z' && 'A' <= b[n] <= 'Z');
        assert(x == y && c == d) by (nonlinear_arith)
            requires
                x * 26 + c == y * 26 + d,
                0 <= c < 26,
                0 <= d < 26,
        ;
        lemma_letters_injective(a.drop_last(), b.drop_last());
        assert(a.last() == b.last());
        assert(a =~= a.drop_last().push(a.last()));
        assert(b =~= b.drop_last().push(b.last()));
    } else {
        assert(a =~= b);
    }
}

/// Why a text is not a token symbol, or a number not an encoded one.
#[derive(Debug, Clone, Copy, PartialEq, Eq)]
pub enum TokenSymbolError {
    ValueTooLarge(u64),
    ValueTooSmall(u64),
    InvalidLength(usize),
    InvalidCharacter,
    DataNotFullyDecoded,
}

/// The error that a text which is no symbol gives: its length in bytes is looked at first.
pub open spec fn symbol_error(s: Seq<char>) -> TokenSymbolError {
    let bytes = encode_utf8(s).len();
    if bytes == 0 || bytes > MAX_SYMBOL_LENGTH {
        TokenSymbolError::InvalidLength(bytes as usize)
    } else {
        TokenSymbolError::InvalidCharacter
    }
}

/// `TokenSymbol::new` followed by `TokenSymbol::as_element`: the number that encodes a symbol.
///
/// Claimed: exactly the texts of one to twelve upper-case ASCII letters are accepted and encoded
/// as their letters to base 26 followed by their length; a refused text is answered with the
/// length error if its length in bytes is off, and with the character error otherwise.
#[verifier::external_body]
fn encode_symbol(s: &str) -> (r: Result<u64, TokenSymbolError>)
    ensures
        r is Ok <==> is_symbol(s@),
        r matches Ok(value) ==> value == encoded_symbol(s@),
        r matches Err(e) ==> e == symbol_error(s@),
{
    match TokenSymbol::new(s) {
        Ok(symbol) => Ok(symbol.as_element().as_canonical_u64()),
        Err(ProtocolTokenSymbolError::ValueTooLarge(value)) => Err(TokenSymbolError::ValueTooLarge(value)),
        Err(ProtocolTokenSymbolError::ValueTooSmall(value)) => Err(TokenSymbolError::ValueTooSmall(value)),
        Err(ProtocolTokenSymbolError::InvalidLength(len)) => Err(TokenSymbolError::InvalidLength(len)),
        Err(ProtocolTokenSymbolError::InvalidCharacter) => Err(TokenSymbolError::InvalidCharacter),
        Err(ProtocolTokenSymbolError::DataNotFullyDecoded) => Err(TokenSymbolError::DataNotFullyDecoded),
    }
}

/// A token symbol as a configuration writes it, beside the number that account storage keeps.
///
/// Two symbols are equal, and are ordered, as their texts are.
#[derive(Debug, PartialEq, Eq, PartialOrd, Ord, Hash)]
pub struct TokenSymbolStr {
    pub(crate) raw: String,
    pub(crate) encoded: u64,
}

impl View for TokenSymbolStr {
    type V = Seq<char>;

    closed spec fn view(&self) -> Seq<char> {
        self.raw@
    }
}

impl TokenSymbolStr {
    /// The text is a symbol and the number is its encoding.
    #[verifier::type_invariant]
    spec fn wf(&self) -> bool {
        is_symbol(self.raw@) && self.encoded == encoded_symbol(self.raw@)
    }

    /// Reads a symbol.
    pub fn from_str(s: &str) -> (r: Result<Self, TokenSymbolError>)
        ensures
            r is Ok <==> is_symbol(s@),
            r matches Ok(symbol) ==> symbol@ == s@,
            r matches Err(e) ==> e == symbol_error(s@),
    {
        match encode_symbol(s) {
            Ok(encoded) => Ok(TokenSymbolStr { raw: s.to_owned(), encoded }),
            Err(e) => Err(e),
        }
    }

    /// The text of the symbol.
    pub fn as_str(&self) -> (s: &str)
        ensures
            s@ == self@,
            is_symbol(s@),
    {
        proof {
            use_type_invariant(self);
        }
        self.raw.as_str()
    }

    /// The number that account storage keeps for the symbol.
    pub fn as_element(&self) -> (value: u64)
        ensures
            value == encoded_symbol(self@),
    {
        proof {
            use_type_invariant(self);
        }
        self.encoded
    }
}

impl Clone for TokenSymbolStr {
    fn clone(&self) -> (r: Self)
        ensures
            r@ == self@,
    {
        proof {
            use_type_invariant(self);
        }
        TokenSymbolStr { raw: self.raw.clone(), encoded: self.encoded }
    }
}

// FIELD ELEMENTS
// ================================================================================================

/// The number below the field order that a 64-bit number stands for.
pub open spec fn canonical(value: u64) -> u64 {
    if value >= FIELD_ORDER {
        (value - FIELD_ORDER) as u64
    } else {
        value
    }
}

/// The field element that a number stands for, as the number below the field order.
pub fn felt(value: u64) -> (r: u64)
    ensures
        r == canonical(value),
        r < FIELD_ORDER,
{
    if value >= FIELD_ORDER {
        value - FIELD_ORDER
    } else {
        value
    }
}

// TOKEN METADATA
// ================================================================================================

/// What a fungible faucet keeps about its token, as plain values.
pub struct TokenModel {
    pub token_supply: u64,
    pub max_supply: u64,
    pub decimals: u8,
    pub symbol: Seq<char>,
}

impl TokenModel {
    /// The values that account storage accepts.
    pub open spec fn valid(self) -> bool {
        &&& self.decimals <= MAX_DECIMALS
        &&& self.max_supply <= MAX_AMOUNT
        &&& self.token_supply <= self.max_supply
        &&& is_symbol(self.symbol)
    }
}

/// Why token metadata is refused.
#[derive(Debug, Clone, Copy, PartialEq, Eq)]
pub enum TokenMetadataError {
    TooManyDecimals { decimals: u8 },
    MaxSupplyTooLarge { max_supply: u64 },
    TokenSupplyExceedsMaxSupply { token_supply: u64, max_supply: u64 },
}

/// What a fungible faucet keeps about its token.
#[derive(Debug)]
pub struct TokenMetadata {
    pub(crate) token_supply: u64,
    pub(crate) max_supply: u64,
    pub(crate) decimals: u8,
    pub(crate) symbol: TokenSymbolStr,
}

impl View for TokenMetadata {
    type V = TokenModel;

    closed spec fn view(&self) -> TokenModel {
        TokenModel {
            token_supply: self.token_supply,
            max_supply: self.max_supply,
            decimals: self.decimals,
            symbol: self.symbol@,
        }
    }
}

/// The metadata of a new token, of which nothing has been issued, or why there is none.
pub open spec fn new_token(symbol: Seq<char>, decimals: u8, max_supply: u64) -> Result<
    TokenModel,
    TokenMetadataError,
> {
    if decimals > MAX_DECIMALS {
        Err(TokenMetadataError::TooManyDecimals { decimals })
    } else if max_supply > MAX_AMOUNT {
        Err(TokenMetadataError::MaxSupplyTooLarge { max_supply })
    } else {
        Ok(TokenModel { token_supply: 0, max_supply, decimals, symbol })
    }
}

/// The metadata after the issued amount was set, or why it cannot be.
pub open spec fn with_supply(token: TokenModel, token_supply: u64) -> Result<
    TokenModel,
    TokenMetadataError,
> {
    if token_supply > token.max_supply {
        Err(
            TokenMetadataError::TokenSupplyExceedsMaxSupply {
                token_supply,
                max_supply: token.max_supply,
            },
        )
    } else {
        Ok(TokenModel { token_supply, ..token })
    }
}

impl TokenMetadata {
    #[verifier::type_invariant]
    spec fn wf(&self) -> bool {
        &&& self.decimals <= MAX_DECIMALS
        &&& self.max_supply <= MAX_AMOUNT
        &&& self.token_supply <= self.max_supply
    }

    /// The metadata of a new token, of which nothing has been issued.
    pub fn new(symbol: TokenSymbolStr, decimals: u8, max_supply: u64) -> (r: Result<
        Self,
        TokenMetadataError,
    >)
        ensures
            match new_token(symbol@, decimals, max_supply) {
                Ok(token) => r matches Ok(m) && m@ == token,
                Err(e) => r == Err::<Self, TokenMetadataError>(e),
            },
    {
        if decimals > MAX_DECIMALS {
            return Err(TokenMetadataError::TooManyDecimals { decimals });
        }
        if max_supply > MAX_AMOUNT {
            return Err(TokenMetadataError::MaxSupplyTooLarge { max_supply });
        }
        Ok(TokenMetadata { token_supply: 0, max_supply, decimals, symbol })
    }

    /// Sets the issued amount.
    pub fn with_token_supply(self, token_supply: u64) -> (r: Result<Self, TokenMetadataError>)
        ensures
            match with_supply(self@, token_supply) {
                Ok(token) => r matches Ok(m) && m@ == token,
                Err(e) => r == Err::<Self, TokenMetadataError>(e),
            },
    {
        proof {
            use_type_invariant(&self);
        }
        if token_supply > self.max_supply {
            return Err(
                TokenMetadataError::TokenSupplyExceedsMaxSupply {
                    token_supply,
                    max_supply: self.max_supply,
                },
            );
        }
        Ok(
            TokenMetadata {
                token_supply,
                max_supply: self.max_supply,
                decimals: self.decimals,
                symbol: self.symbol,
            },
        )
    }

    /// The amount that has been issued.
    pub fn token_supply(&self) -> (r: u64)
        ensures
            r == self@.token_supply,
    {
        self.token_supply
    }

    /// The largest amount that can be issued.
    pub fn max_supply(&self) -> (r: u64)
        ensures
            r == self@.max_supply,
    {
        self.max_supply
    }

    /// The number of decimals.
    pub fn decimals(&self) -> (r: u8)
        ensures
            r == self@.decimals,
    {
        self.decimals
    }

    /// The symbol.
    pub fn symbol(&self) -> (r: &TokenSymbolStr)
        ensures
            r@ == self@.symbol,
            self@.valid(),
    {
        proof {
            use_type_invariant(self);
            use_type_invariant(&self.symbol);
        }
        &self.symbol
    }
}

// LAWS
// ================================================================================================

/// Symbols are made of one to twelve letters between `A` and `Z`, and every such text is one.
pub proof fn symbols_are_short_and_upper_case(s: Seq<char>)
    ensures
        is_symbol(s) <==> s.len() != 0 && s.len() < 13 && forall|i: int|
            0 <= i < s.len() ==> 65 <= (#[trigger] s[i]) as int && s[i] as int <= 90,
{
    if is_symbol(s) {
        assert forall|i: int| 0 <= i < s.len() implies 65 <= (#[trigger] s[i]) as int && s[i] as int
            <= 90 by {
            assert('A' <= s[i] <= 'Z');
        }
    }
    if s.len() != 0 && s.len() < 13 && forall|i: int|
        0 <= i < s.len() ==> 65 <= (#[trigger] s[i]) as int && s[i] as int <= 90 {
        assert forall|i: int| 0 <= i < s.len() implies 'A' <= #[trigger] s[i] <= 'Z' by {
            assert(65 <= s[i] as int && s[i] as int <= 90);
        }
    }
}

/// A symbol that grows by a letter is encoded under the old letters, the new letter and the new
/// length.
pub proof fn encoding_grows_with_the_symbol(s: Seq<char>, c: char)
    ensures
        encoded_symbol(Seq::empty()) == 0,
        encoded_symbol(s.push(c)) == (encoded_symbol(s) - s.len() + (c as int - 65)) * 26 + s.len()
            + 1,
{
    assert(s.push(c).drop_last() =~= s);
    assert(letters_value(s.push(c)) == letters_value(s) * 26 + (c as int - 65));
}

/// The field element of a number is below the field order and differs from the number by a
/// multiple of the order.
pub proof fn field_elements_are_residues(value: u64)
    ensures
        canonical(value) == value as int % 18_446_744_069_414_584_321,
{
    if value >= FIELD_ORDER {
        assert(value as int % 18_446_744_069_414_584_321 == value - 18_446_744_069_414_584_321)
            by (nonlinear_arith)
            requires
                18_446_744_069_414_584_321 <= value <= 18_446_744_073_709_551_615,
        ;
    } else {
        assert(value as int % 18_446_744_069_414_584_321 == value as int) by (nonlinear_arith)
            requires
                0 <= value < 18_446_744_069_414_584_321,
        ;
    }
}

/// A new token is accepted exactly if it has at most twelve decimals and its maximum is an amount
/// of an asset. It keeps what it was given, and nothing of it is issued. Decimals are looked at
/// first.
pub proof fn new_tokens_have_limits(symbol: Seq<char>, decimals: u8, max_supply: u64)
    ensures
        match new_token(symbol, decimals, max_supply) {
            Ok(token) => {
                &&& decimals <= 12 && max_supply <= 9_223_372_034_707_292_160
                &&& token.symbol == symbol
                &&& token.decimals == decimals
                &&& token.max_supply == max_supply
                &&& token.token_supply == 0
            },
            Err(TokenMetadataError::TooManyDecimals { decimals: reported }) => decimals > 12
                && reported == decimals,
            Err(TokenMetadataError::MaxSupplyTooLarge { max_supply: reported }) => decimals <= 12
                && max_supply > 9_223_372_034_707_292_160 && reported == max_supply,
            Err(TokenMetadataError::TokenSupplyExceedsMaxSupply { .. }) => false,
        },
{
}

/// The issued amount of a token can be set exactly up to its maximum, and nothing else changes.
pub proof fn supply_is_limited_by_the_maximum(token: TokenModel, token_supply: u64)
    ensures
        match with_supply(token, token_supply) {
            Ok(updated) => {
                &&& token_supply <= token.max_supply
                &&& updated.token_supply == token_supply
                &&& updated.max_supply == token.max_supply
                &&& updated.decimals == token.decimals
                &&& updated.symbol == token.symbol
            },
            Err(e) => token_supply > token.max_supply && e
                == (TokenMetadataError::TokenSupplyExceedsMaxSupply {
                token_supply,
                max_supply: token.max_supply,
            }),
        },
{
}

/// Account storage accepts a token with a symbol, at most twelve decimals, a maximum that is an
/// amount of an asset, and a supply up to the maximum.
pub proof fn stored_tokens_are_valid(token: TokenModel)
    ensures
        token.valid() <==> is_symbol(token.symbol) && token.decimals <= 12 && token.max_supply
            <= 9_223_372_034_707_292_160 && token.token_supply <= token.max_supply,
{
}

} // verus!
