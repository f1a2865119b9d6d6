use vstd::prelude::*;

verus! {

/// Bytes of the discriminator header that precedes every persisted record.
pub const HEADER_SPACE: u64 = 8;

/// Bytes of one persisted identity (an address is 32 bytes).
pub const IDENTITY_SPACE: u64 = 32;

/// Bytes of the length prefix that precedes the stored company name.
pub const NAME_PREFIX_SPACE: u64 = 4;

/// Maximum encoded length of a company name, in bytes.
pub const MAX_COMPANY_NAME_LEN: usize = 50;

/// Persisted size of a vesting record: the header, three identities, a
/// length-prefixed name buffer sized for the configured maximum, and the two
/// stored bump bytes.
pub const VESTING_ACCOUNT_SPACE: u64 = HEADER_SPACE + 3 * IDENTITY_SPACE + NAME_PREFIX_SPACE + 50
    + 1 + 1;

/// Persisted size of a token holding account.
pub const TREASURY_ACCOUNT_SPACE: u64 = 165;

/// The persisted per-company vesting record.
pub struct VesingAccount {
    /// Identity of the signer that funded the creation.
    pub owner: Vec<u8>,
    /// Identity of the token type being vested.
    pub mint: Vec<u8>,
    /// Address of the bound custodial holding account.
    pub treasury_token_account: Vec<u8>,
    /// Company name; also the primary derivation seed.
    pub company_name: Vec<u8>,
    /// Bump byte found while deriving the treasury address.
    pub treasury_bump: u8,
    /// Bump byte found while deriving the record's own address.
    pub bump: u8,
}

/// Mathematical image of a vesting record.
pub struct VesingAccountV {
    pub owner: Seq<u8>,
    pub mint: Seq<u8>,
    pub treasury_token_account: Seq<u8>,
    pub company_name: Seq<u8>,
    pub treasury_bump: u8,
    pub bump: u8,
}

impl View for VesingAccount {
    type V = VesingAccountV;

    open spec fn view(&self) -> VesingAccountV {
        VesingAccountV {
            owner: self.owner@,
            mint: self.mint@,
            treasury_token_account: self.treasury_token_account@,
            company_name: self.company_name@,
            treasury_bump: self.treasury_bump,
            bump: self.bump,
        }
    }
}

/// A token holding account bound to one token type.
pub struct TreasuryAccount {
    /// Identity of the token type the account holds.
    pub mint: Vec<u8>,
    /// The address allowed to move the held tokens.
    pub authority: Vec<u8>,
    /// Amount of tokens held; zero at creation.
    pub amount: u64,
}

/// Mathematical image of a token holding account.
pub struct TreasuryAccountV {
    pub mint: Seq<u8>,
    pub authority: Seq<u8>,
    pub amount: u64,
}

impl View for TreasuryAccount {
    type V = TreasuryAccountV;

    open spec fn view(&self) -> TreasuryAccountV {
        TreasuryAccountV { mint: self.mint@, authority: self.authority@, amount: self.amount }
    }
}

} // verus!
