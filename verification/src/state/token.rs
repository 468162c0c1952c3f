//! What the engine reads of the share issuer and the collateral ledger.

use vstd::prelude::*;
use crate::errors::PredictError;
use crate::state::address::Address;

verus! {

/// The length of a token account's data, in bytes.
pub const TOKEN_ACCOUNT_LEN: usize = 165;

/// The identity of the token program, which owns every mint and every token
/// account.
pub const TOKEN_PROGRAM_ID: [u8; 32] = [
    6, 221, 246, 225, 215, 101, 161, 147, 217, 203, 225, 70, 206, 235, 121, 172,
    28, 180, 133, 237, 95, 91, 55, 145, 58, 140, 245, 133, 126, 255, 0, 169,
];

/// A balance of one token class held for one owner, as the ledger reports it.
#[derive(Clone, Copy, Debug)]
pub struct TokenAccountInfo {
    pub key: Address,
    pub mint: Address,
    pub owner: Address,
    pub amount: u64,
}

/// A token class and the number of its units outstanding, as the issuer
/// reports it.
#[derive(Clone, Copy, Debug)]
pub struct MintInfo {
    pub key: Address,
    pub supply: u64,
}

/// An account as it is stored: its identity, the program that owns it, and
/// its data.
#[derive(Clone, Debug)]
pub struct RawAccount {
    pub key: Address,
    pub owner: Address,
    pub data: Vec<u8>,
}

/// The number that eight bytes spell, least significant byte first.
pub open spec fn le_value(bytes: Seq<u8>) -> nat {
    (bytes[0] as nat) + 0x100 * (bytes[1] as nat) + 0x1_0000 * (bytes[2] as nat) + 0x100_0000 * (
    bytes[3] as nat) + 0x1_0000_0000 * (bytes[4] as nat) + 0x100_0000_0000 * (bytes[5] as nat)
        + 0x1_0000_0000_0000 * (bytes[6] as nat) + 0x100_0000_0000_0000 * (bytes[7] as nat)
}

/// Whether the four bytes at `at` are one of the two tags an optional field
/// may carry: absent (0, 0, 0, 0) or present (1, 0, 0, 0).
pub open spec fn option_tag_ok(data: Seq<u8>, at: int) -> bool {
    &&& data[at] == 0 || data[at] == 1
    &&& data[at + 1] == 0
    &&& data[at + 2] == 0
    &&& data[at + 3] == 0
}

/// Whether `data` is laid out as a token account: 165 bytes, a state byte of
/// 0, 1 or 2, and a well-formed tag before the delegate, the native reserve
/// and the close authority.
pub open spec fn token_account_layout_ok(data: Seq<u8>) -> bool {
    &&& data.len() == TOKEN_ACCOUNT_LEN
    &&& option_tag_ok(data, 72)
    &&& data[108] <= 2
    &&& option_tag_ok(data, 109)
    &&& option_tag_ok(data, 129)
}

/// Why `data` is rejected as a token account, or `None` if it is accepted:
/// data that is not laid out as one is invalid; data that is, with a state
/// byte of 0, is an account not yet initialized.
pub open spec fn token_account_refusal(data: Seq<u8>) -> Option<PredictError> {
    if !token_account_layout_ok(data) {
        Some(PredictError::InvalidAccountData)
    } else if data[108] == 0 {
        Some(PredictError::UninitializedAccount)
    } else {
        None
    }
}

/// Decodes a token account with `anchor_spl::token::TokenAccount::try_deserialize`
/// and hands out its class, owner and balance, or which of its two errors
/// the decoder gave.
///
/// Believed, not proved: the decoder accepts exactly the data that
/// `token_account_refusal` does not refuse, and fails as uninitialized or as
/// invalid as that function says. Of accepted data, the class is the first 32
/// bytes, the owner the next 32, and the balance the eight bytes after those,
/// least significant first.
#[verifier::external_body]
fn decode_token_account(data: &[u8]) -> (r: Result<([u8; 32], [u8; 32], u64), PredictError>)
    ensures
        r matches Err(e) ==> token_account_refusal(data@) == Some(e),
        r matches Ok((mint, owner, amount)) ==> token_account_refusal(data@).is_none() && mint@
            == data@.subrange(0, 32) && owner@ == data@.subrange(32, 64) && amount == le_value(
            data@.subrange(64, 72),
        ),
{
    let mut buf: &[u8] = data;
    match <anchor_spl::token::TokenAccount as anchor_lang::AccountDeserialize>::try_deserialize(
        &mut buf,
    ) {
        Ok(account) => Ok((account.mint.to_bytes(), account.owner.to_bytes(), account.amount)),
        Err(e) => match anchor_lang::solana_program::program_error::ProgramError::from(e) {
            anchor_lang::solana_program::program_error::ProgramError::UninitializedAccount => Err(
                PredictError::UninitializedAccount,
            ),
            _ => Err(PredictError::InvalidAccountData),
        },
    }
}

/// Hands out `anchor_spl::token::ID`, the identity of the token program.
///
/// Believed, not proved: it is the 32 bytes of `TOKEN_PROGRAM_ID`.
#[verifier::external_body]
fn token_program() -> (id: Address)
    ensures
        id.bytes == TOKEN_PROGRAM_ID,
{
    Address { bytes: anchor_spl::token::ID.to_bytes() }
}

impl TokenAccountInfo {
    /// The token account stored under `key` with the given data, if the data
    /// is accepted as one.
    pub open spec fn decoded(key: Address, data: Seq<u8>) -> Option<TokenAccountInfo> {
        if token_account_refusal(data).is_none() {
            Some(
                TokenAccountInfo {
                    key,
                    mint: Address { bytes: array_of(data.subrange(0, 32)) },
                    owner: Address { bytes: array_of(data.subrange(32, 64)) },
                    amount: le_value(data.subrange(64, 72)) as u64,
                },
            )
        } else {
            None
        }
    }

    /// Reads the token account stored under `key` out of its data, or says
    /// why the data is rejected.
    pub fn unpack(key: Address, data: &[u8]) -> (r: Result<TokenAccountInfo, PredictError>)
        ensures
            r matches Ok(info) ==> Self::decoded(key, data@) == Some(info) && info.mint@
                == data@.subrange(0, 32) && info.owner@ == data@.subrange(32, 64),
            r matches Err(e) ==> token_account_refusal(data@) == Some(e) && Self::decoded(
                key,
                data@,
            ).is_none(),
    {
        match decode_token_account(data) {
            Ok((mint, owner, amount)) => {
                proof {
                    lemma_array_of_view(mint);
                    lemma_array_of_view(owner);
                }
                Ok(TokenAccountInfo { key, mint: Address::new(mint), owner: Address::new(owner), amount })
            },
            Err(e) => Err(e),
        }
    }
}

impl RawAccount {
    /// Whether the token program owns this account.
    pub fn is_token_owned(&self) -> (r: bool)
        ensures
            r == (self.owner.bytes == TOKEN_PROGRAM_ID),
    {
        let id = token_program();
        self.owner == id
    }
}

/// The 32-byte array that holds the given bytes.
pub open spec fn array_of(bytes: Seq<u8>) -> [u8; 32] {
    choose|a: [u8; 32]| a@ == bytes
}

/// An array is the array that holds its bytes.
pub proof fn lemma_array_of_view(a: [u8; 32])
    ensures
        array_of(a@) == a,
{
    let b = array_of(a@);
    assert(b@ == a@);
    assert(b =~= a);
}

} // verus!
