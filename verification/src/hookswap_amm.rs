//! The constant-product pool: its records, the arithmetic of deposits and
//! swaps, and the instructions that move the tokens.

use vstd::prelude::*;
use crate::host::{AccountView, Instruction, InstructionView};
use crate::math::{floor_sqrt, integer_sqrt, lemma_floor_sqrt_exists};
use crate::pubkey::Pubkey;
use crate::token_program::{
    is_token_2022, is_token_2022_program, mint_base_len, mint_with_extensions_decimals,
    plain_mint_decimals, token_2022_id, transfer_accounts, transfer_checked,
    transfer_checked_instruction, unpack_mint_with_extensions, unpack_plain_mint, MINT_LEN,
};

verus! {

/// Why an instruction of the pool program is refused.
#[derive(Clone, Copy, Debug, PartialEq, Eq, Structural)]
pub enum AMMError {
    /// Insufficient LP tokens
    InsufficientLPTokens,
    /// Insufficient swap output
    InsufficientOutput,
    /// Hook validation failed
    HookValidationFailed,
    /// Invalid token pair
    InvalidTokenPair,
    /// Pool not found
    PoolNotFound,
    /// Insufficient liquidity
    InsufficientLiquidity,
    /// Invalid token program
    InvalidTokenProgram,
    /// Slippage tolerance exceeded
    SlippageExceeded,
    /// Pool already exists
    PoolAlreadyExists,
    /// A sum, product or quotient has no value in 64 bits
    ArithmeticOverflow,
}

/// The configuration shared by all pools.
#[derive(Clone, Copy, Debug, PartialEq, Eq)]
pub struct AMMConfig {
    pub authority: Pubkey,
    /// Fee in basis points.
    pub fee_rate: u64,
    pub total_pools: u32,
    pub created_at: i64,
    pub hook_registry: Option<Pubkey>,
}

impl AMMConfig {
    /// Bytes that the record takes in an account.
    pub const SPACE: usize = 85;
}

/// One pool of two tokens.
#[derive(Clone, Copy, Debug, PartialEq, Eq)]
pub struct Pool {
    pub token_a_mint: Pubkey,
    pub token_b_mint: Pubkey,
    pub creator: Pubkey,
    pub created_at: i64,
    /// Fee in basis points, fixed when the pool is created.
    pub fee_rate: u64,
    pub current_price: u64,
    pub total_liquidity_a: u64,
    pub total_liquidity_b: u64,
    pub lp_token_supply: u64,
    pub hook_enabled: bool,
    pub token_program_id: Pubkey,
    pub bump: u8,
}

impl Pool {
    /// Bytes that the record takes in an account.
    pub const SPACE: usize = 178;
}

/// The LP units that stay locked at the first deposit.
pub const MINIMUM_LIQUIDITY: u64 = 1000;

/// The divisor of a fee rate: a rate of 10000 is the whole amount.
pub const BASIS_POINTS: u64 = 10000;

/// The new configuration, without a hook registry.
pub fn initialize_amm(authority: Pubkey, fee_rate: u64, now: i64) -> (config: AMMConfig)
    ensures
        config == (AMMConfig {
            authority,
            fee_rate,
            total_pools: 0,
            created_at: now,
            hook_registry: None,
        }),
{
    AMMConfig { authority, fee_rate, total_pools: 0, created_at: now, hook_registry: None }
}

/// Points the configuration to a hook registry.
pub fn set_hook_registry(amm_config: &mut AMMConfig, hook_registry: Pubkey)
    ensures
        *final(amm_config) == (AMMConfig { hook_registry: Some(hook_registry), ..*old(amm_config) }),
{
    amm_config.hook_registry = Some(hook_registry);
}

/// A mint that is longer than a mint without extensions is taken to have hooks.
pub open spec fn mint_has_hooks(data: Seq<u8>) -> bool {
    data.len() > MINT_LEN
}

/// Whether the mint is taken to have hooks.
pub fn check_mint_has_hooks(mint_account: &AccountView) -> (r: bool)
    ensures
        r == mint_has_hooks(mint_account.data@),
{
    mint_account.data.len() > mint_base_len()
}

/// Accepts the hooks of a mint.  No hook is refused here: which hook
/// programs are approved is the registry's to say.
pub fn validate_transfer_hooks_real(mint_account: &AccountView) -> (r: Result<(), AMMError>)
    ensures
        r is Ok,
{
    let _has_hooks = check_mint_has_hooks(mint_account);
    Ok(())
}

/// The decimals of a mint, from what its bytes give when read with
/// extensions and when read without.
pub open spec fn decimals_of(with_extensions: Option<u8>, plain: Option<u8>) -> Result<u8, AMMError> {
    match with_extensions {
        Some(decimals) => Ok(decimals),
        None => match plain {
            Some(decimals) => Ok(decimals),
            None => Err(AMMError::InvalidTokenProgram),
        },
    }
}

/// The decimals of the mint that `data` holds.
pub open spec fn mint_decimals(data: Seq<u8>) -> Result<u8, AMMError> {
    decimals_of(mint_with_extensions_decimals(data), plain_mint_decimals(data))
}

/// Chooses between the two readings of a mint: the one with extensions
/// where there is one, else the plain one, else the mint is refused.
pub fn choose_decimals(with_extensions: Option<u8>, plain: Option<u8>) -> (r: Result<u8, AMMError>)
    ensures
        r == decimals_of(with_extensions, plain),
{
    match with_extensions {
        Some(decimals) => Ok(decimals),
        None => match plain {
            Some(decimals) => Ok(decimals),
            None => Err(AMMError::InvalidTokenProgram),
        },
    }
}

/// The decimals of a mint.
pub fn get_mint_decimals(mint_account: &AccountView) -> (r: Result<u8, AMMError>)
    ensures
        r == mint_decimals(mint_account.data@),
{
    let with_extensions = unpack_mint_with_extensions(mint_account.data.as_slice());
    if with_extensions.is_some() {
        choose_decimals(with_extensions, None)
    } else {
        let plain = unpack_plain_mint(mint_account.data.as_slice());
        choose_decimals(None, plain)
    }
}

/// The number of pools after one more was created; the largest number
/// stays.
pub open spec fn pools_after(total_pools: u32) -> u32 {
    if total_pools < u32::MAX {
        (total_pools + 1) as u32
    } else {
        total_pools
    }
}

/// The pool that `create_pool` makes.
pub open spec fn new_pool(
    fee_rate: u64,
    token_a_mint: AccountView,
    token_b_mint: AccountView,
    creator: Pubkey,
    bump: u8,
    initial_price: u64,
    now: i64,
    token_program_id: Pubkey,
) -> Pool {
    Pool {
        token_a_mint: token_a_mint.key,
        token_b_mint: token_b_mint.key,
        creator,
        created_at: now,
        fee_rate,
        current_price: initial_price,
        total_liquidity_a: 0,
        total_liquidity_b: 0,
        lp_token_supply: 0,
        hook_enabled: mint_has_hooks(token_a_mint.data@) || mint_has_hooks(token_b_mint.data@),
        token_program_id,
        bump,
    }
}

/// Creates a pool for two mints of the token program.  The pool is empty,
/// takes its fee rate from the configuration and is marked as hooked when
/// either mint is taken to have hooks; the configuration counts it, up to
/// the largest number that it can hold.  Nothing but a mint of another
/// program is refused.
pub fn create_pool(
    amm_config: &mut AMMConfig,
    token_a_mint: &AccountView,
    token_b_mint: &AccountView,
    creator: Pubkey,
    bump: u8,
    initial_price: u64,
    now: i64,
) -> (r: Result<Pool, AMMError>)
    ensures
        match r {
            Ok(pool) => {
                &&& is_token_2022(token_a_mint.owner)
                &&& is_token_2022(token_b_mint.owner)
                &&& is_token_2022(pool.token_program_id)
                &&& pool == new_pool(
                    old(amm_config).fee_rate,
                    *token_a_mint,
                    *token_b_mint,
                    creator,
                    bump,
                    initial_price,
                    now,
                    pool.token_program_id,
                )
                &&& *final(amm_config) == (AMMConfig {
                    total_pools: pools_after(old(amm_config).total_pools),
                    ..*old(amm_config)
                })
            },
            Err(e) => {
                &&& *final(amm_config) == *old(amm_config)
                &&& !(is_token_2022(token_a_mint.owner) && is_token_2022(token_b_mint.owner))
                &&& e == AMMError::InvalidTokenProgram
            },
        },
{
    if !is_token_2022_program(&token_a_mint.owner) {
        return Err(AMMError::InvalidTokenProgram);
    }
    if !is_token_2022_program(&token_b_mint.owner) {
        return Err(AMMError::InvalidTokenProgram);
    }
    let hook_enabled = check_mint_has_hooks(token_a_mint) || check_mint_has_hooks(token_b_mint);
    let pool = Pool {
        token_a_mint: token_a_mint.key,
        token_b_mint: token_b_mint.key,
        creator,
        created_at: now,
        fee_rate: amm_config.fee_rate,
        current_price: initial_price,
        total_liquidity_a: 0,
        total_liquidity_b: 0,
        lp_token_supply: 0,
        hook_enabled,
        token_program_id: token_2022_id(),
        bump,
    };
    amm_config.total_pools = amm_config.total_pools.saturating_add(1);
    Ok(pool)
}

/// The accounts among which a deposit moves tokens.
#[derive(Debug, PartialEq, Eq)]
pub struct LiquidityAccounts {
    pub token_a_mint: AccountView,
    pub token_b_mint: AccountView,
    pub user_token_a: Pubkey,
    pub user_token_b: Pubkey,
    pub pool_token_a: Pubkey,
    pub pool_token_b: Pubkey,
    pub user: Pubkey,
}

/// What a deposit mints, and the two transfers that carry it out.
#[derive(Debug, PartialEq, Eq)]
pub struct LiquidityReceipt {
    pub lp_tokens: u64,
    /// From the user to the pool, in token A.
    pub transfer_a: Instruction,
    /// From the user to the pool, in token B.
    pub transfer_b: Instruction,
}

/// The LP units of the first deposit: the floor of the geometric mean of the
/// two amounts, less the units that stay locked, and no less than zero.
pub open spec fn initial_lp_tokens(amount_a: u64, amount_b: u64) -> int {
    let root = floor_sqrt(amount_a * amount_b);
    if root >= MINIMUM_LIQUIDITY {
        root - MINIMUM_LIQUIDITY
    } else {
        0
    }
}

/// `amount * supply / reserve`, where the product has a value in 64 bits and
/// the reserve is not zero.
pub open spec fn share_of_supply(amount: u64, supply: u64, reserve: u64) -> Option<int> {
    if amount * supply > u64::MAX || reserve == 0 {
        None
    } else {
        Some((amount * supply) / (reserve as int))
    }
}

/// The LP units that a deposit earns: for the first deposit
/// `initial_lp_tokens`, later the smaller of the two shares of the supply.
pub open spec fn lp_tokens_for(pool: Pool, amount_a: u64, amount_b: u64) -> Option<int> {
    if pool.lp_token_supply == 0 {
        Some(initial_lp_tokens(amount_a, amount_b))
    } else {
        match (
            share_of_supply(amount_a, pool.lp_token_supply, pool.total_liquidity_a),
            share_of_supply(amount_b, pool.lp_token_supply, pool.total_liquidity_b),
        ) {
            (Some(from_a), Some(from_b)) => Some(if from_a <= from_b { from_a } else { from_b }),
            _ => None,
        }
    }
}

/// The pool with a deposit added, where the three sums have values in 64 bits.
pub open spec fn pool_after_deposit(pool: Pool, amount_a: u64, amount_b: u64, lp_tokens: int) -> Option<Pool> {
    if pool.total_liquidity_a + amount_a > u64::MAX || pool.total_liquidity_b + amount_b > u64::MAX
        || pool.lp_token_supply + lp_tokens > u64::MAX {
        None
    } else {
        Some(
            Pool {
                total_liquidity_a: (pool.total_liquidity_a + amount_a) as u64,
                total_liquidity_b: (pool.total_liquidity_b + amount_b) as u64,
                lp_token_supply: (pool.lp_token_supply + lp_tokens) as u64,
                ..pool
            },
        )
    }
}

/// The transfer of `amount` from the user into the pool, in the token of
/// `mint`, where the decimals of the mint can be read.
pub open spec fn deposit_transfer(
    from: Pubkey,
    mint: AccountView,
    to: Pubkey,
    user: Pubkey,
    amount: u64,
) -> Option<InstructionView> {
    match mint_decimals(mint.data@) {
        Ok(decimals) => Some(transfer_checked_instruction(from, mint.key, to, user, amount, decimals)),
        Err(_) => None,
    }
}

/// Why a deposit is refused, if it is.
pub open spec fn deposit_refusal(
    pool: Pool,
    accounts: LiquidityAccounts,
    amount_a: u64,
    amount_b: u64,
    min_lp_tokens: u64,
) -> Option<AMMError> {
    if deposit_transfer(accounts.user_token_a, accounts.token_a_mint, accounts.pool_token_a, accounts.user, amount_a) is None
        || deposit_transfer(accounts.user_token_b, accounts.token_b_mint, accounts.pool_token_b, accounts.user, amount_b) is None {
        Some(AMMError::InvalidTokenProgram)
    } else {
        match lp_tokens_for(pool, amount_a, amount_b) {
            None => Some(AMMError::ArithmeticOverflow),
            Some(lp_tokens) => if lp_tokens < min_lp_tokens {
                Some(AMMError::InsufficientLPTokens)
            } else if pool_after_deposit(pool, amount_a, amount_b, lp_tokens) is None {
                Some(AMMError::ArithmeticOverflow)
            } else {
                None
            },
        }
    }
}

fn share(amount: u64, supply: u64, reserve: u64) -> (r: Option<u64>)
    ensures
        match r {
            Some(v) => share_of_supply(amount, supply, reserve) == Some(v as int),
            None => share_of_supply(amount, supply, reserve) is None,
        },
{
    match amount.checked_mul(supply) {
        Some(product) => product.checked_div(reserve),
        None => None,
    }
}

fn lp_tokens(pool: &Pool, amount_a: u64, amount_b: u64) -> (r: Option<u64>)
    ensures
        match r {
            Some(v) => lp_tokens_for(*pool, amount_a, amount_b) == Some(v as int),
            None => lp_tokens_for(*pool, amount_a, amount_b) is None,
        },
{
    if pool.lp_token_supply == 0 {
        assert(amount_a * amount_b <= u128::MAX) by (nonlinear_arith)
            requires
                amount_a <= u64::MAX,
                amount_b <= u64::MAX,
        ;
        let root = integer_sqrt((amount_a as u128) * (amount_b as u128));
        Some(root.checked_sub(MINIMUM_LIQUIDITY).unwrap_or(0))
    } else {
        let from_a = share(amount_a, pool.lp_token_supply, pool.total_liquidity_a);
        let from_b = share(amount_b, pool.lp_token_supply, pool.total_liquidity_b);
        match (from_a, from_b) {
            (Some(a), Some(b)) => Some(if a <= b { a } else { b }),
            _ => None,
        }
    }
}

/// Deposits `amount_a` and `amount_b` into the pool.  The first deposit
/// mints the floor of the geometric mean of the two amounts less the locked
/// minimum; a later one mints the smaller of the two shares of the supply.
/// A deposit that mints less than `min_lp_tokens` is refused.  The reserves
/// and the supply grow by what was added; the fee rate stays.
pub fn add_liquidity(
    pool: &mut Pool,
    accounts: &LiquidityAccounts,
    amount_a: u64,
    amount_b: u64,
    min_lp_tokens: u64,
) -> (r: Result<LiquidityReceipt, AMMError>)
    ensures
        match r {
            Ok(receipt) => {
                &&& deposit_refusal(*old(pool), *accounts, amount_a, amount_b, min_lp_tokens) is None
                &&& lp_tokens_for(*old(pool), amount_a, amount_b) == Some(receipt.lp_tokens as int)
                &&& pool_after_deposit(*old(pool), amount_a, amount_b, receipt.lp_tokens as int) == Some(*final(pool))
                &&& deposit_transfer(accounts.user_token_a, accounts.token_a_mint, accounts.pool_token_a, accounts.user, amount_a) == Some(receipt.transfer_a@)
                &&& deposit_transfer(accounts.user_token_b, accounts.token_b_mint, accounts.pool_token_b, accounts.user, amount_b) == Some(receipt.transfer_b@)
                &&& is_token_2022(receipt.transfer_a.program_id)
                &&& is_token_2022(receipt.transfer_b.program_id)
                &&& receipt.transfer_a.accounts@ == transfer_accounts(
                    accounts.user_token_a,
                    accounts.token_a_mint.key,
                    accounts.pool_token_a,
                    accounts.user,
                )
                &&& receipt.transfer_b.accounts@ == transfer_accounts(
                    accounts.user_token_b,
                    accounts.token_b_mint.key,
                    accounts.pool_token_b,
                    accounts.user,
                )
            },
            Err(e) => {
                &&& deposit_refusal(*old(pool), *accounts, amount_a, amount_b, min_lp_tokens) == Some(e)
                &&& *final(pool) == *old(pool)
            },
        },
        final(pool).fee_rate == old(pool).fee_rate,
{
    if pool.hook_enabled {
        if validate_transfer_hooks_real(&accounts.token_a_mint).is_err() {
            return Err(AMMError::HookValidationFailed);
        }
        if validate_transfer_hooks_real(&accounts.token_b_mint).is_err() {
            return Err(AMMError::HookValidationFailed);
        }
    }
    let token_a_decimals = match get_mint_decimals(&accounts.token_a_mint) {
        Ok(decimals) => decimals,
        Err(e) => { return Err(e); },
    };
    let token_b_decimals = match get_mint_decimals(&accounts.token_b_mint) {
        Ok(decimals) => decimals,
        Err(e) => { return Err(e); },
    };
    let transfer_a = match transfer_checked(
        &accounts.user_token_a,
        &accounts.token_a_mint.key,
        &accounts.pool_token_a,
        &accounts.user,
        amount_a,
        token_a_decimals,
    ) {
        Some(ix) => ix,
        None => { return Err(AMMError::InvalidTokenProgram); },
    };
    let transfer_b = match transfer_checked(
        &accounts.user_token_b,
        &accounts.token_b_mint.key,
        &accounts.pool_token_b,
        &accounts.user,
        amount_b,
        token_b_decimals,
    ) {
        Some(ix) => ix,
        None => { return Err(AMMError::InvalidTokenProgram); },
    };
    let minted = match lp_tokens(pool, amount_a, amount_b) {
        Some(minted) => minted,
        None => { return Err(AMMError::ArithmeticOverflow); },
    };
    if minted < min_lp_tokens {
        return Err(AMMError::InsufficientLPTokens);
    }
    let total_a = pool.total_liquidity_a.checked_add(amount_a);
    let total_b = pool.total_liquidity_b.checked_add(amount_b);
    let supply = pool.lp_token_supply.checked_add(minted);
    match (total_a, total_b, supply) {
        (Some(total_a), Some(total_b), Some(supply)) => {
            pool.total_liquidity_a = total_a;
            pool.total_liquidity_b = total_b;
            pool.lp_token_supply = supply;
            Ok(LiquidityReceipt { lp_tokens: minted, transfer_a, transfer_b })
        },
        _ => Err(AMMError::ArithmeticOverflow),
    }
}

/// The accounts among which a swap moves tokens.
#[derive(Debug, PartialEq, Eq)]
pub struct SwapAccounts {
    /// The address of the pool, which signs for what leaves it.
    pub pool: Pubkey,
    pub token_a_mint: AccountView,
    pub token_b_mint: AccountView,
    pub user_token_in: Pubkey,
    pub user_token_out: Pubkey,
    pub pool_token_a: Pubkey,
    pub pool_token_b: Pubkey,
    pub user: Pubkey,
}

/// What a swap pays out, the fee it took, and the two transfers that carry
/// it out.
#[derive(Debug, PartialEq, Eq)]
pub struct SwapReceipt {
    pub amount_out: u64,
    pub fee_amount: u64,
    /// From the user to the pool, signed by the user.
    pub transfer_in: Instruction,
    /// From the pool to the user, signed by the pool.
    pub transfer_out: Instruction,
}

/// The reserve of the token that a swap pays in.
pub open spec fn reserve_in(pool: Pool, a_to_b: bool) -> u64 {
    if a_to_b {
        pool.total_liquidity_a
    } else {
        pool.total_liquidity_b
    }
}

/// The reserve of the token that a swap pays out.
pub open spec fn reserve_out(pool: Pool, a_to_b: bool) -> u64 {
    if a_to_b {
        pool.total_liquidity_b
    } else {
        pool.total_liquidity_a
    }
}

/// The fee on `amount_in`: `amount_in * fee_rate / 10000`, where the product
/// has a value in 64 bits.
pub open spec fn swap_fee(amount_in: u64, fee_rate: u64) -> Option<int> {
    if amount_in * fee_rate > u64::MAX {
        None
    } else {
        Some((amount_in * fee_rate) / (BASIS_POINTS as int))
    }
}

/// What a swap pays out.  The fee is taken from the amount paid in; the
/// rest moves the reserves along the constant product: the output reserve
/// becomes the floor of the product of the reserves over the input reserve
/// with the rest added, and what it loses is paid out.  There is no value
/// where the fee is more than the amount, where a sum or a product has none
/// in 64 bits, or where the divisor is zero.
pub open spec fn swap_output(reserve_in: u64, reserve_out: u64, fee_rate: u64, amount_in: u64) -> Option<int> {
    match swap_fee(amount_in, fee_rate) {
        None => None,
        Some(fee) => {
            let denominator = reserve_in + amount_in - fee;
            if fee > amount_in || denominator > u64::MAX || denominator == 0 || reserve_in
                * reserve_out > u64::MAX {
                None
            } else {
                Some(reserve_out - (reserve_in * reserve_out) / denominator)
            }
        },
    }
}

/// The pool after a swap: the whole amount paid in joins one reserve, the
/// amount paid out leaves the other.
pub open spec fn pool_after_swap(pool: Pool, amount_in: u64, amount_out: int, a_to_b: bool) -> Option<Pool> {
    if reserve_in(pool, a_to_b) + amount_in > u64::MAX || amount_out > reserve_out(pool, a_to_b)
        || amount_out < 0 {
        None
    } else if a_to_b {
        Some(
            Pool {
                total_liquidity_a: (pool.total_liquidity_a + amount_in) as u64,
                total_liquidity_b: (pool.total_liquidity_b - amount_out) as u64,
                ..pool
            },
        )
    } else {
        Some(
            Pool {
                total_liquidity_b: (pool.total_liquidity_b + amount_in) as u64,
                total_liquidity_a: (pool.total_liquidity_a - amount_out) as u64,
                ..pool
            },
        )
    }
}

/// The mint of the token that a swap pays in.
pub open spec fn mint_in(accounts: SwapAccounts, a_to_b: bool) -> AccountView {
    if a_to_b {
        accounts.token_a_mint
    } else {
        accounts.token_b_mint
    }
}

/// The mint of the token that a swap pays out.
pub open spec fn mint_out(accounts: SwapAccounts, a_to_b: bool) -> AccountView {
    if a_to_b {
        accounts.token_b_mint
    } else {
        accounts.token_a_mint
    }
}

/// The pool's account of the token that a swap pays in.
pub open spec fn pool_token_in(accounts: SwapAccounts, a_to_b: bool) -> Pubkey {
    if a_to_b {
        accounts.pool_token_a
    } else {
        accounts.pool_token_b
    }
}

/// The pool's account of the token that a swap pays out.
pub open spec fn pool_token_out(accounts: SwapAccounts, a_to_b: bool) -> Pubkey {
    if a_to_b {
        accounts.pool_token_b
    } else {
        accounts.pool_token_a
    }
}

/// The transfer that pays `amount_in` into the pool, with the user as
/// authority, where the decimals of the mint can be read.
pub open spec fn swap_transfer_in(accounts: SwapAccounts, amount_in: u64, a_to_b: bool) -> Option<InstructionView> {
    match mint_decimals(mint_in(accounts, a_to_b).data@) {
        Ok(decimals) => Some(
            transfer_checked_instruction(
                accounts.user_token_in,
                mint_in(accounts, a_to_b).key,
                pool_token_in(accounts, a_to_b),
                accounts.user,
                amount_in,
                decimals,
            ),
        ),
        Err(_) => None,
    }
}

/// The transfer that pays `amount_out` out of the pool, with the pool as
/// authority, where the decimals of the mint can be read.
pub open spec fn swap_transfer_out(accounts: SwapAccounts, amount_out: u64, a_to_b: bool) -> Option<InstructionView> {
    match mint_decimals(mint_out(accounts, a_to_b).data@) {
        Ok(decimals) => Some(
            transfer_checked_instruction(
                pool_token_out(accounts, a_to_b),
                mint_out(accounts, a_to_b).key,
                accounts.user_token_out,
                accounts.pool,
                amount_out,
                decimals,
            ),
        ),
        Err(_) => None,
    }
}

/// Why a swap is refused, if it is.
pub open spec fn swap_refusal(
    pool: Pool,
    accounts: SwapAccounts,
    amount_in: u64,
    minimum_amount_out: u64,
    a_to_b: bool,
) -> Option<AMMError> {
    match swap_output(reserve_in(pool, a_to_b), reserve_out(pool, a_to_b), pool.fee_rate, amount_in) {
        None => Some(AMMError::ArithmeticOverflow),
        Some(amount_out) => if amount_out < minimum_amount_out {
            Some(AMMError::InsufficientOutput)
        } else if swap_transfer_in(accounts, amount_in, a_to_b) is None || swap_transfer_out(
            accounts,
            amount_out as u64,
            a_to_b,
        ) is None {
            Some(AMMError::InvalidTokenProgram)
        } else if pool_after_swap(pool, amount_in, amount_out, a_to_b) is None {
            Some(AMMError::ArithmeticOverflow)
        } else {
            None
        },
    }
}

/// What leaves the output reserve is never more than the reserve holds.
pub proof fn lemma_swap_output_bounded(reserve_in: u64, reserve_out: u64, fee_rate: u64, amount_in: u64)
    ensures
        swap_output(reserve_in, reserve_out, fee_rate, amount_in) matches Some(amount_out) ==> 0
            <= amount_out <= reserve_out,
{
    if let Some(fee) = swap_fee(amount_in, fee_rate) {
        let denominator = reserve_in + amount_in - fee;
        if !(fee > amount_in || denominator > u64::MAX || denominator == 0 || reserve_in * reserve_out
            > u64::MAX) {
            let product = reserve_in * reserve_out;
            assert(0 <= product / denominator <= reserve_out) by (nonlinear_arith)
                requires
                    product == reserve_in * reserve_out,
                    0 <= reserve_in <= denominator,
                    0 < denominator,
                    0 <= reserve_out,
            ;
        }
    }
}

/// The fee and the amount paid out.
fn quote(reserve_in: u64, reserve_out: u64, fee_rate: u64, amount_in: u64) -> (r: Option<(u64, u64)>)
    ensures
        match r {
            Some((fee, amount_out)) => swap_fee(amount_in, fee_rate) == Some(fee as int) && swap_output(
                reserve_in,
                reserve_out,
                fee_rate,
                amount_in,
            ) == Some(amount_out as int),
            None => swap_output(reserve_in, reserve_out, fee_rate, amount_in) is None,
        },
{
    proof {
        lemma_swap_output_bounded(reserve_in, reserve_out, fee_rate, amount_in);
    }
    let fee_amount = match amount_in.checked_mul(fee_rate) {
        Some(product) => product / BASIS_POINTS,
        None => { return None; },
    };
    let amount_in_after_fee = match amount_in.checked_sub(fee_amount) {
        Some(rest) => rest,
        None => { return None; },
    };
    let denominator = match reserve_in.checked_add(amount_in_after_fee) {
        Some(sum) => sum,
        None => { return None; },
    };
    let product = match reserve_in.checked_mul(reserve_out) {
        Some(product) => product,
        None => { return None; },
    };
    let new_reserve_out = match product.checked_div(denominator) {
        Some(quotient) => quotient,
        None => { return None; },
    };
    match reserve_out.checked_sub(new_reserve_out) {
        Some(amount_out) => Some((fee_amount, amount_out)),
        None => None,
    }
}

/// Swaps `amount_in` of one token for the other: A for B where `a_to_b`,
/// else B for A.  The fee, `amount_in * fee_rate / 10000`, is taken from the
/// amount paid in before the constant product gives the amount paid out; a
/// swap that pays out less than `minimum_amount_out` is refused.  The input
/// reserve grows by the whole amount paid in, the output reserve shrinks by
/// the amount paid out; the supply and the fee rate stay.
pub fn swap(
    pool: &mut Pool,
    accounts: &SwapAccounts,
    amount_in: u64,
    minimum_amount_out: u64,
    a_to_b: bool,
) -> (r: Result<SwapReceipt, AMMError>)
    ensures
        match r {
            Ok(receipt) => {
                &&& swap_refusal(*old(pool), *accounts, amount_in, minimum_amount_out, a_to_b) is None
                &&& swap_fee(amount_in, old(pool).fee_rate) == Some(receipt.fee_amount as int)
                &&& swap_output(
                    reserve_in(*old(pool), a_to_b),
                    reserve_out(*old(pool), a_to_b),
                    old(pool).fee_rate,
                    amount_in,
                ) == Some(receipt.amount_out as int)
                &&& receipt.amount_out >= minimum_amount_out
                &&& pool_after_swap(*old(pool), amount_in, receipt.amount_out as int, a_to_b) == Some(*final(pool))
                &&& swap_transfer_in(*accounts, amount_in, a_to_b) == Some(receipt.transfer_in@)
                &&& swap_transfer_out(*accounts, receipt.amount_out, a_to_b) == Some(receipt.transfer_out@)
                &&& is_token_2022(receipt.transfer_in.program_id)
                &&& is_token_2022(receipt.transfer_out.program_id)
                &&& receipt.transfer_in.accounts@ == transfer_accounts(
                    accounts.user_token_in,
                    mint_in(*accounts, a_to_b).key,
                    pool_token_in(*accounts, a_to_b),
                    accounts.user,
                )
                &&& receipt.transfer_out.accounts@ == transfer_accounts(
                    pool_token_out(*accounts, a_to_b),
                    mint_out(*accounts, a_to_b).key,
                    accounts.user_token_out,
                    accounts.pool,
                )
            },
            Err(e) => {
                &&& swap_refusal(*old(pool), *accounts, amount_in, minimum_amount_out, a_to_b) == Some(e)
                &&& *final(pool) == *old(pool)
            },
        },
        final(pool).fee_rate == old(pool).fee_rate,
        final(pool).lp_token_supply == old(pool).lp_token_supply,
{
    if pool.hook_enabled {
        let (first, second) = if a_to_b {
            (&accounts.token_a_mint, &accounts.token_b_mint)
        } else {
            (&accounts.token_b_mint, &accounts.token_a_mint)
        };
        if validate_transfer_hooks_real(first).is_err() {
            return Err(AMMError::HookValidationFailed);
        }
        if validate_transfer_hooks_real(second).is_err() {
            return Err(AMMError::HookValidationFailed);
        }
    }
    let (reserve_in, reserve_out) = if a_to_b {
        (pool.total_liquidity_a, pool.total_liquidity_b)
    } else {
        (pool.total_liquidity_b, pool.total_liquidity_a)
    };
    let (fee_amount, amount_out) = match quote(reserve_in, reserve_out, pool.fee_rate, amount_in) {
        Some(amounts) => amounts,
        None => { return Err(AMMError::ArithmeticOverflow); },
    };
    if amount_out < minimum_amount_out {
        return Err(AMMError::InsufficientOutput);
    }
    let token_a_decimals = match get_mint_decimals(&accounts.token_a_mint) {
        Ok(decimals) => decimals,
        Err(e) => { return Err(e); },
    };
    let token_b_decimals = match get_mint_decimals(&accounts.token_b_mint) {
        Ok(decimals) => decimals,
        Err(e) => { return Err(e); },
    };
    let (mint_in, decimals_in, pool_token_in) = if a_to_b {
        (&accounts.token_a_mint.key, token_a_decimals, &accounts.pool_token_a)
    } else {
        (&accounts.token_b_mint.key, token_b_decimals, &accounts.pool_token_b)
    };
    let (mint_out, decimals_out, pool_token_out) = if a_to_b {
        (&accounts.token_b_mint.key, token_b_decimals, &accounts.pool_token_b)
    } else {
        (&accounts.token_a_mint.key, token_a_decimals, &accounts.pool_token_a)
    };
    let transfer_in = match transfer_checked(
        &accounts.user_token_in,
        mint_in,
        pool_token_in,
        &accounts.user,
        amount_in,
        decimals_in,
    ) {
        Some(ix) => ix,
        None => { return Err(AMMError::InvalidTokenProgram); },
    };
    let transfer_out = match transfer_checked(
        pool_token_out,
        mint_out,
        &accounts.user_token_out,
        &accounts.pool,
        amount_out,
        decimals_out,
    ) {
        Some(ix) => ix,
        None => { return Err(AMMError::InvalidTokenProgram); },
    };
    let grown = match reserve_in.checked_add(amount_in) {
        Some(grown) => grown,
        None => { return Err(AMMError::ArithmeticOverflow); },
    };
    proof {
        lemma_swap_output_bounded(reserve_in, reserve_out, pool.fee_rate, amount_in);
    }
    let shrunk = reserve_out - amount_out;
    if a_to_b {
        pool.total_liquidity_a = grown;
        pool.total_liquidity_b = shrunk;
    } else {
        pool.total_liquidity_b = grown;
        pool.total_liquidity_a = shrunk;
    }
    Ok(SwapReceipt { amount_out, fee_amount, transfer_in, transfer_out })
}

/// The seeds from which the address of the pool of two mints is derived,
/// and with which the pool signs.
pub fn pool_seeds(token_a_mint: &Pubkey, token_b_mint: &Pubkey, bump: u8) -> (seeds: Vec<Vec<u8>>)
    ensures
        seeds@.len() == 4,
        seeds@[0]@ == seq![112u8, 111u8, 111u8, 108u8],
        seeds@[1]@ == token_a_mint.bytes@,
        seeds@[2]@ == token_b_mint.bytes@,
        seeds@[3]@ == seq![bump],
{
    let mut seeds: Vec<Vec<u8>> = Vec::new();
    let mut tag: Vec<u8> = Vec::new();
    tag.push(112u8);
    tag.push(111u8);
    tag.push(111u8);
    tag.push(108u8);
    seeds.push(tag);
    seeds.push(key_bytes(token_a_mint));
    seeds.push(key_bytes(token_b_mint));
    let mut last: Vec<u8> = Vec::new();
    last.push(bump);
    seeds.push(last);
    seeds
}

fn key_bytes(key: &Pubkey) -> (bytes: Vec<u8>)
    ensures
        bytes@ == key.bytes@,
{
    let mut bytes: Vec<u8> = Vec::new();
    let mut i: usize = 0;
    while i < 32
        invariant
            i <= 32,
            bytes@ == key.bytes@.subrange(0, i as int),
        decreases 32 - i,
    {
        bytes.push(key.bytes[i]);
        assert(key.bytes@.subrange(0, i as int).push(key.bytes@[i as int]) == key.bytes@.subrange(
            0,
            i + 1,
        ));
        i += 1;
    }
    assert(key.bytes@.subrange(0, 32) == key.bytes@);
    bytes
}

/// What is reported of a pool.
#[derive(Clone, Copy, Debug, PartialEq, Eq)]
pub struct PoolInfo {
    pub token_a_mint: Pubkey,
    pub token_b_mint: Pubkey,
    pub total_liquidity_a: u64,
    pub total_liquidity_b: u64,
    pub lp_token_supply: u64,
    pub current_price: u64,
    pub fee_rate: u64,
    pub hook_enabled: bool,
}

/// The mints, reserves, supply, price, fee rate and hook mark of a pool.
pub fn get_pool_info(pool: &Pool) -> (info: PoolInfo)
    ensures
        info == (PoolInfo {
            token_a_mint: pool.token_a_mint,
            token_b_mint: pool.token_b_mint,
            total_liquidity_a: pool.total_liquidity_a,
            total_liquidity_b: pool.total_liquidity_b,
            lp_token_supply: pool.lp_token_supply,
            current_price: pool.current_price,
            fee_rate: pool.fee_rate,
            hook_enabled: pool.hook_enabled,
        }),
{
    PoolInfo {
        token_a_mint: pool.token_a_mint,
        token_b_mint: pool.token_b_mint,
        total_liquidity_a: pool.total_liquidity_a,
        total_liquidity_b: pool.total_liquidity_b,
        lp_token_supply: pool.lp_token_supply,
        current_price: pool.current_price,
        fee_rate: pool.fee_rate,
        hook_enabled: pool.hook_enabled,
    }
}

/// A fee rate of no more than the whole takes no more than the amount.
pub proof fn lemma_fee_within_amount(amount_in: u64, fee_rate: u64)
    requires
        fee_rate <= BASIS_POINTS,
    ensures
        swap_fee(amount_in, fee_rate) matches Some(fee) ==> 0 <= fee <= amount_in,
{
    if amount_in * fee_rate <= u64::MAX {
        let product = amount_in * fee_rate;
        assert(0 <= product / 10000 <= amount_in) by (nonlinear_arith)
            requires
                product == amount_in * fee_rate,
                0 <= fee_rate <= 10000,
                0 <= amount_in,
        ;
    }
}

/// A swap moves the reserves along the constant product: the output
/// reserve that it leaves is the floor of the product of the reserves over
/// the input reserve with the amount paid in, less the fee, added.
pub proof fn lemma_swap_follows_constant_product(reserve_in: u64, reserve_out: u64, fee_rate: u64, amount_in: u64)
    requires
        swap_output(reserve_in, reserve_out, fee_rate, amount_in) is Some,
    ensures
        ({
            let amount_out = swap_output(reserve_in, reserve_out, fee_rate, amount_in)->0;
            let fee = swap_fee(amount_in, fee_rate)->0;
            let new_reserve_in = reserve_in + amount_in - fee;
            let new_reserve_out = reserve_out - amount_out;
            &&& 0 <= fee <= amount_in
            &&& 0 <= new_reserve_out <= reserve_out
            &&& new_reserve_in * new_reserve_out <= reserve_in * reserve_out
            &&& reserve_in * reserve_out < new_reserve_in * (new_reserve_out + 1)
        }),
{
    lemma_swap_output_bounded(reserve_in, reserve_out, fee_rate, amount_in);
    let fee = swap_fee(amount_in, fee_rate)->0;
    let denominator = reserve_in + amount_in - fee;
    let product = reserve_in * reserve_out;
    let quotient = product / denominator;
    assert(0 <= fee) by (nonlinear_arith)
        requires
            fee == (amount_in * fee_rate) / 10000,
            0 <= amount_in,
            0 <= fee_rate,
    ;
    assert(denominator * quotient <= product < denominator * (quotient + 1)) by (nonlinear_arith)
        requires
            quotient == product / denominator,
            0 < denominator,
            0 <= product,
    ;
}

/// What the first deposit mints is the floor of the square root of the
/// product of the two amounts, less the locked minimum where the root
/// reaches it.
pub proof fn lemma_initial_lp_tokens(amount_a: u64, amount_b: u64)
    ensures
        ({
            let root = floor_sqrt(amount_a * amount_b);
            &&& 0 <= root
            &&& root * root <= amount_a * amount_b < (root + 1) * (root + 1)
            &&& root <= u64::MAX
            &&& initial_lp_tokens(amount_a, amount_b) == if root >= 1000 {
                root - 1000
            } else {
                0
            }
        }),
{
    assert(0 <= amount_a * amount_b <= u64::MAX * u64::MAX) by (nonlinear_arith)
        requires
            0 <= amount_a <= u64::MAX,
            0 <= amount_b <= u64::MAX,
    ;
    lemma_floor_sqrt_exists(amount_a * amount_b);
    let root = floor_sqrt(amount_a * amount_b);
    if root > u64::MAX {
        assert(root * root > u64::MAX * u64::MAX) by (nonlinear_arith)
            requires
                root > u64::MAX,
        ;
    }
}

} // verus!
