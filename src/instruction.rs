//! The account list of a swap through the pool.
use vstd::prelude::*;
use crate::types::Address;
use crate::pool::SwapIoClmmAdapter;

verus! {

/// One account of an instruction.
#[derive(Clone, Copy, Debug)]
pub struct AccountMeta {
    pub pubkey: Address,
    pub is_signer: bool,
    pub is_writable: bool,
}

/// The swapper's side of a swap.
#[derive(Clone, Copy, Debug)]
pub struct SwapParams {
    pub source_mint: Address,
    pub destination_mint: Address,
    pub source_token_account: Address,
    pub destination_token_account: Address,
}

/// The programs a swap calls into.
#[derive(Clone, Copy, Debug)]
pub struct ProgramIds {
    pub token_program: Address,
    pub token_program_2022: Address,
    pub memo_program: Address,
}

pub open spec fn meta(pubkey: Address, is_writable: bool) -> AccountMeta {
    AccountMeta { pubkey, is_signer: false, is_writable }
}

/// The fixed accounts of a swap, before the tick arrays.
pub open spec fn swap_head(m: SwapIoClmmAdapter, s: SwapParams, ids: ProgramIds) -> Seq<AccountMeta> {
    let p = m.pool_state;
    let zfo = s.source_mint.bytes@ == p.token_mint_0.bytes@ && s.destination_mint.bytes@ == p.token_mint_1.bytes@;
    let (in_vault, out_vault, in_mint, out_mint) = if zfo {
        (p.token_vault_0, p.token_vault_1, p.token_mint_0, p.token_mint_1)
    } else {
        (p.token_vault_1, p.token_vault_0, p.token_mint_1, p.token_mint_0)
    };
    seq![
        meta(p.amm_config, false),
        meta(m.pool_key, true),
        meta(s.source_token_account, true),
        meta(s.destination_token_account, true),
        meta(in_vault, true),
        meta(out_vault, true),
        meta(p.observation_key, true),
        meta(ids.token_program, false),
        meta(ids.token_program_2022, false),
        meta(ids.memo_program, false),
        meta(in_mint, false),
        meta(out_mint, false),
        meta(m.bitmap_extension_key, true),
    ]
}

/// Builds swap account lists.
pub struct InstructionBuilder;

impl InstructionBuilder {
    /// The accounts of a swap: the fixed accounts, then the tick arrays on
    /// the side the price moves toward (lower prices when the swap goes from
    /// the pool's first mint to its second), all writable.
    pub fn build_swap_instruction(pool_manager: &SwapIoClmmAdapter, swap_params: &SwapParams, ids: &ProgramIds) -> (r: Vec<AccountMeta>)
        ensures
            r@.len() == 13 + (if swap_params.source_mint.bytes@ == pool_manager.pool_state.token_mint_0.bytes@
                && swap_params.destination_mint.bytes@ == pool_manager.pool_state.token_mint_1.bytes@ {
                pool_manager.down_tick_array_keys@.len()
            } else {
                pool_manager.up_tick_array_keys@.len()
            }),
            r@.subrange(0, 13) == swap_head(*pool_manager, *swap_params, *ids),
            forall|i: int| 13 <= i < r@.len() ==> #[trigger] r@[i] == meta(
                if swap_params.source_mint.bytes@ == pool_manager.pool_state.token_mint_0.bytes@
                    && swap_params.destination_mint.bytes@ == pool_manager.pool_state.token_mint_1.bytes@ {
                    pool_manager.down_tick_array_keys@[i - 13]
                } else {
                    pool_manager.up_tick_array_keys@[i - 13]
                },
                true,
            ),
    {
        let p = &pool_manager.pool_state;
        let zero_for_one = swap_params.source_mint == p.token_mint_0 && swap_params.destination_mint == p.token_mint_1;
        let (in_vault, out_vault, in_mint, out_mint) = if zero_for_one {
            (p.token_vault_0, p.token_vault_1, p.token_mint_0, p.token_mint_1)
        } else {
            (p.token_vault_1, p.token_vault_0, p.token_mint_1, p.token_mint_0)
        };
        let mut r: Vec<AccountMeta> = vec![
            AccountMeta { pubkey: p.amm_config, is_signer: false, is_writable: false },
            AccountMeta { pubkey: pool_manager.pool_key, is_signer: false, is_writable: true },
            AccountMeta { pubkey: swap_params.source_token_account, is_signer: false, is_writable: true },
            AccountMeta { pubkey: swap_params.destination_token_account, is_signer: false, is_writable: true },
            AccountMeta { pubkey: in_vault, is_signer: false, is_writable: true },
            AccountMeta { pubkey: out_vault, is_signer: false, is_writable: true },
            AccountMeta { pubkey: p.observation_key, is_signer: false, is_writable: true },
            AccountMeta { pubkey: ids.token_program, is_signer: false, is_writable: false },
            AccountMeta { pubkey: ids.token_program_2022, is_signer: false, is_writable: false },
            AccountMeta { pubkey: ids.memo_program, is_signer: false, is_writable: false },
            AccountMeta { pubkey: in_mint, is_signer: false, is_writable: false },
            AccountMeta { pubkey: out_mint, is_signer: false, is_writable: false },
            AccountMeta { pubkey: pool_manager.bitmap_extension_key, is_signer: false, is_writable: true },
        ];
        assert(r@ =~= swap_head(*pool_manager, *swap_params, *ids));
        let ghost head = r@;
        let keys = if zero_for_one { &pool_manager.down_tick_array_keys } else { &pool_manager.up_tick_array_keys };
        let mut i: usize = 0;
        while i < keys.len()
            invariant
                i <= keys@.len(),
                r@.len() == 13 + i,
                r@.subrange(0, 13) == head,
                forall|j: int| 13 <= j < r@.len() ==> #[trigger] r@[j] == meta(keys@[j - 13], true),
            decreases keys@.len() - i,
        {
            r.push(AccountMeta { pubkey: keys[i], is_signer: false, is_writable: true });
            i = i + 1;
            assert(r@.subrange(0, 13) =~= head);
        }
        r
    }
}

} // verus!
