//! The pool manager: the pool snapshot, the addresses of the tick arrays
//! around its price, and the auxiliary state that an update brings in.
use vstd::prelude::*;
use crate::types::{Address, ClmmError};
use crate::fee::{TransferFeeConfig, mint_fee_wf};
use crate::bitmap::{
    bit_set, pos_of_tick, start_of_pos, representable, check_current_tick_array_is_initialized, opt_i32,
    next_start_spec, next_initialized_tick_array_start_index,
};
use crate::neighborhood::{
    first_pos, chain, neighborhood, neighborhood_starts, nearest_tick_array_starts, fetch_starts, fetch_start_list,
};
use crate::address::{
    keys_match, tick_array_address, bitmap_extension_address, tick_array_keys, tick_array_key,
    bitmap_extension_key_of,
};
use crate::accounts::{
    AccountRecord, KeyedRecord, config_of, mint_of, extension_of, tick_arrays_of, vecs_view, fetch_config,
    fetch_mint, fetch_bytes, fetch_tick_arrays,
};

verus! {

/// Number of tick arrays kept on each side of the current price.
pub const NEIGHBORHOOD_SIZE: u8 = 5;

/// The pool account as read from chain.
#[derive(Clone, Copy, Debug)]
pub struct PoolState {
    pub amm_config: Address,
    pub token_mint_0: Address,
    pub token_mint_1: Address,
    pub token_vault_0: Address,
    pub token_vault_1: Address,
    pub observation_key: Address,
    pub mint_decimals_0: u8,
    pub mint_decimals_1: u8,
    pub tick_spacing: u16,
    pub tick_current: i32,
    pub tick_array_bitmap: [u64; 16],
}

impl PoolState {
    pub open spec fn wf(self) -> bool {
        self.tick_spacing > 0
    }
}

/// The pool's fee configuration.
#[derive(Clone, Copy, Debug, PartialEq, Eq, Structural)]
pub struct AmmConfig {
    /// Trade fee in hundredths of a basis point (parts per million).
    pub trade_fee_rate: u32,
}

/// What a successful update brings in.
#[derive(Clone, Debug)]
pub struct PoolCache {
    pub amm_config: AmmConfig,
    pub mint0: Option<TransferFeeConfig>,
    pub mint1: Option<TransferFeeConfig>,
    pub tickarray_bitmap_extension: Vec<u8>,
    pub up_tick_arrays: Vec<Vec<u8>>,
    pub down_tick_arrays: Vec<Vec<u8>>,
}

/// Manages one pool: `cache` is `None` until an update succeeds.
#[derive(Clone, Debug)]
pub struct SwapIoClmmAdapter {
    pub epoch: u64,
    pub pool_key: Address,
    pub program_id: Address,
    pub pool_state: PoolState,
    /// Slippage tolerance in basis points.
    pub slippage_bps: u16,
    /// Start indices of the tick arrays toward higher prices, nearest first.
    pub up_tick_array_starts: Vec<i32>,
    /// Start indices of the tick arrays toward lower prices, nearest first.
    pub down_tick_array_starts: Vec<i32>,
    pub up_tick_array_keys: Vec<Address>,
    pub down_tick_array_keys: Vec<Address>,
    /// Address of the pool's bitmap extension account.
    pub bitmap_extension_key: Address,
    pub cache: Option<PoolCache>,
}

/// The error an update with the map `s` fails with, if any: the first of the
/// fee configuration, the two mints, the bitmap extension and the tick arrays
/// that is missing or of the wrong kind, or a mint with a fee rate above ten
/// thousand basis points.
pub open spec fn update_error(a: SwapIoClmmAdapter, s: Seq<KeyedRecord>) -> Option<ClmmError> {
    let ext = a.bitmap_extension_key;
    if config_of(s, a.pool_state.amm_config) is Err {
        Some(config_of(s, a.pool_state.amm_config)->Err_0)
    } else if mint_of(s, a.pool_state.token_mint_0) is Err {
        Some(mint_of(s, a.pool_state.token_mint_0)->Err_0)
    } else if mint_of(s, a.pool_state.token_mint_1) is Err {
        Some(mint_of(s, a.pool_state.token_mint_1)->Err_0)
    } else if extension_of(s, ext) is Err {
        Some(extension_of(s, ext)->Err_0)
    } else if tick_arrays_of(s, a.up_tick_array_keys@) is Err {
        Some(tick_arrays_of(s, a.up_tick_array_keys@)->Err_0)
    } else if tick_arrays_of(s, a.down_tick_array_keys@) is Err {
        Some(tick_arrays_of(s, a.down_tick_array_keys@)->Err_0)
    } else {
        None
    }
}

/// All but the cache agree.
pub open spec fn same_except_cache(a: SwapIoClmmAdapter, b: SwapIoClmmAdapter) -> bool {
    &&& a.epoch == b.epoch
    &&& a.pool_key == b.pool_key
    &&& a.program_id == b.program_id
    &&& a.pool_state == b.pool_state
    &&& a.slippage_bps == b.slippage_bps
    &&& a.up_tick_array_starts@ == b.up_tick_array_starts@
    &&& a.down_tick_array_starts@ == b.down_tick_array_starts@
    &&& a.up_tick_array_keys@ == b.up_tick_array_keys@
    &&& a.down_tick_array_keys@ == b.down_tick_array_keys@
    &&& a.bitmap_extension_key == b.bitmap_extension_key
}

impl SwapIoClmmAdapter {
    /// Address of the pool's bitmap extension account.
    pub open spec fn bitmap_extension_key_spec(self) -> Seq<u8> {
        bitmap_extension_address(self.pool_key, self.program_id)
    }

    pub open spec fn wf(self) -> bool {
        &&& self.pool_state.wf()
        &&& self.slippage_bps <= 10000
        &&& self.bitmap_extension_key.bytes@ == self.bitmap_extension_key_spec()
        &&& keys_match(self.up_tick_array_keys@, self.up_tick_array_starts@, self.pool_key, self.program_id)
        &&& keys_match(self.down_tick_array_keys@, self.down_tick_array_starts@, self.pool_key, self.program_id)
        &&& (self.cache matches Some(c) ==> mint_fee_wf(c.mint0) && mint_fee_wf(c.mint1))
    }

    /// The neighborhood lists a pool gets: empty where its current tick is
    /// not representable.
    pub open spec fn starts_for(pool: PoolState, zero_for_one: bool) -> Seq<int> {
        if representable(pool.tick_current as int, pool.tick_spacing as int) {
            neighborhood_starts(pool, zero_for_one, NEIGHBORHOOD_SIZE as nat)
        } else {
            seq![]
        }
    }

    /// A manager for the pool, with its neighborhood resolved and no
    /// auxiliary state yet.
    pub fn new(pool_key: Address, pool_state: PoolState, program_id: Address, epoch: u64) -> (r: Self)
        requires
            pool_state.wf(),
        ensures
            r.wf(),
            r.cache is None,
            r.epoch == epoch,
            r.pool_key == pool_key,
            r.program_id == program_id,
            r.pool_state == pool_state,
            r.slippage_bps == 0,
            r.up_tick_array_starts@.len() == Self::starts_for(pool_state, false).len(),
            forall|i: int| 0 <= i < r.up_tick_array_starts@.len() ==>
                r.up_tick_array_starts@[i] as int == #[trigger] Self::starts_for(pool_state, false)[i],
            r.down_tick_array_starts@.len() == Self::starts_for(pool_state, true).len(),
            forall|i: int| 0 <= i < r.down_tick_array_starts@.len() ==>
                r.down_tick_array_starts@[i] as int == #[trigger] Self::starts_for(pool_state, true)[i],
    {
        let up = match nearest_tick_array_starts(&pool_state, NEIGHBORHOOD_SIZE, false) {
            Ok(v) => v,
            Err(_) => Vec::new(),
        };
        let down = match nearest_tick_array_starts(&pool_state, NEIGHBORHOOD_SIZE, true) {
            Ok(v) => v,
            Err(_) => Vec::new(),
        };
        let up_keys = tick_array_keys(&pool_key, &up, &program_id);
        let down_keys = tick_array_keys(&pool_key, &down, &program_id);
        let bitmap_extension_key = bitmap_extension_key_of(&pool_key, &program_id);
        SwapIoClmmAdapter {
            bitmap_extension_key,
            epoch,
            pool_key,
            program_id,
            pool_state,
            slippage_bps: 0,
            up_tick_array_starts: up,
            down_tick_array_starts: down,
            up_tick_array_keys: up_keys,
            down_tick_array_keys: down_keys,
            cache: None,
        }
    }

    /// Sets the slippage tolerance, in basis points.
    pub fn set_slippage_bps(&mut self, slippage_bps: u16)
        requires
            old(self).wf(),
            slippage_bps <= 10000,
        ensures
            final(self).wf(),
            final(self).slippage_bps == slippage_bps,
            final(self).cache == old(self).cache,
            final(self).epoch == old(self).epoch,
            final(self).pool_state == old(self).pool_state,
            final(self).pool_key == old(self).pool_key,
            final(self).up_tick_array_keys@ == old(self).up_tick_array_keys@,
            final(self).down_tick_array_keys@ == old(self).down_tick_array_keys@,
    {
        self.slippage_bps = slippage_bps;
    }

    /// Address of the tick array of this pool that starts at `start_array_index`.
    pub fn tick_array(&self, start_array_index: i32) -> (r: Address)
        ensures
            r.bytes@ == tick_array_address(self.pool_key, start_array_index, self.program_id),
    {
        tick_array_key(&self.pool_key, start_array_index, &self.program_id)
    }

    /// Address of this pool's bitmap extension account.
    pub fn tick_array_bitmap_extension(&self) -> (r: Address)
        ensures
            r.bytes@ == self.bitmap_extension_key_spec(),
    {
        bitmap_extension_key_of(&self.pool_key, &self.program_id)
    }

    /// The start index of the nearest initialized tick array beyond the one
    /// containing `last_tick_array_start_index`, in the direction.
    pub fn next_initialized_tick_array_start_index(&self, last_tick_array_start_index: i32, zero_for_one: bool) -> (r: Option<i32>)
        requires
            self.wf(),
        ensures
            opt_i32(r) == next_start_spec(self.pool_state.tick_array_bitmap, last_tick_array_start_index as int,
                self.pool_state.tick_spacing as int, zero_for_one),
    {
        next_initialized_tick_array_start_index(&self.pool_state.tick_array_bitmap, last_tick_array_start_index,
            self.pool_state.tick_spacing, zero_for_one)
    }

    /// The first tick array in a direction: whether the array containing the
    /// current tick is initialized, and the start index of the first array
    /// (see `first_pos`).
    pub fn get_first_initialized_tick_array(&self, zero_for_one: bool) -> (r: Result<(bool, i32), ClmmError>)
        requires
            self.wf(),
        ensures
            r is Ok <==> representable(self.pool_state.tick_current as int, self.pool_state.tick_spacing as int),
            r matches Err(e) ==> e == ClmmError::UnrepresentableRange,
            r matches Ok((init, start)) ==> {
                let cur = pos_of_tick(self.pool_state.tick_current as int, self.pool_state.tick_spacing as int);
                &&& init == bit_set(self.pool_state.tick_array_bitmap, cur)
                &&& start == start_of_pos(first_pos(self.pool_state.tick_array_bitmap, cur, zero_for_one),
                    self.pool_state.tick_spacing as int)
            },
    {
        let r = nearest_tick_array_starts(&self.pool_state, 1, zero_for_one);
        match r {
            Err(e) => Err(e),
            Ok(v) => {
                let init = match check_current_tick_array_is_initialized(&self.pool_state.tick_array_bitmap,
                    self.pool_state.tick_current, self.pool_state.tick_spacing) {
                    Ok((i, _)) => i,
                    Err(_) => false,
                };
                proof {
                    let bm = self.pool_state.tick_array_bitmap;
                    let cur = pos_of_tick(self.pool_state.tick_current as int, self.pool_state.tick_spacing as int);
                    let f = first_pos(bm, cur, zero_for_one);
                    assert(chain(bm, f, zero_for_one, 0) == Seq::<int>::empty());
                    assert(neighborhood(bm, cur, zero_for_one, 1) =~= seq![f]);
                    assert(neighborhood_starts(self.pool_state, zero_for_one, 1)[0]
                        == start_of_pos(f, self.pool_state.tick_spacing as int));
                }
                assert(v@.len() == 1);
                assert(v@[0] as int == neighborhood_starts(self.pool_state, zero_for_one, 1)[0]);
                Ok((init, v[0]))
            },
        }
    }

    /// Addresses of the tick arrays to fetch around the current price for
    /// `neighbor_in_each_direction` arrays per side: the upward list, then the
    /// downward one without the array both share. Fails with
    /// `UnrepresentableRange` where the bitmap does not cover the current tick.
    pub fn get_nearest_tick_arrays(&self, neighbor_in_each_direction: u8) -> (r: Result<Vec<Address>, ClmmError>)
        requires
            self.wf(),
        ensures
            r is Ok <==> representable(self.pool_state.tick_current as int, self.pool_state.tick_spacing as int),
            r matches Err(e) ==> e == ClmmError::UnrepresentableRange,
            r matches Ok(v) ==> exists|up: Seq<i32>, down: Seq<i32>| {
                &&& up.len() == neighborhood_starts(self.pool_state, false, neighbor_in_each_direction as nat).len()
                &&& down.len() == neighborhood_starts(self.pool_state, true, neighbor_in_each_direction as nat).len()
                &&& (forall|i: int| 0 <= i < up.len() ==>
                    up[i] as int == #[trigger] neighborhood_starts(self.pool_state, false, neighbor_in_each_direction as nat)[i])
                &&& (forall|i: int| 0 <= i < down.len() ==>
                    down[i] as int == #[trigger] neighborhood_starts(self.pool_state, true, neighbor_in_each_direction as nat)[i])
                &&& keys_match(v@, fetch_starts(up, down), self.pool_key, self.program_id)
            },
    {
        let up = match nearest_tick_array_starts(&self.pool_state, neighbor_in_each_direction, false) {
            Ok(v) => v,
            Err(e) => {
                return Err(e);
            },
        };
        let down = match nearest_tick_array_starts(&self.pool_state, neighbor_in_each_direction, true) {
            Ok(v) => v,
            Err(e) => {
                return Err(e);
            },
        };
        let starts = fetch_start_list(&up, &down);
        let keys = tick_array_keys(&self.pool_key, &starts, &self.program_id);
        assert(keys_match(keys@, fetch_starts(up@, down@), self.pool_key, self.program_id));
        Ok(keys)
    }

    /// Addresses of the tick arrays this manager fetches: the upward list,
    /// then the downward one without the array both share.
    pub fn get_tick_array_keys(&self) -> (r: Vec<Address>)
        requires
            self.wf(),
        ensures
            keys_match(r@, fetch_starts(self.up_tick_array_starts@, self.down_tick_array_starts@),
                self.pool_key, self.program_id),
    {
        let starts = fetch_start_list(&self.up_tick_array_starts, &self.down_tick_array_starts);
        tick_array_keys(&self.pool_key, &starts, &self.program_id)
    }

    /// The accounts an update needs: the fee configuration, the two mints,
    /// the bitmap extension and the tick arrays.
    pub fn get_accounts_to_update(&self) -> (r: Vec<Address>)
        requires
            self.wf(),
        ensures
            r@.len() >= 4,
            r@[0] == self.pool_state.amm_config,
            r@[1] == self.pool_state.token_mint_0,
            r@[2] == self.pool_state.token_mint_1,
            r@[3].bytes@ == self.bitmap_extension_key_spec(),
            keys_match(r@.skip(4), fetch_starts(self.up_tick_array_starts@, self.down_tick_array_starts@),
                self.pool_key, self.program_id),
    {
        let mut r: Vec<Address> = Vec::new();
        r.push(self.pool_state.amm_config);
        r.push(self.pool_state.token_mint_0);
        r.push(self.pool_state.token_mint_1);
        r.push(self.tick_array_bitmap_extension());
        let keys = self.get_tick_array_keys();
        let ghost head = r@;
        let mut i: usize = 0;
        while i < keys.len()
            invariant
                i <= keys@.len(),
                r@ == head + keys@.subrange(0, i as int),
                head.len() == 4,
            decreases keys@.len() - i,
        {
            r.push(keys[i]);
            i = i + 1;
            assert(r@ =~= head + keys@.subrange(0, i as int));
        }
        assert(r@.skip(4) =~= keys@);
        r
    }

    /// Brings in the auxiliary state from a map of decoded accounts. All or
    /// nothing: on failure the manager is left as it was, and the error names
    /// the first account that is missing, of the wrong kind, or a mint with a
    /// fee rate above ten thousand basis points.
    pub fn update(&mut self, accounts: &Vec<KeyedRecord>) -> (r: Result<(), ClmmError>)
        requires
            old(self).wf(),
        ensures
            final(self).wf(),
            r == (match update_error(*old(self), accounts@) {
                Some(e) => Err::<(), ClmmError>(e),
                None => Ok(()),
            }),
            r is Err ==> *final(self) == *old(self),
            same_except_cache(*final(self), *old(self)),
            r is Ok ==> (final(self).cache matches Some(c) && {
                let ext = old(self).bitmap_extension_key;
                &&& config_of(accounts@, old(self).pool_state.amm_config) == Ok::<AmmConfig, ClmmError>(c.amm_config)
                &&& mint_of(accounts@, old(self).pool_state.token_mint_0) == Ok::<Option<TransferFeeConfig>, ClmmError>(c.mint0)
                &&& mint_of(accounts@, old(self).pool_state.token_mint_1) == Ok::<Option<TransferFeeConfig>, ClmmError>(c.mint1)
                &&& extension_of(accounts@, ext) == Ok::<Seq<u8>, ClmmError>(c.tickarray_bitmap_extension@)
                &&& tick_arrays_of(accounts@, old(self).up_tick_array_keys@) == Ok::<Seq<Seq<u8>>, ClmmError>(vecs_view(c.up_tick_arrays@))
                &&& tick_arrays_of(accounts@, old(self).down_tick_array_keys@) == Ok::<Seq<Seq<u8>>, ClmmError>(vecs_view(c.down_tick_arrays@))
            }),
    {
        let amm_config = match fetch_config(accounts, &self.pool_state.amm_config) {
            Ok(c) => c,
            Err(e) => {
                return Err(e);
            },
        };
        let mint0 = match fetch_mint(accounts, &self.pool_state.token_mint_0) {
            Ok(m) => m,
            Err(e) => {
                return Err(e);
            },
        };
        let mint1 = match fetch_mint(accounts, &self.pool_state.token_mint_1) {
            Ok(m) => m,
            Err(e) => {
                return Err(e);
            },
        };
        let ext = match fetch_bytes(accounts, &self.bitmap_extension_key, true) {
            Ok(d) => d,
            Err(e) => {
                return Err(e);
            },
        };
        let up = match fetch_tick_arrays(accounts, &self.up_tick_array_keys) {
            Ok(v) => v,
            Err(e) => {
                return Err(e);
            },
        };
        let down = match fetch_tick_arrays(accounts, &self.down_tick_array_keys) {
            Ok(v) => v,
            Err(e) => {
                return Err(e);
            },
        };
        self.cache = Some(PoolCache {
            amm_config,
            mint0,
            mint1,
            tickarray_bitmap_extension: ext,
            up_tick_arrays: up,
            down_tick_arrays: down,
        });
        Ok(())
    }

    /// The epoch whose transfer-fee settings apply.
    pub fn get_epoch(&self) -> (r: u64)
        ensures
            r == self.epoch,
    {
        self.epoch
    }

    /// The pool snapshot.
    pub fn pool_state(&self) -> (r: &PoolState)
        ensures
            *r == self.pool_state,
    {
        &self.pool_state
    }

    /// The fee configuration, once an update has brought it in.
    pub fn amm_config(&self) -> (r: Option<AmmConfig>)
        ensures
            r == (match self.cache {
                Some(c) => Some(c.amm_config),
                None => None::<AmmConfig>,
            }),
    {
        match &self.cache {
            Some(c) => Some(c.amm_config),
            None => None,
        }
    }

    /// Decimals of the pool's first mint.
    pub fn token_a_decimals(&self) -> (r: u8)
        ensures
            r == self.pool_state.mint_decimals_0,
    {
        self.pool_state.mint_decimals_0
    }

    /// Decimals of the pool's second mint.
    pub fn token_b_decimals(&self) -> (r: u8)
        ensures
            r == self.pool_state.mint_decimals_1,
    {
        self.pool_state.mint_decimals_1
    }

    /// The two mints the pool trades.
    pub fn get_reserve_mints(&self) -> (r: Vec<Address>)
        ensures
            r@ == seq![self.pool_state.token_mint_0, self.pool_state.token_mint_1],
    {
        let r = vec![self.pool_state.token_mint_0, self.pool_state.token_mint_1];
        assert(r@ =~= seq![self.pool_state.token_mint_0, self.pool_state.token_mint_1]);
        r
    }

    /// The program that owns the pool.
    pub fn program_id(&self) -> (r: Address)
        ensures
            r == self.program_id,
    {
        self.program_id
    }

    /// The pool's address.
    pub fn key(&self) -> (r: Address)
        ensures
            r == self.pool_key,
    {
        self.pool_key
    }

    /// Exact-out quotes are supported.
    pub fn supports_exact_out(&self) -> (r: bool)
        ensures
            r,
    {
        true
    }

    /// The accounts to fetch do not change between updates.
    pub fn has_dynamic_accounts(&self) -> (r: bool)
        ensures
            !r,
    {
        false
    }

    /// A change of the reserve mints needs no update.
    pub fn requires_update_for_reserve_mints(&self) -> (r: bool)
        ensures
            !r,
    {
        false
    }

    /// Whether the pool has tick arrays to quote against.
    pub fn is_active(&self) -> (r: bool)
        ensures
            r == (self.up_tick_array_starts@.len() > 0 || self.down_tick_array_starts@.len() > 0),
    {
        self.up_tick_array_starts.len() > 0 || self.down_tick_array_starts.len() > 0
    }
}

} // verus!
