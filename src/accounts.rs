//! The account map an update reads, and the lookups in it.
use vstd::prelude::*;
use crate::types::{Address, ClmmError};
use crate::fee::{TransferFeeConfig, mint_fee_wf, ONE_IN_BASIS_POINTS};
use crate::pool::AmmConfig;

verus! {
/// A decoded account record, as handed to an update.
#[derive(Clone, Debug)]
pub enum AccountRecord {
    AmmConfig(AmmConfig),
    /// A mint, with its transfer-fee extension if it has one.
    Mint(Option<TransferFeeConfig>),
    /// The bitmap extension account, kept as its raw bytes.
    BitmapExtension(Vec<u8>),
    /// A tick array account, kept as its raw bytes.
    TickArray(Vec<u8>),
}

/// One entry of the account map handed to an update.
#[derive(Clone, Debug)]
pub struct KeyedRecord {
    pub key: Address,
    pub record: AccountRecord,
}

/// The first record of the map under `k`.
pub open spec fn lookup(s: Seq<KeyedRecord>, k: Seq<u8>) -> Option<AccountRecord>
    decreases s.len(),
{
    if s.len() == 0 {
        None
    } else if s[0].key.bytes@ == k {
        Some(s[0].record)
    } else {
        lookup(s.drop_first(), k)
    }
}

pub open spec fn config_of(s: Seq<KeyedRecord>, k: Address) -> Result<AmmConfig, ClmmError> {
    match lookup(s, k.bytes@) {
        None => Err(ClmmError::MissingAccount(k)),
        Some(AccountRecord::AmmConfig(c)) => Ok(c),
        Some(_) => Err(ClmmError::DecodeError(k)),
    }
}

pub open spec fn mint_of(s: Seq<KeyedRecord>, k: Address) -> Result<Option<TransferFeeConfig>, ClmmError> {
    match lookup(s, k.bytes@) {
        None => Err(ClmmError::MissingAccount(k)),
        Some(AccountRecord::Mint(m)) => if mint_fee_wf(m) {
            Ok(m)
        } else {
            Err(ClmmError::DecodeError(k))
        },
        Some(_) => Err(ClmmError::DecodeError(k)),
    }
}

pub open spec fn extension_of(s: Seq<KeyedRecord>, k: Address) -> Result<Seq<u8>, ClmmError> {
    match lookup(s, k.bytes@) {
        None => Err(ClmmError::MissingAccount(k)),
        Some(AccountRecord::BitmapExtension(d)) => Ok(d@),
        Some(_) => Err(ClmmError::DecodeError(k)),
    }
}

pub open spec fn tick_array_of(s: Seq<KeyedRecord>, k: Address) -> Result<Seq<u8>, ClmmError> {
    match lookup(s, k.bytes@) {
        None => Err(ClmmError::MissingAccount(k)),
        Some(AccountRecord::TickArray(d)) => Ok(d@),
        Some(_) => Err(ClmmError::DecodeError(k)),
    }
}

/// The tick arrays under `keys`, or the error of the first key that fails.
pub open spec fn tick_arrays_of(s: Seq<KeyedRecord>, keys: Seq<Address>) -> Result<Seq<Seq<u8>>, ClmmError>
    decreases keys.len(),
{
    if keys.len() == 0 {
        Ok(seq![])
    } else {
        match tick_arrays_of(s, keys.drop_last()) {
            Err(e) => Err(e),
            Ok(v) => match tick_array_of(s, keys.last()) {
                Err(e) => Err(e),
                Ok(d) => Ok(v.push(d)),
            },
        }
    }
}

pub open spec fn vecs_view(v: Seq<Vec<u8>>) -> Seq<Seq<u8>> {
    Seq::new(v.len(), |i: int| v[i]@)
}

/// Index of the first record of the map under `key`.
pub(crate) fn find_record(accounts: &Vec<KeyedRecord>, key: &Address) -> (r: Option<usize>)
    ensures
        r matches Some(i) ==> i < accounts@.len() && lookup(accounts@, key.bytes@) == Some(accounts@[i as int].record),
        r is None ==> lookup(accounts@, key.bytes@) is None,
{
    let mut i: usize = 0;
    assert(accounts@.subrange(0, accounts@.len() as int) =~= accounts@);
    while i < accounts.len()
        invariant
            i <= accounts@.len(),
            lookup(accounts@, key.bytes@) == lookup(accounts@.subrange(i as int, accounts@.len() as int), key.bytes@),
        decreases accounts@.len() - i,
    {
        let ghost rest = accounts@.subrange(i as int, accounts@.len() as int);
        if accounts[i].key == *key {
            return Some(i);
        }
        assert(rest.drop_first() =~= accounts@.subrange(i + 1, accounts@.len() as int));
        i = i + 1;
    }
    None
}

pub(crate) fn fetch_config(accounts: &Vec<KeyedRecord>, key: &Address) -> (r: Result<AmmConfig, ClmmError>)
    ensures
        r == config_of(accounts@, *key),
{
    match find_record(accounts, key) {
        None => Err(ClmmError::MissingAccount(*key)),
        Some(i) => match &accounts[i].record {
            AccountRecord::AmmConfig(c) => Ok(*c),
            _ => Err(ClmmError::DecodeError(*key)),
        },
    }
}

pub(crate) fn fetch_mint(accounts: &Vec<KeyedRecord>, key: &Address) -> (r: Result<Option<TransferFeeConfig>, ClmmError>)
    ensures
        r == mint_of(accounts@, *key),
{
    match find_record(accounts, key) {
        None => Err(ClmmError::MissingAccount(*key)),
        Some(i) => match &accounts[i].record {
            AccountRecord::Mint(m) => {
                if mint_fee_valid(m) {
                    Ok(*m)
                } else {
                    Err(ClmmError::DecodeError(*key))
                }
            },
            _ => Err(ClmmError::DecodeError(*key)),
        },
    }
}

pub(crate) fn fetch_bytes(accounts: &Vec<KeyedRecord>, key: &Address, extension: bool) -> (r: Result<Vec<u8>, ClmmError>)
    ensures
        extension ==> (match extension_of(accounts@, *key) {
            Ok(d) => r matches Ok(v) && v@ == d,
            Err(e) => r == Err::<Vec<u8>, ClmmError>(e),
        }),
        !extension ==> (match tick_array_of(accounts@, *key) {
            Ok(d) => r matches Ok(v) && v@ == d,
            Err(e) => r == Err::<Vec<u8>, ClmmError>(e),
        }),
{
    match find_record(accounts, key) {
        None => Err(ClmmError::MissingAccount(*key)),
        Some(i) => match &accounts[i].record {
            AccountRecord::BitmapExtension(d) => {
                if extension {
                    let v = d.clone();
                    assert(v@ =~= d@);
                    Ok(v)
                } else {
                    Err(ClmmError::DecodeError(*key))
                }
            },
            AccountRecord::TickArray(d) => {
                if !extension {
                    let v = d.clone();
                    assert(v@ =~= d@);
                    Ok(v)
                } else {
                    Err(ClmmError::DecodeError(*key))
                }
            },
            _ => Err(ClmmError::DecodeError(*key)),
        },
    }
}

pub(crate) proof fn lemma_tick_arrays_prefix_err(s: Seq<KeyedRecord>, keys: Seq<Address>, j: int)
    requires
        0 <= j <= keys.len(),
        tick_arrays_of(s, keys.subrange(0, j)) is Err,
    ensures
        tick_arrays_of(s, keys) == tick_arrays_of(s, keys.subrange(0, j)),
    decreases keys.len(),
{
    if keys.len() == j {
        assert(keys.subrange(0, j) =~= keys);
    } else {
        assert(keys.drop_last().subrange(0, j) =~= keys.subrange(0, j));
        lemma_tick_arrays_prefix_err(s, keys.drop_last(), j);
    }
}

pub(crate) fn fetch_tick_arrays(accounts: &Vec<KeyedRecord>, keys: &Vec<Address>) -> (r: Result<Vec<Vec<u8>>, ClmmError>)
    ensures
        match tick_arrays_of(accounts@, keys@) {
            Ok(d) => r matches Ok(v) && vecs_view(v@) == d,
            Err(e) => r == Err::<Vec<Vec<u8>>, ClmmError>(e),
        },
{
    let mut out: Vec<Vec<u8>> = Vec::new();
    let mut i: usize = 0;
    assert(keys@.subrange(0, 0) =~= Seq::<Address>::empty());
    assert(vecs_view(out@) =~= Seq::<Seq<u8>>::empty());
    while i < keys.len()
        invariant
            i <= keys@.len(),
            tick_arrays_of(accounts@, keys@.subrange(0, i as int)) == Ok::<Seq<Seq<u8>>, ClmmError>(vecs_view(out@)),
        decreases keys@.len() - i,
    {
        let ghost pre = keys@.subrange(0, i as int + 1);
        assert(pre.drop_last() =~= keys@.subrange(0, i as int));
        match fetch_bytes(accounts, &keys[i], false) {
            Err(e) => {
                assert(tick_arrays_of(accounts@, pre) == Err::<Seq<Seq<u8>>, ClmmError>(e));
                proof { lemma_tick_arrays_prefix_err(accounts@, keys@, i as int + 1); }
                return Err(e);
            },
            Ok(d) => {
                let ghost old_out = out@;
                let ghost dv = d@;
                out.push(d);
                assert(vecs_view(out@) =~= vecs_view(old_out).push(dv));
            },
        }
        i = i + 1;
    }
    assert(keys@.subrange(0, keys@.len() as int) =~= keys@);
    Ok(out)
}

/// Whether a mint's fee rates are at most ten thousand basis points.
pub fn mint_fee_valid(m: &Option<TransferFeeConfig>) -> (r: bool)
    ensures
        r == mint_fee_wf(*m),
{
    match m {
        Some(c) => c.older_transfer_fee.transfer_fee_basis_points <= ONE_IN_BASIS_POINTS
            && c.newer_transfer_fee.transfer_fee_basis_points <= ONE_IN_BASIS_POINTS,
        None => true,
    }
}

} // verus!
