use vstd::prelude::*;

verus! {

/// Relies on uuid::Uuid::new_v4 and Uuid::as_u128: a random version 4 UUID as an integer.
/// Nothing is promised of the value.
#[verifier::external_body]
fn fresh_uuid() -> (r: u128) {
    uuid::Uuid::new_v4().as_u128()
}

/// Identifies an account; a UUID held as its 128-bit value.
#[derive(PartialEq, Eq, Structural, Clone, Copy, Debug, Hash)]
pub struct AccountId(pub u128);

impl AccountId {
    /// A fresh random (version 4) identifier.
    pub fn new() -> (r: Self) {
        AccountId(fresh_uuid())
    }

    pub fn from_u128(v: u128) -> (r: Self)
        ensures
            r.0 == v,
    {
        AccountId(v)
    }
}

/// Identifies a profile; a UUID held as its 128-bit value.
#[derive(PartialEq, Eq, Structural, Clone, Copy, Debug, Hash)]
pub struct ProfileId(pub u128);

impl ProfileId {
    /// A fresh random (version 4) identifier.
    pub fn new() -> (r: Self) {
        ProfileId(fresh_uuid())
    }

    pub fn from_u128(v: u128) -> (r: Self)
        ensures
            r.0 == v,
    {
        ProfileId(v)
    }
}

/// Identifies a wallet; a UUID held as its 128-bit value.
#[derive(PartialEq, Eq, Structural, Clone, Copy, Debug, Hash)]
pub struct WalletId(pub u128);

impl WalletId {
    /// A fresh random (version 4) identifier.
    pub fn new() -> (r: Self) {
        WalletId(fresh_uuid())
    }

    pub fn from_u128(v: u128) -> (r: Self)
        ensures
            r.0 == v,
    {
        WalletId(v)
    }
}

/// Identifies a keychain; a UUID held as its 128-bit value.
#[derive(PartialEq, Eq, Structural, Clone, Copy, Debug, Hash)]
pub struct KeychainId(pub u128);

impl KeychainId {
    /// A fresh random (version 4) identifier.
    pub fn new() -> (r: Self) {
        KeychainId(fresh_uuid())
    }

    pub fn from_u128(v: u128) -> (r: Self)
        ensures
            r.0 == v,
    {
        KeychainId(v)
    }
}

/// Identifies an imported xpub by its fingerprint.
#[derive(PartialEq, Eq, Structural, Clone, Copy, Debug, Hash)]
pub struct XPubId(pub u128);

impl XPubId {
    pub fn from_u128(v: u128) -> (r: Self)
        ensures
            r.0 == v,
    {
        XPubId(v)
    }
}

/// Identifies an address; a UUID held as its 128-bit value.
#[derive(PartialEq, Eq, Structural, Clone, Copy, Debug, Hash)]
pub struct AddressId(pub u128);

impl AddressId {
    /// A fresh random (version 4) identifier.
    pub fn new() -> (r: Self) {
        AddressId(fresh_uuid())
    }

    pub fn from_u128(v: u128) -> (r: Self)
        ensures
            r.0 == v,
    {
        AddressId(v)
    }
}

/// Identifies a payout; a UUID held as its 128-bit value.
#[derive(PartialEq, Eq, Structural, Clone, Copy, Debug, Hash)]
pub struct PayoutId(pub u128);

impl PayoutId {
    /// A fresh random (version 4) identifier.
    pub fn new() -> (r: Self) {
        PayoutId(fresh_uuid())
    }

    pub fn from_u128(v: u128) -> (r: Self)
        ensures
            r.0 == v,
    {
        PayoutId(v)
    }
}

/// Identifies a payout queue; a UUID held as its 128-bit value.
#[derive(PartialEq, Eq, Structural, Clone, Copy, Debug, Hash)]
pub struct PayoutQueueId(pub u128);

impl PayoutQueueId {
    /// A fresh random (version 4) identifier.
    pub fn new() -> (r: Self) {
        PayoutQueueId(fresh_uuid())
    }

    pub fn from_u128(v: u128) -> (r: Self)
        ensures
            r.0 == v,
    {
        PayoutQueueId(v)
    }
}

/// Identifies a batch; a UUID held as its 128-bit value.
#[derive(PartialEq, Eq, Structural, Clone, Copy, Debug, Hash)]
pub struct BatchId(pub u128);

impl BatchId {
    /// A fresh random (version 4) identifier.
    pub fn new() -> (r: Self) {
        BatchId(fresh_uuid())
    }

    pub fn from_u128(v: u128) -> (r: Self)
        ensures
            r.0 == v,
    {
        BatchId(v)
    }
}

/// Identifies a batch group; a UUID held as its 128-bit value.
#[derive(PartialEq, Eq, Structural, Clone, Copy, Debug, Hash)]
pub struct BatchGroupId(pub u128);

impl BatchGroupId {
    /// A fresh random (version 4) identifier.
    pub fn new() -> (r: Self) {
        BatchGroupId(fresh_uuid())
    }

    pub fn from_u128(v: u128) -> (r: Self)
        ensures
            r.0 == v,
    {
        BatchGroupId(v)
    }
}

/// Identifies a ledger transaction; a UUID held as its 128-bit value.
#[derive(PartialEq, Eq, Structural, Clone, Copy, Debug, Hash)]
pub struct LedgerTransactionId(pub u128);

impl LedgerTransactionId {
    /// A fresh random (version 4) identifier.
    pub fn new() -> (r: Self) {
        LedgerTransactionId(fresh_uuid())
    }

    pub fn from_u128(v: u128) -> (r: Self)
        ensures
            r.0 == v,
    {
        LedgerTransactionId(v)
    }
}

/// Identifies a ledger account; a UUID held as its 128-bit value.
#[derive(PartialEq, Eq, Structural, Clone, Copy, Debug, Hash)]
pub struct LedgerAccountId(pub u128);

impl LedgerAccountId {
    /// A fresh random (version 4) identifier.
    pub fn new() -> (r: Self) {
        LedgerAccountId(fresh_uuid())
    }

    pub fn from_u128(v: u128) -> (r: Self)
        ensures
            r.0 == v,
    {
        LedgerAccountId(v)
    }
}

/// Identifies a ledger journal; a UUID held as its 128-bit value.
#[derive(PartialEq, Eq, Structural, Clone, Copy, Debug, Hash)]
pub struct JournalId(pub u128);

impl JournalId {
    /// A fresh random (version 4) identifier.
    pub fn new() -> (r: Self) {
        JournalId(fresh_uuid())
    }

    pub fn from_u128(v: u128) -> (r: Self)
        ensures
            r.0 == v,
    {
        JournalId(v)
    }
}

/// The hyphenated lower-case text of a UUID.
pub uninterp spec fn hyphenated_uuid(v: u128) -> Seq<char>;

/// Relies on uuid::Uuid::from_u128 and the `Display` of `Uuid`: the hyphenated form, 36
/// characters.
#[verifier::external_body]
fn uuid_text(v: u128) -> (r: String)
    ensures
        r@ == hyphenated_uuid(v),
        r@.len() == 36,
{
    uuid::Uuid::from_u128(v).to_string()
}

impl AddressId {
    /// The id as text.
    pub fn to_text(&self) -> (r: String)
        ensures
            r@ == hyphenated_uuid(self.0),
            r@.len() == 36,
    {
        uuid_text(self.0)
    }
}

/// A non-negative amount of bitcoin, in satoshis.
#[derive(PartialEq, Eq, Structural, Clone, Copy, Debug, Hash)]
pub struct Satoshis(pub u64);

pub const SATS_PER_BTC: u64 = 100_000_000;

impl Satoshis {
    pub fn zero() -> (r: Satoshis)
        ensures
            r.0 == 0,
    {
        Satoshis(0)
    }

    pub fn from_sats(v: u64) -> (r: Satoshis)
        ensures
            r.0 == v,
    {
        Satoshis(v)
    }

    pub fn into_inner(self) -> (r: u64)
        ensures
            r == self.0,
    {
        self.0
    }

    /// The sum, or `None` where it does not fit in 64 bits.
    pub fn checked_add(self, other: Satoshis) -> (r: Option<Satoshis>)
        ensures
            self.0 + other.0 <= u64::MAX ==> r == Some(Satoshis((self.0 + other.0) as u64)),
            self.0 + other.0 > u64::MAX ==> r.is_none(),
    {
        match self.0.checked_add(other.0) {
            Some(v) => Some(Satoshis(v)),
            None => None,
        }
    }

    /// The difference, or `None` where it would be negative.
    pub fn checked_sub(self, other: Satoshis) -> (r: Option<Satoshis>)
        ensures
            other.0 <= self.0 ==> r == Some(Satoshis((self.0 - other.0) as u64)),
            other.0 > self.0 ==> r.is_none(),
    {
        if other.0 <= self.0 {
            Some(Satoshis(self.0 - other.0))
        } else {
            None
        }
    }
}

/// The two branches of a descriptor wallet: receiving addresses and change.
#[derive(PartialEq, Eq, Structural, Clone, Copy, Debug, Hash)]
pub enum KeychainKind {
    External,
    Internal,
}

/// How soon a payout queue wants its batches confirmed.
#[derive(PartialEq, Eq, Structural, Clone, Copy, Debug, Hash)]
pub enum TxPriority {
    NextBlock,
    OneHour,
    Economy,
}

/// A fee rate in whole satoshis per virtual byte.
#[derive(PartialEq, Eq, Structural, Clone, Copy, Debug, Hash)]
pub struct FeeRate {
    pub sats_per_vbyte: u64,
}

/// A transaction hash, as its two 128-bit halves.
#[derive(PartialEq, Eq, Structural, Clone, Copy, Debug, Hash)]
pub struct Txid {
    pub hi: u128,
    pub lo: u128,
}

/// A transaction output: the transaction and the output's index in it.
#[derive(PartialEq, Eq, Structural, Clone, Copy, Debug, Hash)]
pub struct OutPoint {
    pub txid: Txid,
    pub vout: u32,
}

/// The block that confirmed a transaction.
#[derive(PartialEq, Eq, Structural, Clone, Copy, Debug, Hash)]
pub struct BlockTime {
    pub height: u32,
    pub timestamp: u64,
}

/// A calendar day, counted in the proleptic Gregorian calendar with 1 January of year 1 as day 1.
#[derive(PartialEq, Eq, Structural, Clone, Copy, Debug, Hash)]
pub struct LedgerDate {
    pub days_from_ce: i32,
}

/// The day 1 January 1970 in the count of `LedgerDate`.
pub const UNIX_EPOCH_DAY: i64 = 719_163;

/// The latest timestamp taken as a block time; it keeps the day count inside `i32`.
pub const MAX_BLOCK_TIMESTAMP: u64 = 100_000_000_000;

/// Relies on chrono::DateTime::from_timestamp and Datelike::num_days_from_ce: the UTC day of a
/// unix timestamp is `secs / 86400` days after 1 January 1970. `from_timestamp` is `Some` for
/// every timestamp in the admitted range.
#[verifier::external_body]
fn utc_day_of_timestamp(secs: i64) -> (r: i32)
    requires
        0 <= secs <= MAX_BLOCK_TIMESTAMP,
    ensures
        r == secs / 86400 + UNIX_EPOCH_DAY,
{
    chrono::DateTime::from_timestamp(secs, 0)
        .map(|t| chrono::Datelike::num_days_from_ce(&t.date_naive()))
        .unwrap_or(0)
}

impl BlockTime {
    /// The UTC day on which the block was mined.
    pub fn effective_date(&self) -> (r: LedgerDate)
        requires
            self.timestamp <= MAX_BLOCK_TIMESTAMP,
        ensures
            r.days_from_ce == self.timestamp / 86400 + UNIX_EPOCH_DAY,
    {
        LedgerDate { days_from_ce: utc_day_of_timestamp(self.timestamp as i64) }
    }
}

} // verus!

verus! {

/// Where a payout goes.
pub enum PayoutDestination {
    OnchainAddress { value: String },
}

} // verus!
