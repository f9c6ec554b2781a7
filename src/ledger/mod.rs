use vstd::prelude::*;

pub mod constants;
pub mod templates;

use crate::primitives::{JournalId, LedgerAccountId, LedgerDate, LedgerTransactionId};

verus! {

/// The most terms a units expression may have.
pub const MAX_TERMS: usize = 8;

/// The most entries a template may have.
pub const MAX_ENTRIES: usize = 64;

/// The balance dimensions; the posting invariant holds on each separately.
#[derive(PartialEq, Eq, Structural, Clone, Copy, Debug)]
pub enum Layer {
    Settled,
    Pending,
    Encumbered,
}

#[derive(PartialEq, Eq, Structural, Clone, Copy, Debug)]
pub enum Direction {
    Debit,
    Credit,
}

#[derive(PartialEq, Eq, Structural, Clone, Copy, Debug)]
pub enum Currency {
    Btc,
}

/// The type of a template parameter.
#[derive(PartialEq, Eq, Structural, Clone, Copy, Debug)]
pub enum ParamDataType {
    Uuid,
    Decimal,
    String,
    Json,
    Date,
}

/// A named parameter a template declares.
pub struct ParamDefinition {
    pub name: String,
    pub data_type: ParamDataType,
}

/// The account an entry posts to: one bound at post time, by position among the account
/// parameters, or a fixed (omnibus) account.
#[derive(PartialEq, Eq, Structural, Clone, Copy, Debug)]
pub enum AccountRef {
    Param(usize),
    Fixed(LedgerAccountId),
}

/// One summand of a units expression: an amount parameter, by position, added or subtracted.
#[derive(PartialEq, Eq, Structural, Clone, Copy, Debug)]
pub struct Term {
    pub param: usize,
    pub negate: bool,
}

/// How a template builds one entry.
pub struct EntrySpec {
    pub entry_type: String,
    pub currency: Currency,
    pub account: AccountRef,
    pub direction: Direction,
    pub layer: Layer,
    pub units: Vec<Term>,
}

/// A transaction template: its parameters and the entries it posts.
pub struct TxTemplate {
    pub id: u128,
    pub code: String,
    pub description: String,
    pub params: Vec<ParamDefinition>,
    pub entries: Vec<EntrySpec>,
}

/// The values a template is posted with. Account parameters and amount parameters (in
/// satoshis) are given by position.
pub struct TxParams {
    pub journal_id: JournalId,
    pub accounts: Vec<LedgerAccountId>,
    pub amounts: Vec<u64>,
    pub correlation_id: Option<LedgerTransactionId>,
    pub external_id: Option<String>,
    pub effective: LedgerDate,
    /// The transaction's metadata, as JSON text.
    pub meta: String,
}

/// One posted entry.
pub struct LedgerEntry {
    pub entry_type: String,
    pub currency: Currency,
    pub account_id: LedgerAccountId,
    pub direction: Direction,
    pub layer: Layer,
    pub units: i128,
}

/// A posted transaction.
pub struct LedgerTransaction {
    pub id: LedgerTransactionId,
    pub template_id: u128,
    pub journal_id: JournalId,
    pub correlation_id: Option<LedgerTransactionId>,
    pub external_id: Option<String>,
    pub effective: LedgerDate,
    /// The metadata the transaction was posted with, as JSON text.
    pub metadata: String,
    pub entries: Vec<LedgerEntry>,
}

#[derive(PartialEq, Eq, Structural, Clone, Copy, Debug)]
pub enum LedgerError {
    /// A template whose entries cannot be shown to balance.
    UnbalancedTemplate,
    /// A template with more entries or terms than the engine takes.
    TemplateTooLarge,
    /// A template id that is already registered.
    DuplicateKey,
    /// No template has the id.
    TemplateNotFound,
    /// A parameter the template refers to was not given.
    MissingParam,
    /// The posted entries do not balance.
    Unbalanced,
}

/// What an entry posts, leaving out its name: currency, account, direction, layer and units.
pub open spec fn shape_of(e: EntrySpec) -> (Currency, AccountRef, Direction, Layer, Seq<Term>) {
    (e.currency, e.account, e.direction, e.layer, e.units@)
}

pub open spec fn shapes(entries: Seq<EntrySpec>) -> Seq<(Currency, AccountRef, Direction, Layer, Seq<Term>)> {
    entries.map_values(|e: EntrySpec| shape_of(e))
}

/// The value of a units expression.
pub open spec fn units_value(terms: Seq<Term>, amounts: Seq<u64>) -> int
    decreases terms.len(),
{
    if terms.len() == 0 {
        0
    } else {
        let t = terms.last();
        let a = amounts[t.param as int] as int;
        units_value(terms.drop_last(), amounts) + if t.negate { -a } else { a }
    }
}

pub open spec fn account_of(a: AccountRef, accounts: Seq<LedgerAccountId>) -> LedgerAccountId {
    match a {
        AccountRef::Param(i) => accounts[i as int],
        AccountRef::Fixed(id) => id,
    }
}

/// The parameters an entry refers to are among `n_accounts` account parameters and
/// `n_amounts` amount parameters.
pub open spec fn entry_within(e: EntrySpec, n_accounts: int, n_amounts: int) -> bool {
    &&& (e.account matches AccountRef::Param(i) ==> i < n_accounts)
    &&& forall|k: int| 0 <= k < e.units@.len() ==> (#[trigger] e.units@[k]).param < n_amounts
}

pub open spec fn template_within(t: TxTemplate, n_accounts: int, n_amounts: int) -> bool {
    forall|i: int| 0 <= i < t.entries@.len() ==> entry_within(#[trigger] t.entries@[i], n_accounts, n_amounts)
}

/// The parameters an entry refers to are all given.
pub open spec fn entry_covered(e: EntrySpec, params: TxParams) -> bool {
    entry_within(e, params.accounts@.len() as int, params.amounts@.len() as int)
}

pub open spec fn covered(t: TxTemplate, params: TxParams) -> bool {
    template_within(t, params.accounts@.len() as int, params.amounts@.len() as int)
}

/// The entry `e` posts with `params`.
pub open spec fn entry_of(e: EntrySpec, params: TxParams) -> LedgerEntry {
    entry_with(e, params.accounts@, params.amounts@)
}

/// The entry `e` posts with the given account and amount parameters.
pub open spec fn entry_with(e: EntrySpec, accounts: Seq<LedgerAccountId>, amounts: Seq<u64>) -> LedgerEntry {
    LedgerEntry {
        entry_type: e.entry_type,
        currency: e.currency,
        account_id: account_of(e.account, accounts),
        direction: e.direction,
        layer: e.layer,
        units: units_value(e.units@, amounts) as i128,
    }
}

/// The sum of the units of the entries with the given currency, layer and direction.
pub open spec fn group_sum(entries: Seq<LedgerEntry>, currency: Currency, layer: Layer, direction: Direction) -> int
    decreases entries.len(),
{
    if entries.len() == 0 {
        0
    } else {
        let e = entries.last();
        group_sum(entries.drop_last(), currency, layer, direction) + if e.currency == currency
            && e.layer == layer && e.direction == direction {
            e.units as int
        } else {
            0
        }
    }
}

/// For every currency and layer, debits and credits are equal.
pub open spec fn balanced(entries: Seq<LedgerEntry>) -> bool {
    forall|c: Currency, l: Layer|
        #[trigger] group_sum(entries, c, l, Direction::Debit) == group_sum(entries, c, l, Direction::Credit)
}

pub open spec fn opposite(a: Direction, b: Direction) -> bool {
    a != b
}

/// The entries come in pairs, each a debit and a credit of the same units expression in the
/// same currency and layer: the symbolic proof that every posting balances.
pub open spec fn paired(entries: Seq<EntrySpec>) -> bool {
    &&& entries.len() % 2 == 0
    &&& forall|k: int|
        0 <= k < entries.len() / 2 ==> {
            let a = #[trigger] entries[2 * k];
            let b = entries[2 * k + 1];
            &&& a.currency == b.currency
            &&& a.layer == b.layer
            &&& a.units@ == b.units@
            &&& opposite(a.direction, b.direction)
        }
}

/// Within the engine's limits on entries and terms.
pub open spec fn within_limits(entries: Seq<EntrySpec>) -> bool {
    &&& entries.len() <= MAX_ENTRIES
    &&& forall|i: int| 0 <= i < entries.len() ==> (#[trigger] entries[i]).units@.len() <= MAX_TERMS
}

pub open spec fn units_bound() -> int {
    MAX_TERMS as int * u64::MAX as int
}

/// Every entry's units lie within what `MAX_TERMS` terms can reach.
pub open spec fn entries_bounded(entries: Seq<LedgerEntry>) -> bool {
    forall|i: int| 0 <= i < entries.len() ==> -units_bound() <= #[trigger] entries[i].units <= units_bound()
}

pub proof fn lemma_units_bound(terms: Seq<Term>, amounts: Seq<u64>)
    ensures
        -(terms.len() * u64::MAX) <= units_value(terms, amounts) <= terms.len() * u64::MAX,
    decreases terms.len(),
{
    if terms.len() > 0 {
        lemma_units_bound(terms.drop_last(), amounts);
        let n = terms.len() as int;
        assert((n - 1) * u64::MAX + u64::MAX == n * u64::MAX) by (nonlinear_arith);
    }
}

pub proof fn lemma_group_sum_bound(entries: Seq<LedgerEntry>, c: Currency, l: Layer, d: Direction)
    requires
        entries_bounded(entries),
    ensures
        -(entries.len() * units_bound()) <= group_sum(entries, c, l, d) <= entries.len() * units_bound(),
    decreases entries.len(),
{
    if entries.len() > 0 {
        let prefix = entries.drop_last();
        assert forall|i: int| 0 <= i < prefix.len() implies -units_bound() <= #[trigger] prefix[i].units <= units_bound() by {
            assert(prefix[i] == entries[i]);
        }
        lemma_group_sum_bound(prefix, c, l, d);
        let n = entries.len() as int;
        assert((n - 1) * units_bound() + units_bound() == n * units_bound()) by (nonlinear_arith);
        assert(-units_bound() <= entries[n - 1].units <= units_bound());
    }
}

/// The value of a units expression, in satoshis.
pub fn eval_units(terms: &Vec<Term>, amounts: &Vec<u64>) -> (r: i128)
    requires
        terms@.len() <= MAX_TERMS,
        forall|k: int| 0 <= k < terms@.len() ==> (#[trigger] terms@[k]).param < amounts@.len(),
    ensures
        r == units_value(terms@, amounts@),
        -units_bound() <= r <= units_bound(),
{
    let mut acc: i128 = 0;
    let mut i: usize = 0;
    while i < terms.len()
        invariant
            i <= terms@.len() <= MAX_TERMS,
            forall|k: int| 0 <= k < terms@.len() ==> (#[trigger] terms@[k]).param < amounts@.len(),
            acc == units_value(terms@.take(i as int), amounts@),
        decreases terms.len() - i,
    {
        proof {
            assert(terms@.take(i as int + 1).drop_last() =~= terms@.take(i as int));
            lemma_units_bound(terms@.take(i as int), amounts@);
            assert(i * u64::MAX <= 7 * u64::MAX) by (nonlinear_arith)
                requires i <= 7;
        }
        let t = terms[i];
        let a = amounts[t.param] as i128;
        if t.negate {
            acc = acc - a;
        } else {
            acc = acc + a;
        }
        i += 1;
    }
    proof {
        assert(terms@.take(i as int) =~= terms@);
        lemma_units_bound(terms@, amounts@);
        assert(terms@.len() * u64::MAX <= units_bound()) by (nonlinear_arith)
            requires terms@.len() <= 8;
    }
    acc
}

/// The debit and credit totals of one currency and layer.
pub fn group_totals(entries: &Vec<LedgerEntry>, c: Currency, l: Layer) -> (r: (i128, i128))
    requires
        entries@.len() <= MAX_ENTRIES,
        entries_bounded(entries@),
    ensures
        r.0 == group_sum(entries@, c, l, Direction::Debit),
        r.1 == group_sum(entries@, c, l, Direction::Credit),
{
    let mut debit: i128 = 0;
    let mut credit: i128 = 0;
    let mut i: usize = 0;
    while i < entries.len()
        invariant
            i <= entries@.len() <= MAX_ENTRIES,
            entries_bounded(entries@),
            debit == group_sum(entries@.take(i as int), c, l, Direction::Debit),
            credit == group_sum(entries@.take(i as int), c, l, Direction::Credit),
        decreases entries.len() - i,
    {
        let ghost prefix = entries@.take(i as int);
        proof {
            assert(entries@.take(i as int + 1).drop_last() =~= prefix);
            assert forall|k: int| 0 <= k < prefix.len() implies -units_bound() <= #[trigger] prefix[k].units <= units_bound() by {
                assert(prefix[k] == entries@[k]);
            }
            lemma_group_sum_bound(prefix, c, l, Direction::Debit);
            lemma_group_sum_bound(prefix, c, l, Direction::Credit);
            assert(i * units_bound() <= 63 * units_bound()) by (nonlinear_arith)
                requires i <= 63, units_bound() >= 0;
            assert(-units_bound() <= entries@[i as int].units <= units_bound());
        }
        let e = &entries[i];
        if e.currency == c && e.layer == l {
            match e.direction {
                Direction::Debit => {
                    debit = debit + e.units;
                },
                Direction::Credit => {
                    credit = credit + e.units;
                },
            }
        }
        i += 1;
    }
    proof {
        assert(entries@.take(i as int) =~= entries@);
    }
    (debit, credit)
}

/// Whether every currency and layer balances.
pub fn is_balanced(entries: &Vec<LedgerEntry>) -> (r: bool)
    requires
        entries@.len() <= MAX_ENTRIES,
        entries_bounded(entries@),
    ensures
        r == balanced(entries@),
{
    let (d, c) = group_totals(entries, Currency::Btc, Layer::Settled);
    if d != c {
        return false;
    }
    let (d, c) = group_totals(entries, Currency::Btc, Layer::Pending);
    if d != c {
        return false;
    }
    let (d, c) = group_totals(entries, Currency::Btc, Layer::Encumbered);
    if d != c {
        return false;
    }
    proof {
        assert forall|c: Currency, l: Layer|
            #[trigger] group_sum(entries@, c, l, Direction::Debit) == group_sum(entries@, c, l, Direction::Credit) by {
            assert(c == Currency::Btc);
            match l {
                Layer::Settled => {},
                Layer::Pending => {},
                Layer::Encumbered => {},
            }
        }
    }
    true
}

fn same_terms(a: &Vec<Term>, b: &Vec<Term>) -> (r: bool)
    ensures
        r == (a@ == b@),
{
    if a.len() != b.len() {
        return false;
    }
    let mut i: usize = 0;
    while i < a.len()
        invariant
            i <= a@.len() == b@.len(),
            forall|k: int| 0 <= k < i ==> a@[k] == b@[k],
        decreases a.len() - i,
    {
        if a[i] != b[i] {
            return false;
        }
        i += 1;
    }
    proof {
        assert(a@ =~= b@);
    }
    true
}

/// Whether the entries come in balancing pairs (see `paired`).
pub fn check_paired(entries: &Vec<EntrySpec>) -> (r: bool)
    ensures
        r == paired(entries@),
{
    if entries.len() % 2 != 0 {
        return false;
    }
    let n = entries.len() / 2;
    assert(2 * n == entries@.len());
    let mut k: usize = 0;
    while k < n
        invariant
            k <= n,
            n == entries@.len() / 2,
            entries@.len() % 2 == 0,
            2 * n == entries@.len(),
            forall|j: int|
                0 <= j < k ==> {
                    let a = #[trigger] entries@[2 * j];
                    let b = entries@[2 * j + 1];
                    &&& a.currency == b.currency
                    &&& a.layer == b.layer
                    &&& a.units@ == b.units@
                    &&& opposite(a.direction, b.direction)
                },
        decreases n - k,
    {
        let len = entries.len();
        assert(2 * k + 1 < len);
        let i: usize = k + k;
        let a = &entries[i];
        let b = &entries[i + 1];
        if a.currency != b.currency || a.layer != b.layer || a.direction == b.direction || !same_terms(
            &a.units,
            &b.units,
        ) {
            return false;
        }
        k += 1;
    }
    true
}

/// Whether the template is within the engine's limits.
pub fn check_limits(entries: &Vec<EntrySpec>) -> (r: bool)
    ensures
        r == within_limits(entries@),
{
    if entries.len() > MAX_ENTRIES {
        return false;
    }
    let mut i: usize = 0;
    while i < entries.len()
        invariant
            i <= entries@.len(),
            forall|k: int| 0 <= k < i ==> (#[trigger] entries@[k]).units@.len() <= MAX_TERMS,
        decreases entries.len() - i,
    {
        if entries[i].units.len() > MAX_TERMS {
            return false;
        }
        i += 1;
    }
    true
}

/// The entries a template posts with `params`, in template order.
pub open spec fn posted_entries(t: TxTemplate, params: TxParams) -> Seq<LedgerEntry> {
    t.entries@.map_values(|e: EntrySpec| entry_of(e, params))
}

/// The entries a template posts with the given account and amount parameters.
pub open spec fn posted_with(t: TxTemplate, accounts: Seq<LedgerAccountId>, amounts: Seq<u64>) -> Seq<LedgerEntry> {
    t.entries@.map_values(|e: EntrySpec| entry_with(e, accounts, amounts))
}

pub proof fn lemma_posted_with(t: TxTemplate, params: TxParams)
    ensures
        posted_entries(t, params) == posted_with(t, params.accounts@, params.amounts@),
{
    assert(posted_entries(t, params) =~= posted_with(t, params.accounts@, params.amounts@));
}

proof fn lemma_paired_prefix(entries: Seq<EntrySpec>)
    requires
        paired(entries),
        entries.len() >= 2,
    ensures
        paired(entries.take(entries.len() - 2)),
{
    let p = entries.take(entries.len() - 2);
    assert forall|k: int| 0 <= k < p.len() / 2 implies {
        let a = #[trigger] p[2 * k];
        let b = p[2 * k + 1];
        &&& a.currency == b.currency
        &&& a.layer == b.layer
        &&& a.units@ == b.units@
        &&& opposite(a.direction, b.direction)
    } by {
        assert(p[2 * k] == entries[2 * k]);
        assert(p[2 * k + 1] == entries[2 * k + 1]);
    }
}

/// A template whose entries come in balancing pairs posts a balanced transaction for every
/// binding of its parameters: in each currency and layer, debits equal credits.
pub proof fn lemma_paired_template_balances(t: TxTemplate, params: TxParams)
    requires
        paired(t.entries@),
    ensures
        balanced(posted_entries(t, params)),
{
    lemma_paired_entries_balance(t.entries@, params);
}

proof fn lemma_paired_entries_balance(entries: Seq<EntrySpec>, params: TxParams)
    requires
        paired(entries),
    ensures
        balanced(entries.map_values(|e: EntrySpec| entry_of(e, params))),
    decreases entries.len(),
{
    let posted = entries.map_values(|e: EntrySpec| entry_of(e, params));
    if entries.len() == 0 {
        assert forall|c: Currency, l: Layer|
            #[trigger] group_sum(posted, c, l, Direction::Debit) == group_sum(posted, c, l, Direction::Credit) by {}
    } else {
        let n = entries.len();
        let prefix = entries.take(n - 2);
        lemma_paired_prefix(entries);
        lemma_paired_entries_balance(prefix, params);
        let pp = prefix.map_values(|e: EntrySpec| entry_of(e, params));
        assert(posted.drop_last().drop_last() =~= pp);
        let k = (n - 2) / 2;
        assert(2 * k == n - 2);
        let a = entries[2 * k];
        let b = entries[2 * k + 1];
        assert(a.units@ == b.units@);
        assert forall|c: Currency, l: Layer|
            #[trigger] group_sum(posted, c, l, Direction::Debit) == group_sum(posted, c, l, Direction::Credit) by {
            assert(group_sum(pp, c, l, Direction::Debit) == group_sum(pp, c, l, Direction::Credit));
            let ea = entry_of(a, params);
            let eb = entry_of(b, params);
            assert(posted.drop_last().last() == ea);
            assert(posted.last() == eb);
            assert(ea.units == eb.units);
            let ca = if ea.currency == c && ea.layer == l { ea.units as int } else { 0 };
            assert(group_sum(posted.drop_last(), c, l, ea.direction) == group_sum(pp, c, l, ea.direction) + ca);
            assert(group_sum(posted.drop_last(), c, l, eb.direction) == group_sum(pp, c, l, eb.direction));
            assert(group_sum(posted, c, l, eb.direction) == group_sum(posted.drop_last(), c, l, eb.direction) + ca);
            assert(group_sum(posted, c, l, ea.direction) == group_sum(posted.drop_last(), c, l, ea.direction));
        }
    }
}

fn check_covered(t: &TxTemplate, params: &TxParams) -> (r: bool)
    ensures
        r == covered(*t, *params),
{
    let mut i: usize = 0;
    while i < t.entries.len()
        invariant
            i <= t.entries@.len(),
            forall|k: int| 0 <= k < i ==> entry_covered(#[trigger] t.entries@[k], *params),
        decreases t.entries.len() - i,
    {
        let e = &t.entries[i];
        match e.account {
            AccountRef::Param(a) => {
                if a >= params.accounts.len() {
                    assert(!entry_covered(t.entries@[i as int], *params));
                    return false;
                }
            },
            AccountRef::Fixed(_) => {},
        }
        let mut j: usize = 0;
        while j < t.entries[i].units.len()
            invariant
                i < t.entries@.len(),
                j <= t.entries@[i as int].units@.len(),
                forall|k: int| 0 <= k < j ==> (#[trigger] t.entries@[i as int].units@[k]).param < params.amounts@.len(),
            decreases t.entries@[i as int].units@.len() - j,
        {
            if t.entries[i].units[j].param >= params.amounts.len() {
                assert(!entry_covered(t.entries@[i as int], *params));
                return false;
            }
            j += 1;
        }
        i += 1;
    }
    true
}

fn eval_entry(e: &EntrySpec, params: &TxParams) -> (r: LedgerEntry)
    requires
        entry_covered(*e, *params),
        e.units@.len() <= MAX_TERMS,
    ensures
        r == entry_of(*e, *params),
        -units_bound() <= r.units <= units_bound(),
{
    let account_id = match e.account {
        AccountRef::Param(i) => params.accounts[i],
        AccountRef::Fixed(id) => id,
    };
    LedgerEntry {
        entry_type: e.entry_type.clone(),
        currency: e.currency,
        account_id,
        direction: e.direction,
        layer: e.layer,
        units: eval_units(&e.units, &params.amounts),
    }
}

/// Posts `template` with `params` as transaction `id`. Fails where a parameter the template
/// refers to is missing, and where the entries do not balance.
pub fn post(template: &TxTemplate, params: &TxParams, id: LedgerTransactionId) -> (r: Result<
    LedgerTransaction,
    LedgerError,
>)
    requires
        within_limits(template.entries@),
    ensures
        !covered(*template, *params) ==> r == Err::<LedgerTransaction, LedgerError>(LedgerError::MissingParam),
        covered(*template, *params) && !balanced(posted_entries(*template, *params)) ==> r == Err::<
            LedgerTransaction,
            LedgerError,
        >(LedgerError::Unbalanced),
        covered(*template, *params) && balanced(posted_entries(*template, *params)) ==> r.is_ok(),
        r matches Ok(tx) ==> {
            &&& tx.entries@ == posted_entries(*template, *params)
            &&& balanced(tx.entries@)
            &&& tx.id == id
            &&& tx.template_id == template.id
            &&& tx.journal_id == params.journal_id
            &&& tx.correlation_id == params.correlation_id
            &&& tx.external_id == params.external_id
            &&& tx.metadata == params.meta
            &&& tx.effective == params.effective
        },
{
    if !check_covered(template, params) {
        return Err(LedgerError::MissingParam);
    }
    let mut entries: Vec<LedgerEntry> = Vec::new();
    let mut i: usize = 0;
    while i < template.entries.len()
        invariant
            i <= template.entries@.len(),
            within_limits(template.entries@),
            covered(*template, *params),
            entries@ == posted_entries(*template, *params).take(i as int),
            entries_bounded(entries@),
        decreases template.entries.len() - i,
    {
        let e = eval_entry(&template.entries[i], params);
        entries.push(e);
        proof {
            assert(entries@ =~= posted_entries(*template, *params).take(i as int + 1));
        }
        i += 1;
    }
    proof {
        assert(entries@ =~= posted_entries(*template, *params));
    }
    if !is_balanced(&entries) {
        return Err(LedgerError::Unbalanced);
    }
    Ok(
        LedgerTransaction {
            id,
            template_id: template.id,
            journal_id: params.journal_id,
            correlation_id: params.correlation_id,
            external_id: params.external_id.clone(),
            metadata: params.meta.clone(),
            effective: params.effective,
            entries,
        },
    )
}

/// The ledger accounts of one wallet.
#[derive(PartialEq, Eq, Structural, Clone, Copy, Debug)]
pub struct WalletLedgerAccountIds {
    pub onchain_incoming_id: LedgerAccountId,
    pub onchain_at_rest_id: LedgerAccountId,
    pub onchain_outgoing_id: LedgerAccountId,
    pub effective_outgoing_id: LedgerAccountId,
    pub fee_id: LedgerAccountId,
}

/// A template the registry accepts: within limits, and balanced by construction.
pub open spec fn template_ok(t: TxTemplate) -> bool {
    within_limits(t.entries@) && paired(t.entries@)
}

pub open spec fn has_template(templates: Seq<TxTemplate>, id: u128) -> bool {
    exists|i: int| 0 <= i < templates.len() && (#[trigger] templates[i]).id == id
}

/// Every template is accepted, and no two share an id.
pub open spec fn registry_wf(ts: Seq<TxTemplate>) -> bool {
    &&& forall|i: int| 0 <= i < ts.len() ==> template_ok(#[trigger] ts[i])
    &&& forall|i: int, j: int|
        0 <= i < ts.len() && 0 <= j < ts.len() && i != j ==> (#[trigger] ts[i]).id != (#[trigger] ts[j]).id
}

/// The registered template with id `id`, where there is one.
pub open spec fn template_for(ts: Seq<TxTemplate>, id: u128) -> TxTemplate {
    ts[choose|i: int| 0 <= i < ts.len() && (#[trigger] ts[i]).id == id]
}

/// Posting template `id` with `n_accounts` account and `n_amounts` amount parameters succeeds.
pub open spec fn postable(ts: Seq<TxTemplate>, id: u128, n_accounts: int, n_amounts: int) -> bool {
    has_template(ts, id) && template_within(template_for(ts, id), n_accounts, n_amounts)
}

/// With unique ids, the template registered under `ts[i].id` is `ts[i]`.
pub proof fn lemma_template_for_unique(ts: Seq<TxTemplate>, i: int)
    requires
        registry_wf(ts),
        0 <= i < ts.len(),
    ensures
        template_for(ts, ts[i].id) == ts[i],
{
    let x = choose|x: int| 0 <= x < ts.len() && (#[trigger] ts[x]).id == ts[i].id;
    assert(ts[x].id == ts[i].id);
}

/// Registering another template leaves the one registered under `id` as it was.
pub proof fn lemma_template_for_kept(before: Seq<TxTemplate>, after: Seq<TxTemplate>, id: u128)
    requires
        registry_wf(after),
        has_template(before, id),
        after == before || (after.len() == before.len() + 1 && after.drop_last() == before),
    ensures
        template_for(after, id) == template_for(before, id),
        has_template(after, id),
{
    let i = choose|i: int| 0 <= i < before.len() && (#[trigger] before[i]).id == id;
    assert(after[i] == before[i]);
    assert(registry_wf(before)) by {
        assert forall|a: int| 0 <= a < before.len() implies template_ok(#[trigger] before[a]) by {
            assert(after[a] == before[a]);
        }
        assert forall|a: int, b: int|
            0 <= a < before.len() && 0 <= b < before.len() && a != b implies (#[trigger] before[a]).id != (#[trigger] before[b]).id by {
            assert(after[a] == before[a]);
            assert(after[b] == before[b]);
        }
    }
    lemma_template_for_unique(after, i);
    lemma_template_for_unique(before, i);
}

/// The registered templates, keyed by id.
pub struct TemplateRegistry {
    templates: Vec<TxTemplate>,
}

impl View for TemplateRegistry {
    type V = Seq<TxTemplate>;

    closed spec fn view(&self) -> Seq<TxTemplate> {
        self.templates@
    }
}

impl TemplateRegistry {
    pub open spec fn wf(&self) -> bool {
        registry_wf(self@)
    }

    pub fn new() -> (r: TemplateRegistry)
        ensures
            r@ == Seq::<TxTemplate>::empty(),
            r.wf(),
    {
        TemplateRegistry { templates: Vec::new() }
    }

    fn index_of(&self, id: u128) -> (r: Option<usize>)
        ensures
            match r {
                Some(i) => i < self@.len() && self@[i as int].id == id,
                None => !has_template(self@, id),
            },
    {
        let mut i: usize = 0;
        while i < self.templates.len()
            invariant
                i <= self.templates@.len(),
                forall|k: int| 0 <= k < i ==> (#[trigger] self.templates@[k]).id != id,
            decreases self.templates.len() - i,
        {
            if self.templates[i].id == id {
                return Some(i);
            }
            i += 1;
        }
        None
    }

    /// The template with the given id.
    pub fn find(&self, id: u128) -> (r: Option<&TxTemplate>)
        ensures
            r.is_some() == has_template(self@, id),
            r matches Some(t) ==> t.id == id && exists|i: int| 0 <= i < self@.len() && self@[i] == *t,
    {
        match self.index_of(id) {
            Some(i) => Some(&self.templates[i]),
            None => None,
        }
    }

    /// Registers a template. Refused where it exceeds the engine's limits, where its entries
    /// do not come in balancing pairs, and where its id is taken.
    pub fn create(&mut self, template: TxTemplate) -> (r: Result<(), LedgerError>)
        requires
            old(self).wf(),
        ensures
            final(self).wf(),
            !within_limits(template.entries@) ==> r == Err::<(), LedgerError>(LedgerError::TemplateTooLarge),
            within_limits(template.entries@) && !paired(template.entries@) ==> r == Err::<(), LedgerError>(
                LedgerError::UnbalancedTemplate,
            ),
            template_ok(template) && has_template(old(self)@, template.id) ==> r == Err::<(), LedgerError>(
                LedgerError::DuplicateKey,
            ),
            template_ok(template) && !has_template(old(self)@, template.id) ==> r == Ok::<(), LedgerError>(()),
            r.is_ok() ==> final(self)@ == old(self)@.push(template),
            r.is_err() ==> final(self)@ == old(self)@,
    {
        if !check_limits(&template.entries) {
            return Err(LedgerError::TemplateTooLarge);
        }
        if !check_paired(&template.entries) {
            return Err(LedgerError::UnbalancedTemplate);
        }
        if self.index_of(template.id).is_some() {
            return Err(LedgerError::DuplicateKey);
        }
        self.templates.push(template);
        Ok(())
    }

    /// Registers a template unless one with its id is already there: a taken id counts as
    /// success.
    pub fn create_if_absent(&mut self, template: TxTemplate) -> (r: Result<(), LedgerError>)
        requires
            old(self).wf(),
        ensures
            final(self).wf(),
            !within_limits(template.entries@) ==> r == Err::<(), LedgerError>(LedgerError::TemplateTooLarge),
            within_limits(template.entries@) && !paired(template.entries@) ==> r == Err::<(), LedgerError>(
                LedgerError::UnbalancedTemplate,
            ),
            template_ok(template) ==> r == Ok::<(), LedgerError>(()),
            template_ok(template) && !has_template(old(self)@, template.id) ==> final(self)@ == old(self)@.push(
                template,
            ),
            !(template_ok(template) && !has_template(old(self)@, template.id)) ==> final(self)@ == old(self)@,
    {
        match self.create(template) {
            Err(LedgerError::DuplicateKey) => Ok(()),
            Err(e) => Err(e),
            Ok(()) => Ok(()),
        }
    }
}

/// Every transaction a well-formed ledger holds balances: for each currency and layer, the
/// units debited equal the units credited.
pub proof fn lemma_posted_transactions_balance(ledger: Ledger, i: int, c: Currency, l: Layer)
    requires
        ledger.wf(),
        0 <= i < ledger.transactions().len(),
    ensures
        group_sum(ledger.transactions()[i].entries@, c, l, Direction::Debit) == group_sum(
            ledger.transactions()[i].entries@,
            c,
            l,
            Direction::Credit,
        ),
{
    assert(balanced(ledger.transactions()[i].entries@));
}

/// The template registry and every transaction posted so far.
pub struct Ledger {
    registry: TemplateRegistry,
    transactions: Vec<LedgerTransaction>,
}

impl Ledger {
    pub closed spec fn transactions(&self) -> Seq<LedgerTransaction> {
        self.transactions@
    }

    pub closed spec fn templates(&self) -> Seq<TxTemplate> {
        self.registry@
    }

    /// The registry is well formed, and every posted transaction balances in each currency
    /// and layer.
    pub open spec fn wf(&self) -> bool {
        &&& registry_wf(self.templates())
        &&& forall|i: int|
            0 <= i < self.transactions().len() ==> balanced((#[trigger] self.transactions()[i]).entries@)
    }

    pub fn new() -> (r: Ledger)
        ensures
            r.wf(),
            r.templates() == Seq::<TxTemplate>::empty(),
            r.transactions() == Seq::<LedgerTransaction>::empty(),
    {
        Ledger { registry: TemplateRegistry::new(), transactions: Vec::new() }
    }

    /// The number of posted transactions.
    pub fn len(&self) -> (r: usize)
        ensures
            r == self.transactions().len(),
    {
        self.transactions.len()
    }

    /// The posted transaction at `i`.
    pub fn transaction(&self, i: usize) -> (r: &LedgerTransaction)
        requires
            i < self.transactions().len(),
        ensures
            *r == self.transactions()[i as int],
    {
        &self.transactions[i]
    }

    /// Registers a template unless its id is taken (see `TemplateRegistry::create_if_absent`).
    pub fn create_template_if_absent(&mut self, template: TxTemplate) -> (r: Result<(), LedgerError>)
        requires
            old(self).wf(),
        ensures
            final(self).wf(),
            final(self).transactions() == old(self).transactions(),
            !within_limits(template.entries@) ==> r == Err::<(), LedgerError>(LedgerError::TemplateTooLarge),
            within_limits(template.entries@) && !paired(template.entries@) ==> r == Err::<(), LedgerError>(
                LedgerError::UnbalancedTemplate,
            ),
            template_ok(template) ==> r == Ok::<(), LedgerError>(()),
            template_ok(template) ==> has_template(final(self).templates(), template.id),
            template_ok(template) && !has_template(old(self).templates(), template.id) ==> final(self).templates()
                == old(self).templates().push(template),
            !(template_ok(template) && !has_template(old(self).templates(), template.id)) ==> final(self).templates()
                == old(self).templates(),
    {
        let ghost id = template.id;
        let r = self.registry.create_if_absent(template);
        proof {
            if template_ok(template) && !has_template(old(self).templates(), template.id) {
                assert(self.registry@[self.registry@.len() - 1].id == id);
            }
        }
        r
    }

    /// Whether posting template `template_id` with `params` would succeed; the error it would
    /// give where not.
    pub fn check_postable(&self, template_id: u128, params: &TxParams) -> (r: Result<(), LedgerError>)
        requires
            self.wf(),
        ensures
            r.is_ok() == postable(self.templates(), template_id, params.accounts@.len() as int, params.amounts@.len() as int),
            !has_template(self.templates(), template_id) ==> r == Err::<(), LedgerError>(LedgerError::TemplateNotFound),
            has_template(self.templates(), template_id) && !postable(
                self.templates(),
                template_id,
                params.accounts@.len() as int,
                params.amounts@.len() as int,
            ) ==> r
                == Err::<(), LedgerError>(LedgerError::MissingParam),
    {
        match self.registry.index_of(template_id) {
            Some(i) => {
                proof {
                    let c = choose|k: int| 0 <= k < self.registry@.len() && (#[trigger] self.registry@[k]).id == template_id;
                    assert(c == i as int);
                }
                if check_covered(&self.registry.templates[i], params) {
                    Ok(())
                } else {
                    Err(LedgerError::MissingParam)
                }
            },
            None => Err(LedgerError::TemplateNotFound),
        }
    }

    /// Posts the registered template `template_id` with `params` as transaction `id`.
    pub fn post_transaction(&mut self, id: LedgerTransactionId, template_id: u128, params: &TxParams) -> (r: Result<
        (),
        LedgerError,
    >)
        requires
            old(self).wf(),
        ensures
            final(self).wf(),
            final(self).templates() == old(self).templates(),
            !has_template(old(self).templates(), template_id) ==> r == Err::<(), LedgerError>(
                LedgerError::TemplateNotFound,
            ),
            has_template(old(self).templates(), template_id) ==> ({
                let t = template_for(old(self).templates(), template_id);
                &&& !covered(t, *params) ==> r == Err::<(), LedgerError>(LedgerError::MissingParam)
                &&& covered(t, *params) ==> r == Ok::<(), LedgerError>(())
                &&& r.is_ok() ==> final(self).transactions().len() == old(self).transactions().len() + 1
                    && final(self).transactions().drop_last() == old(self).transactions() && ({
                    let tx = final(self).transactions().last();
                    &&& tx.id == id
                    &&& tx.template_id == template_id
                    &&& tx.entries@ == posted_entries(t, *params)
                    &&& tx.journal_id == params.journal_id
                    &&& tx.correlation_id == params.correlation_id
                    &&& tx.external_id == params.external_id
                    &&& tx.metadata == params.meta
            &&& tx.metadata == params.meta
                    &&& tx.effective == params.effective
                })
            }),
            r.is_err() ==> final(self).transactions() == old(self).transactions(),
    {
        let i = match self.registry.index_of(template_id) {
            Some(i) => i,
            None => return Err(LedgerError::TemplateNotFound),
        };
        let ghost reg = self.registry@;
        proof {
            let c = choose|k: int| 0 <= k < reg.len() && (#[trigger] reg[k]).id == template_id;
            assert(c == i as int);
            assert(template_ok(reg[i as int]));
            lemma_paired_template_balances(reg[i as int], *params);
        }
        let tx = match post(&self.registry.templates[i], params, id) {
            Ok(tx) => tx,
            Err(e) => return Err(e),
        };
        self.transactions.push(tx);
        proof {
            assert(self.transactions@.drop_last() =~= old(self).transactions@);
        }
        Ok(())
    }
}

} // verus!
