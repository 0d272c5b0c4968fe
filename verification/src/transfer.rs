//! The transfer-reconciliation engine: recognizes the SPL token transfers
//! among a transaction's inner instructions and reconstructs one swap's
//! economic terms from them and from the token-balance snapshots.

use vstd::prelude::*;
use vstd::bytes::{spec_u64_from_le_bytes, u64_from_le_bytes};
use vstd::slice::slice_subrange;

use crate::constants::{
    native_mint, spec_native_mint, spec_token_2022_program, spec_token_program, spec_unknown_mint,
    token_2022_program, token_program, unknown_mint,
};
use crate::types::{Swap, SwapPlatform, SwapV};

verus! {

/// One compiled instruction: a program reference, account references and raw
/// parameter bytes.  Account references index the transaction's resolved
/// account address list.
#[derive(Clone, Debug)]
pub struct CompiledIx {
    pub program_id_index: u8,
    pub accounts: Vec<u8>,
    pub data: Vec<u8>,
}

/// Mathematical value of a `CompiledIx`.
#[verifier::ext_equal]
pub struct CompiledIxV {
    pub program_id_index: u8,
    pub accounts: Seq<u8>,
    pub data: Seq<u8>,
}

impl View for CompiledIx {
    type V = CompiledIxV;

    open spec fn view(&self) -> CompiledIxV {
        CompiledIxV {
            program_id_index: self.program_id_index,
            accounts: self.accounts@,
            data: self.data@,
        }
    }
}

/// The inner instructions issued by one top-level instruction's execution.
#[derive(Clone, Debug)]
pub struct InnerIxGroup {
    pub instructions: Vec<CompiledIx>,
}

impl View for InnerIxGroup {
    type V = Seq<CompiledIxV>;

    open spec fn view(&self) -> Seq<CompiledIxV> {
        Seq::new(self.instructions@.len(), |i: int| self.instructions@[i]@)
    }
}

/// One token-balance snapshot entry: which resolved account it concerns, the
/// token's mint, the balance as a decimal string of raw units, and the
/// token's decimal exponent.
#[derive(Clone, Debug)]
pub struct TokenBalance {
    pub account_index: u8,
    pub mint: String,
    pub amount: String,
    pub decimals: u8,
}

/// Mathematical value of a `TokenBalance`.
#[verifier::ext_equal]
pub struct TokenBalanceV {
    pub account_index: u8,
    pub mint: Seq<char>,
    pub amount: Seq<char>,
    pub decimals: u8,
}

impl View for TokenBalance {
    type V = TokenBalanceV;

    open spec fn view(&self) -> TokenBalanceV {
        TokenBalanceV {
            account_index: self.account_index,
            mint: self.mint@,
            amount: self.amount@,
            decimals: self.decimals,
        }
    }
}

/// One resolved transfer leg: raw amount and the accounts it moved between.
#[derive(Clone, Debug)]
pub struct TransferInfo {
    pub amount: u64,
    pub authority: String,
    pub destination: String,
    pub source: String,
}

/// Mathematical value of a `TransferInfo`.
#[verifier::ext_equal]
pub struct TransferInfoV {
    pub amount: u64,
    pub authority: Seq<char>,
    pub destination: Seq<char>,
    pub source: Seq<char>,
}

impl View for TransferInfo {
    type V = TransferInfoV;

    open spec fn view(&self) -> TransferInfoV {
        TransferInfoV {
            amount: self.amount,
            authority: self.authority@,
            destination: self.destination@,
            source: self.source@,
        }
    }
}

/// A transfer leg together with the mint and decimals resolved for it.
#[derive(Clone, Debug)]
pub struct TransferData {
    pub info: TransferInfo,
    pub mint: String,
    pub decimals: u8,
}

/// Mathematical value of a `TransferData`.
#[verifier::ext_equal]
pub struct TransferDataV {
    pub info: TransferInfoV,
    pub mint: Seq<char>,
    pub decimals: u8,
}

impl View for TransferData {
    type V = TransferDataV;

    open spec fn view(&self) -> TransferDataV {
        TransferDataV { info: self.info@, mint: self.mint@, decimals: self.decimals }
    }
}

/// Mint and balance snapshot for one account: what a transfer leg's mint and
/// decimals are recovered from.
#[derive(Clone, Debug)]
pub struct TokenInfo {
    pub mint: String,
    pub amount: String,
    pub decimals: u8,
}

/// Mathematical value of a `TokenInfo`.
#[verifier::ext_equal]
pub struct TokenInfoV {
    pub mint: Seq<char>,
    pub amount: Seq<char>,
    pub decimals: u8,
}

impl View for TokenInfo {
    type V = TokenInfoV;

    open spec fn view(&self) -> TokenInfoV {
        TokenInfoV { mint: self.mint@, amount: self.amount@, decimals: self.decimals }
    }
}

/// Why reconciliation of a swap instruction failed.
#[derive(Clone, Copy, Debug, PartialEq, Eq, Structural)]
pub enum ReconcileError {
    /// A required transaction field (balance snapshot or inner-instruction
    /// list) was absent.
    MissingMetadata,
    /// No inner instruction qualified as a token transfer at all.
    NoTransfersFound,
    /// Transfers were found, but none paid out of the designated input
    /// token account.
    PayTransferNotFound,
    /// Transfers were found, but none delivered into the designated output
    /// token account.
    ReceiveTransferNotFound,
    /// A balance entry selected for a reserve did not parse as an unsigned
    /// 64-bit decimal number.
    MalformedData,
    /// The two selected legs resolved to one and the same mint; a valid
    /// swap exchanges two different tokens, so no event is owed.
    IndistinctMints,
}

/// The address views of a list of rendered addresses.
pub open spec fn spec_addresses(v: Seq<String>) -> Seq<Seq<char>> {
    Seq::new(v.len(), |i: int| v[i]@)
}

/// The views of a list of token-balance entries.
pub open spec fn spec_balances(v: Seq<TokenBalance>) -> Seq<TokenBalanceV> {
    Seq::new(v.len(), |i: int| v[i]@)
}

/// The views of a list of inner-instruction groups.
pub open spec fn spec_groups(v: Seq<InnerIxGroup>) -> Seq<Seq<CompiledIxV>> {
    Seq::new(v.len(), |i: int| v[i]@)
}

// ---------------------------------------------------------------------------
// Decimal-string parsing
// ---------------------------------------------------------------------------

/// Whether `c` is a decimal digit.
pub open spec fn spec_is_digit(c: char) -> bool {
    '0' <= c && c <= '9'
}

/// Whether every character of `s` is a decimal digit.
pub open spec fn spec_all_digits(s: Seq<char>) -> bool {
    forall|i: int| 0 <= i < s.len() ==> spec_is_digit(#[trigger] s[i])
}

/// The numeric value of a digit string, most significant digit first.
pub open spec fn spec_dec_value(s: Seq<char>) -> nat
    decreases s.len(),
{
    if s.len() == 0 {
        0
    } else {
        (spec_dec_value(s.drop_last()) * 10 + (s.last() as int - '0' as int)) as nat
    }
}

/// The digit portion of a decimal string: everything after an optional
/// leading plus sign.
pub open spec fn spec_dec_digits(s: Seq<char>) -> Seq<char> {
    if s.len() > 0 && s[0] == '+' {
        s.drop_first()
    } else {
        s
    }
}

/// What parsing a decimal string as a `u64` yields: defined exactly when,
/// after an optional leading plus sign, the string is nonempty, all digits,
/// and its value fits.
pub open spec fn spec_parse_u64(s: Seq<char>) -> Option<u64> {
    let digits = spec_dec_digits(s);
    if digits.len() > 0 && spec_all_digits(digits) && spec_dec_value(digits) <= u64::MAX {
        Some(spec_dec_value(digits) as u64)
    } else {
        None
    }
}

/// Extending a digit string multiplies its value by ten and adds a digit,
/// so the value never decreases as the string grows.
proof fn lemma_dec_value_grows(s: Seq<char>, i: int, j: int)
    requires
        0 <= i <= j <= s.len(),
        spec_all_digits(s.take(j)),
    ensures
        spec_dec_value(s.take(i)) <= spec_dec_value(s.take(j)),
    decreases j - i,
{
    if i < j {
        assert(spec_all_digits(s.take(j - 1))) by {
            assert(forall|k: int|
                0 <= k < j - 1 ==> s.take(j - 1)[k] == #[trigger] s.take(j)[k]);
        }
        lemma_dec_value_grows(s, i, j - 1);
        assert(s.take(j).drop_last() =~= s.take(j - 1));
        let d = s.take(j).last() as int - '0' as int;
        assert(spec_is_digit(s.take(j)[j - 1]));
        assert(0 <= d <= 9);
        assert(spec_dec_value(s.take(j)) == spec_dec_value(s.take(j - 1)) * 10 + d);
        assert(spec_dec_value(s.take(j - 1)) * 10 >= spec_dec_value(s.take(j - 1)));
    }
}

/// If the value of some prefix of a digit string already exceeds
/// `u64::MAX`, the whole string's value does where all its characters are
/// digits.
proof fn lemma_prefix_overflow(digits: Seq<char>, i: int)
    requires
        0 <= i <= digits.len(),
        spec_dec_value(digits.take(i)) > u64::MAX,
    ensures
        spec_all_digits(digits) ==> spec_dec_value(digits) > u64::MAX,
{
    if spec_all_digits(digits) {
        assert(spec_all_digits(digits.take(digits.len() as int))) by {
            assert(digits.take(digits.len() as int) =~= digits);
        }
        lemma_dec_value_grows(digits, i, digits.len() as int);
        assert(digits.take(digits.len() as int) =~= digits);
    }
}

/// Parses a decimal string of raw token units as a `u64`, an optional
/// leading plus sign allowed.  Yields `None` on an empty string, a
/// non-digit character, or a value over `u64::MAX`.
#[verifier::loop_isolation(false)]
pub fn parse_u64(s: &str) -> (r: Option<u64>)
    ensures
        r == spec_parse_u64(s@),
{
    let n: usize = s.unicode_len();
    if n == 0 {
        return None;
    }
    let start: usize = if s.get_char(0) == '+' {
        1
    } else {
        0
    };
    let ghost digits = spec_dec_digits(s@);
    proof {
        assert(digits.len() == n - start);
        assert(forall|j: int| 0 <= j < digits.len() ==> digits[j] == s@[j + start]);
    }
    if start == n {
        // A sign with no digits after it.
        return None;
    }
    let mut acc: u64 = 0;
    let mut i: usize = start;
    while i < n
        invariant
            start <= i <= n,
            spec_all_digits(digits.take(i - start)),
            acc == spec_dec_value(digits.take(i - start)),
        decreases n - i,
    {
        let c = s.get_char(i);
        proof {
            assert(digits[i - start] == s@[i as int]);
        }
        if !(c >= '0' && c <= '9') {
            assert(!spec_is_digit(digits[i - start]));
            return None;
        }
        let d: u64 = (c as u32 as u64) - 48;
        assert(d == c as nat - '0' as nat);
        match acc.checked_mul(10) {
            None => {
                proof {
                    assert(digits.take(i - start + 1).drop_last() =~= digits.take(i - start));
                    assert(spec_dec_value(digits.take(i - start + 1)) == acc * 10 + d);
                    lemma_prefix_overflow(digits, i - start + 1);
                }
                return None;
            },
            Some(acc10) => {
                match acc10.checked_add(d) {
                    None => {
                        proof {
                            assert(digits.take(i - start + 1).drop_last() =~= digits.take(
                                i - start,
                            ));
                            assert(spec_dec_value(digits.take(i - start + 1)) == acc10 + d);
                            lemma_prefix_overflow(digits, i - start + 1);
                        }
                        return None;
                    },
                    Some(next) => {
                        proof {
                            assert(digits.take(i - start + 1).drop_last() =~= digits.take(
                                i - start,
                            ));
                            assert(spec_dec_value(digits.take(i - start + 1)) == acc * 10 + d);
                        }
                        acc = next;
                        i = i + 1;
                    },
                }
            },
        }
    }
    proof {
        assert(digits.take(n - start) =~= digits);
    }
    Some(acc)
}

// ---------------------------------------------------------------------------
// Recognizing transfer instructions
// ---------------------------------------------------------------------------

/// The instruction discriminator of a plain SPL transfer.
pub open spec fn spec_transfer_tag() -> u8 {
    3
}

/// The instruction discriminator of a checked SPL transfer.
pub open spec fn spec_transfer_checked_tag() -> u8 {
    12
}

/// Whether an inner instruction qualifies as a plain SPL transfer: addressed
/// to the classic token program, at least three account references, at least
/// nine data bytes, the transfer discriminator, and every referenced account
/// index in range.
pub open spec fn spec_is_transfer(ix: CompiledIxV, accounts: Seq<Seq<char>>) -> bool {
    &&& (ix.program_id_index as int) < accounts.len()
    &&& accounts[ix.program_id_index as int] == spec_token_program()
    &&& ix.accounts.len() >= 3
    &&& ix.data.len() >= 9
    &&& ix.data[0] == spec_transfer_tag()
    &&& (forall|i: int| 0 <= i < 3 ==> (#[trigger] ix.accounts[i]) < accounts.len())
}

/// Whether an inner instruction qualifies as a checked SPL transfer:
/// addressed to the classic or extended token program, at least four account
/// references, at least nine data bytes, the checked-transfer discriminator,
/// and every referenced account index in range.
pub open spec fn spec_is_transfer_check(ix: CompiledIxV, accounts: Seq<Seq<char>>) -> bool {
    &&& (ix.program_id_index as int) < accounts.len()
    &&& (accounts[ix.program_id_index as int] == spec_token_program() || accounts[
        ix.program_id_index as int
    ] == spec_token_2022_program())
    &&& ix.accounts.len() >= 4
    &&& ix.data.len() >= 9
    &&& ix.data[0] == spec_transfer_checked_tag()
    &&& (forall|i: int| 0 <= i < 4 ==> (#[trigger] ix.accounts[i]) < accounts.len())
}

/// Decides whether an inner instruction is a plain SPL transfer.
pub fn is_transfer_instruction(instruction: &CompiledIx, accounts: &Vec<String>) -> (r: bool)
    ensures
        r == spec_is_transfer(instruction@, spec_addresses(accounts@)),
{
    let pidx = instruction.program_id_index as usize;
    if pidx >= accounts.len() {
        return false;
    }
    if !(accounts[pidx] == token_program()) {
        return false;
    }
    if instruction.accounts.len() < 3 || instruction.data.len() < 9 {
        return false;
    }
    if instruction.data[0] != 3 {
        return false;
    }
    let mut i: usize = 0;
    while i < 3
        invariant
            0 <= i <= 3,
            instruction.accounts.len() >= 3,
            accounts@.len() <= usize::MAX,
            forall|j: int| 0 <= j < i ==> (#[trigger] instruction.accounts@[j]) < accounts@.len(),
        decreases 3 - i,
    {
        if instruction.accounts[i] as usize >= accounts.len() {
            return false;
        }
        i = i + 1;
    }
    true
}

/// Decides whether an inner instruction is a checked SPL transfer.
pub fn is_transfer_check_instruction(instruction: &CompiledIx, accounts: &Vec<String>) -> (r:
    bool)
    ensures
        r == spec_is_transfer_check(instruction@, spec_addresses(accounts@)),
{
    let pidx = instruction.program_id_index as usize;
    if pidx >= accounts.len() {
        return false;
    }
    if !(accounts[pidx] == token_program()) && !(accounts[pidx] == token_2022_program()) {
        return false;
    }
    if instruction.accounts.len() < 4 || instruction.data.len() < 9 {
        return false;
    }
    if instruction.data[0] != 12 {
        return false;
    }
    let mut i: usize = 0;
    while i < 4
        invariant
            0 <= i <= 4,
            instruction.accounts.len() >= 4,
            accounts@.len() <= usize::MAX,
            forall|j: int| 0 <= j < i ==> (#[trigger] instruction.accounts@[j]) < accounts@.len(),
        decreases 4 - i,
    {
        if instruction.accounts[i] as usize >= accounts.len() {
            return false;
        }
        i = i + 1;
    }
    true
}

// ---------------------------------------------------------------------------
// The mint/decimals lookup keyed by account address
// ---------------------------------------------------------------------------

/// The map denoted by an association list in which later entries overwrite
/// earlier ones for the same key.
pub open spec fn spec_entries_map(es: Seq<(String, TokenInfo)>) -> Map<Seq<char>, TokenInfoV>
    decreases es.len(),
{
    if es.len() == 0 {
        Map::empty()
    } else {
        spec_entries_map(es.drop_last()).insert(es.last().0@, es.last().1@)
    }
}

/// A key that occurs in no entry is not in the denoted map.
proof fn lemma_entries_map_absent(es: Seq<(String, TokenInfo)>, k: Seq<char>)
    requires
        forall|j: int| 0 <= j < es.len() ==> (#[trigger] es[j].0)@ != k,
    ensures
        !spec_entries_map(es).contains_key(k),
    decreases es.len(),
{
    if es.len() > 0 {
        assert(forall|j: int|
            0 <= j < es.drop_last().len() ==> (#[trigger] es.drop_last()[j].0)@ != k);
        lemma_entries_map_absent(es.drop_last(), k);
    }
}

/// The denoted map resolves a key to the value of the last entry holding it.
proof fn lemma_entries_map_found(es: Seq<(String, TokenInfo)>, k: Seq<char>, j: int)
    requires
        0 <= j < es.len(),
        es[j].0@ == k,
        forall|l: int| j < l < es.len() ==> (#[trigger] es[l].0)@ != k,
    ensures
        spec_entries_map(es).contains_key(k),
        spec_entries_map(es)[k] == es[j].1@,
    decreases es.len(),
{
    if j == es.len() - 1 {
    } else {
        assert(es.drop_last()[j] == es[j]);
        assert(forall|l: int|
            j < l < es.drop_last().len() ==> (#[trigger] es.drop_last()[l].0)@ != k);
        lemma_entries_map_found(es.drop_last(), k, j);
        assert(es.last().0@ != k);
    }
}

/// A lookup from account address to the mint and balance snapshot recorded
/// for it.  Later insertions overwrite earlier ones.
pub struct TokenInfoMap {
    entries: Vec<(String, TokenInfo)>,
}

impl View for TokenInfoMap {
    type V = Map<Seq<char>, TokenInfoV>;

    closed spec fn view(&self) -> Map<Seq<char>, TokenInfoV> {
        spec_entries_map(self.entries@)
    }
}

impl TokenInfoMap {
    /// An empty lookup.
    pub fn new() -> (r: TokenInfoMap)
        ensures
            r@ == Map::<Seq<char>, TokenInfoV>::empty(),
    {
        TokenInfoMap { entries: Vec::new() }
    }

    /// Records `value` under `key`, overwriting any earlier record.
    pub fn insert(&mut self, key: String, value: TokenInfo)
        ensures
            final(self)@ == old(self)@.insert(key@, value@),
    {
        self.entries.push((key, value));
        proof {
            assert(self.entries@.drop_last() =~= old(self).entries@);
        }
    }

    /// Resolves an account address to its record, if one was inserted.
    pub fn get(&self, key: &String) -> (r: Option<&TokenInfo>)
        ensures
            match r {
                Some(t) => self@.contains_key(key@) && t@ == self@[key@],
                None => !self@.contains_key(key@),
            },
    {
        let n = self.entries.len();
        let mut i: usize = n;
        while i > 0
            invariant
                0 <= i <= n == self.entries@.len(),
                forall|l: int| i <= l < n ==> (#[trigger] self.entries@[l].0)@ != key@,
            decreases i,
        {
            i = i - 1;
            if self.entries[i].0 == *key {
                proof {
                    lemma_entries_map_found(self.entries@, key@, i as int);
                }
                return Some(&self.entries[i].1);
            }
        }
        proof {
            lemma_entries_map_absent(self.entries@, key@);
        }
        None
    }
}

/// What inserting one run of balance entries into the lookup leaves behind:
/// each entry recorded under its resolved account address, in order.
pub open spec fn spec_insert_balances(
    m: Map<Seq<char>, TokenInfoV>,
    bals: Seq<TokenBalanceV>,
    accounts: Seq<Seq<char>>,
) -> Map<Seq<char>, TokenInfoV>
    decreases bals.len(),
{
    if bals.len() == 0 {
        m
    } else {
        spec_insert_balances(
            m.insert(
                accounts[bals[0].account_index as int],
                TokenInfoV { mint: bals[0].mint, amount: bals[0].amount, decimals: bals[0].decimals },
            ),
            bals.drop_first(),
            accounts,
        )
    }
}

/// The mint/decimals lookup built from the two balance snapshots: every
/// post-trade entry inserted first, then every pre-trade entry, later
/// insertions overwriting earlier ones for the same account.
pub open spec fn spec_extract_token_info(
    post: Seq<TokenBalanceV>,
    pre: Seq<TokenBalanceV>,
    accounts: Seq<Seq<char>>,
) -> Map<Seq<char>, TokenInfoV> {
    spec_insert_balances(
        spec_insert_balances(Map::empty(), post, accounts),
        pre,
        accounts,
    )
}

/// Whether every entry of a balance snapshot references an account inside
/// the resolved account list.
pub open spec fn spec_balances_in_range(bals: Seq<TokenBalanceV>, n_accounts: nat) -> bool {
    forall|i: int| 0 <= i < bals.len() ==> (#[trigger] bals[i].account_index as nat) < n_accounts
}

/// Inserts one balance snapshot into the lookup, in order.
fn insert_balances(m: &mut TokenInfoMap, balances: &Vec<TokenBalance>, accounts: &Vec<String>)
    requires
        spec_balances_in_range(spec_balances(balances@), accounts@.len() as nat),
    ensures
        final(m)@ == spec_insert_balances(
            old(m)@,
            spec_balances(balances@),
            spec_addresses(accounts@),
        ),
{
    let ghost bals = spec_balances(balances@);
    let ghost addrs = spec_addresses(accounts@);
    let ghost m0 = m@;
    let n = balances.len();
    proof {
        assert(bals.skip(0) =~= bals);
    }
    let mut i: usize = 0;
    while i < n
        invariant
            0 <= i <= n == balances@.len(),
            bals == spec_balances(balances@),
            addrs == spec_addresses(accounts@),
            accounts@.len() == addrs.len(),
            spec_balances_in_range(bals, addrs.len() as nat),
            spec_insert_balances(m@, bals.skip(i as int), addrs) == spec_insert_balances(
                m0,
                bals,
                addrs,
            ),
        decreases n - i,
    {
        let entry = &balances[i];
        let key = accounts[entry.account_index as usize].clone();
        let value = TokenInfo {
            mint: entry.mint.clone(),
            amount: entry.amount.clone(),
            decimals: entry.decimals,
        };
        proof {
            assert(bals.skip(i as int)[0] == bals[i as int]);
            assert(bals.skip(i as int).drop_first() =~= bals.skip(i + 1));
        }
        m.insert(key, value);
        i = i + 1;
    }
    proof {
        assert(bals.skip(n as int) =~= Seq::<TokenBalanceV>::empty());
    }
}

/// Builds the mint/decimals lookup from the post- and pre-trade balance
/// snapshots: post entries inserted first, then pre entries, so an account
/// appearing in both resolves to its pre-trade record.
pub fn extract_spl_token_info(
    post_token_balances: &Vec<TokenBalance>,
    pre_token_balances: &Vec<TokenBalance>,
    accounts: &Vec<String>,
) -> (r: TokenInfoMap)
    requires
        spec_balances_in_range(spec_balances(post_token_balances@), accounts@.len() as nat),
        spec_balances_in_range(spec_balances(pre_token_balances@), accounts@.len() as nat),
    ensures
        r@ == spec_extract_token_info(
            spec_balances(post_token_balances@),
            spec_balances(pre_token_balances@),
            spec_addresses(accounts@),
        ),
{
    let mut m = TokenInfoMap::new();
    insert_balances(&mut m, post_token_balances, accounts);
    insert_balances(&mut m, pre_token_balances, accounts);
    m
}

// ---------------------------------------------------------------------------
// Resolving one transfer leg
// ---------------------------------------------------------------------------

/// The mint resolved for a transfer's destination account: the lookup's
/// record if one exists, else the native pseudo-mint; an empty mint string
/// is normalized to the sentinel.
pub open spec fn spec_resolved_mint(dest: Seq<char>, m: Map<Seq<char>, TokenInfoV>) -> Seq<char> {
    let mint = if m.contains_key(dest) {
        m[dest].mint
    } else {
        spec_native_mint()
    };
    if mint.len() == 0 {
        spec_unknown_mint()
    } else {
        mint
    }
}

/// The decimal exponent resolved for a transfer's destination account: the
/// lookup's record if one exists, else the native currency's nine.
pub open spec fn spec_resolved_decimals(dest: Seq<char>, m: Map<Seq<char>, TokenInfoV>) -> u8 {
    if m.contains_key(dest) {
        m[dest].decimals
    } else {
        9
    }
}

/// Resolves the mint and decimals recorded for a destination account.
fn resolve_token(dest: &String, tokens_info: &TokenInfoMap) -> (r: (String, u8))
    ensures
        r.0@ == spec_resolved_mint(dest@, tokens_info@),
        r.1 == spec_resolved_decimals(dest@, tokens_info@),
{
    let (mint, decimals) = match tokens_info.get(dest) {
        Some(info) => (info.mint.clone(), info.decimals),
        None => (native_mint(), 9),
    };
    if mint.as_str().is_empty() {
        (unknown_mint(), decimals)
    } else {
        (mint, decimals)
    }
}

/// The transfer leg denoted by a plain transfer instruction: amount from the
/// eight little-endian data bytes after the discriminator; source, destination
/// and authority from its first three account references.
pub open spec fn spec_process_transfer(
    ix: CompiledIxV,
    accounts: Seq<Seq<char>>,
    m: Map<Seq<char>, TokenInfoV>,
) -> TransferDataV {
    let destination = accounts[ix.accounts[1] as int];
    TransferDataV {
        info: TransferInfoV {
            amount: spec_u64_from_le_bytes(ix.data.subrange(1, 9)),
            authority: accounts[ix.accounts[2] as int],
            destination,
            source: accounts[ix.accounts[0] as int],
        },
        mint: spec_resolved_mint(destination, m),
        decimals: spec_resolved_decimals(destination, m),
    }
}

/// The transfer leg denoted by a checked transfer instruction: same amount
/// decoding; source, destination and authority at account references zero,
/// two and three.
pub open spec fn spec_process_transfer_check(
    ix: CompiledIxV,
    accounts: Seq<Seq<char>>,
    m: Map<Seq<char>, TokenInfoV>,
) -> TransferDataV {
    let destination = accounts[ix.accounts[2] as int];
    TransferDataV {
        info: TransferInfoV {
            amount: spec_u64_from_le_bytes(ix.data.subrange(1, 9)),
            authority: accounts[ix.accounts[3] as int],
            destination,
            source: accounts[ix.accounts[0] as int],
        },
        mint: spec_resolved_mint(destination, m),
        decimals: spec_resolved_decimals(destination, m),
    }
}

/// Resolves a plain transfer instruction into one transfer leg.
pub fn process_transfer(
    instruction: &CompiledIx,
    accounts: &Vec<String>,
    tokens_info: &TokenInfoMap,
) -> (r: TransferData)
    requires
        spec_is_transfer(instruction@, spec_addresses(accounts@)),
    ensures
        r@ == spec_process_transfer(instruction@, spec_addresses(accounts@), tokens_info@),
{
    let amount = u64_from_le_bytes(slice_subrange(instruction.data.as_slice(), 1, 9));
    let source = accounts[instruction.accounts[0] as usize].clone();
    let destination = accounts[instruction.accounts[1] as usize].clone();
    let authority = accounts[instruction.accounts[2] as usize].clone();
    let (mint, decimals) = resolve_token(&destination, tokens_info);
    TransferData { info: TransferInfo { amount, authority, destination, source }, mint, decimals }
}

/// Resolves a checked transfer instruction into one transfer leg.
pub fn process_transfer_check(
    instruction: &CompiledIx,
    accounts: &Vec<String>,
    tokens_info: &TokenInfoMap,
) -> (r: TransferData)
    requires
        spec_is_transfer_check(instruction@, spec_addresses(accounts@)),
    ensures
        r@ == spec_process_transfer_check(instruction@, spec_addresses(accounts@), tokens_info@),
{
    let amount = u64_from_le_bytes(slice_subrange(instruction.data.as_slice(), 1, 9));
    let source = accounts[instruction.accounts[0] as usize].clone();
    let destination = accounts[instruction.accounts[2] as usize].clone();
    let authority = accounts[instruction.accounts[3] as usize].clone();
    let (mint, decimals) = resolve_token(&destination, tokens_info);
    TransferData { info: TransferInfo { amount, authority, destination, source }, mint, decimals }
}

// ---------------------------------------------------------------------------
// Reconciling one swap
// ---------------------------------------------------------------------------

/// The views of collected transfer legs.
pub open spec fn spec_transfer_views(v: Seq<TransferData>) -> Seq<TransferDataV> {
    Seq::new(v.len(), |i: int| v[i]@)
}

/// The transfer legs recognized in one inner-instruction group, in order.
pub open spec fn spec_transfers_of_group(
    ixs: Seq<CompiledIxV>,
    accounts: Seq<Seq<char>>,
    m: Map<Seq<char>, TokenInfoV>,
) -> Seq<TransferDataV>
    decreases ixs.len(),
{
    if ixs.len() == 0 {
        Seq::empty()
    } else {
        let init = spec_transfers_of_group(ixs.drop_last(), accounts, m);
        let last = ixs.last();
        if spec_is_transfer(last, accounts) {
            init.push(spec_process_transfer(last, accounts, m))
        } else if spec_is_transfer_check(last, accounts) {
            init.push(spec_process_transfer_check(last, accounts, m))
        } else {
            init
        }
    }
}

/// The transfer legs recognized across all inner-instruction groups, group
/// by group, in order.
pub open spec fn spec_all_transfers(
    groups: Seq<Seq<CompiledIxV>>,
    accounts: Seq<Seq<char>>,
    m: Map<Seq<char>, TokenInfoV>,
) -> Seq<TransferDataV>
    decreases groups.len(),
{
    if groups.len() == 0 {
        Seq::empty()
    } else {
        spec_all_transfers(groups.drop_last(), accounts, m) + spec_transfers_of_group(
            groups.last(),
            accounts,
            m,
        )
    }
}

/// The two legs a scan of the collected transfers selects: the pay leg is
/// the last transfer paying out of the designated input token account; the
/// receive leg is the last transfer that delivers into the designated
/// output token account without paying out of the input one (a transfer
/// matching both counts only as a pay leg).
pub open spec fn spec_select_legs(
    ts: Seq<TransferDataV>,
    input_account: Seq<char>,
    output_account: Seq<char>,
) -> (Option<TransferDataV>, Option<TransferDataV>)
    decreases ts.len(),
{
    if ts.len() == 0 {
        (None, None)
    } else {
        let prev = spec_select_legs(ts.drop_last(), input_account, output_account);
        let t = ts.last();
        if t.info.source == input_account {
            (Some(t), prev.1)
        } else if t.info.destination == output_account {
            (prev.0, Some(t))
        } else {
            prev
        }
    }
}

/// What a scan of the post-trade balance snapshot leaves as the two
/// reserves: the last entry resolving to the pay leg's destination sets the
/// input-side reserve, the last entry resolving to the receive leg's source
/// sets the output-side reserve, both parsed from their decimal-string
/// amounts; a matching entry that does not parse is a failure.  An absent
/// match leaves a reserve at zero.
pub open spec fn spec_scan_reserves(
    post: Seq<TokenBalanceV>,
    accounts: Seq<Seq<char>>,
    pay_destination: Seq<char>,
    receive_source: Seq<char>,
) -> Result<(u64, u64), ReconcileError>
    decreases post.len(),
{
    if post.len() == 0 {
        Ok((0u64, 0u64))
    } else {
        match spec_scan_reserves(post.drop_last(), accounts, pay_destination, receive_source) {
            Err(e) => Err(e),
            Ok((in_reserve, out_reserve)) => {
                let b = post.last();
                let account = accounts[b.account_index as int];
                if account == pay_destination {
                    match spec_parse_u64(b.amount) {
                        None => Err(ReconcileError::MalformedData),
                        Some(v) => Ok((v, out_reserve)),
                    }
                } else if account == receive_source {
                    match spec_parse_u64(b.amount) {
                        None => Err(ReconcileError::MalformedData),
                        Some(v) => Ok((in_reserve, v)),
                    }
                } else {
                    Ok((in_reserve, out_reserve))
                }
            },
        }
    }
}

/// Once a prefix of the balance scan has failed, the whole scan fails the
/// same way.
proof fn lemma_scan_reserves_err(
    post: Seq<TokenBalanceV>,
    accounts: Seq<Seq<char>>,
    pay_destination: Seq<char>,
    receive_source: Seq<char>,
    i: int,
)
    requires
        0 <= i <= post.len(),
        spec_scan_reserves(post.take(i), accounts, pay_destination, receive_source) is Err,
    ensures
        spec_scan_reserves(post, accounts, pay_destination, receive_source) == spec_scan_reserves(
            post.take(i),
            accounts,
            pay_destination,
            receive_source,
        ),
    decreases post.len() - i,
{
    if i < post.len() {
        assert(post.take(i + 1).drop_last() =~= post.take(i));
        lemma_scan_reserves_err(post, accounts, pay_destination, receive_source, i + 1);
    } else {
        assert(post.take(i) =~= post);
    }
}

/// The view of a possibly absent balance snapshot.
pub open spec fn spec_opt_balances(o: Option<Vec<TokenBalance>>) -> Option<Seq<TokenBalanceV>> {
    match o {
        None => None,
        Some(v) => Some(spec_balances(v@)),
    }
}

/// The view of a possibly absent inner-instruction list.
pub open spec fn spec_opt_groups(o: Option<Vec<InnerIxGroup>>) -> Option<Seq<Seq<CompiledIxV>>> {
    match o {
        None => None,
        Some(v) => Some(spec_groups(v@)),
    }
}

/// The view of a reconciliation result.
pub open spec fn spec_swap_result(r: Result<Swap, ReconcileError>) -> Result<
    SwapV,
    ReconcileError,
> {
    match r {
        Ok(s) => Ok(s@),
        Err(e) => Err(e),
    }
}

/// What reconciling one swap instruction yields, from the resolved account
/// list, the balance snapshots, the inner instructions, and the designated
/// input and output token accounts.
pub open spec fn spec_reconcile_swap(
    accounts: Seq<Seq<char>>,
    pre: Option<Seq<TokenBalanceV>>,
    post: Option<Seq<TokenBalanceV>>,
    inner: Option<Seq<Seq<CompiledIxV>>>,
    input_account: Seq<char>,
    output_account: Seq<char>,
    platform: SwapPlatform,
) -> Result<SwapV, ReconcileError> {
    if post is None || pre is None || inner is None {
        Err(ReconcileError::MissingMetadata)
    } else {
        let m = spec_extract_token_info(post.unwrap(), pre.unwrap(), accounts);
        let ts = spec_all_transfers(inner.unwrap(), accounts, m);
        if ts.len() == 0 {
            Err(ReconcileError::NoTransfersFound)
        } else {
            let legs = spec_select_legs(ts, input_account, output_account);
            if legs.0 is None {
                Err(ReconcileError::PayTransferNotFound)
            } else if legs.1 is None {
                Err(ReconcileError::ReceiveTransferNotFound)
            } else if legs.0.unwrap().mint == legs.1.unwrap().mint {
                Err(ReconcileError::IndistinctMints)
            } else {
                let pay = legs.0.unwrap();
                let receive = legs.1.unwrap();
                match spec_scan_reserves(
                    post.unwrap(),
                    accounts,
                    pay.info.destination,
                    receive.info.source,
                ) {
                    Err(e) => Err(e),
                    Ok((in_reserve, out_reserve)) => Ok(
                        SwapV {
                            token_in_amount: pay.info.amount,
                            token_in_decimals: pay.decimals,
                            token_in_mint: pay.mint,
                            token_out_amount: receive.info.amount,
                            token_out_decimals: receive.decimals,
                            token_out_mint: receive.mint,
                            platform,
                            token_in_reserve: in_reserve,
                            token_out_reserve: out_reserve,
                        },
                    ),
                }
            }
        }
    }
}

/// Collects the transfer legs recognized among the inner instructions.
fn collect_transfers(
    inner_instructions: &Vec<InnerIxGroup>,
    accounts: &Vec<String>,
    tokens_info: &TokenInfoMap,
) -> (r: Vec<TransferData>)
    ensures
        spec_transfer_views(r@) == spec_all_transfers(
            spec_groups(inner_instructions@),
            spec_addresses(accounts@),
            tokens_info@,
        ),
{
    let ghost groups = spec_groups(inner_instructions@);
    let ghost addrs = spec_addresses(accounts@);
    let mut transfer_data: Vec<TransferData> = Vec::new();
    let n_groups = inner_instructions.len();
    let mut g: usize = 0;
    while g < n_groups
        invariant
            0 <= g <= n_groups == inner_instructions@.len(),
            groups == spec_groups(inner_instructions@),
            addrs == spec_addresses(accounts@),
            spec_transfer_views(transfer_data@) == spec_all_transfers(
                groups.take(g as int),
                addrs,
                tokens_info@,
            ),
        decreases n_groups - g,
    {
        let group = &inner_instructions[g];
        let ghost ixs = group@;
        let n_ixs = group.instructions.len();
        let mut k: usize = 0;
        proof {
            assert(ixs.take(0) =~= Seq::<CompiledIxV>::empty());
            assert(spec_transfer_views(transfer_data@) =~= spec_all_transfers(
                groups.take(g as int),
                addrs,
                tokens_info@,
            ) + spec_transfers_of_group(ixs.take(0), addrs, tokens_info@));
        }
        while k < n_ixs
            invariant
                0 <= k <= n_ixs == group.instructions@.len(),
                ixs == group@,
                addrs == spec_addresses(accounts@),
                spec_transfer_views(transfer_data@) == spec_all_transfers(
                    groups.take(g as int),
                    addrs,
                    tokens_info@,
                ) + spec_transfers_of_group(ixs.take(k as int), addrs, tokens_info@),
            decreases n_ixs - k,
        {
            let ix = &group.instructions[k];
            proof {
                assert(ixs.take(k + 1).drop_last() =~= ixs.take(k as int));
                assert(ixs.take(k + 1).last() == ix@);
            }
            let ghost views_before = spec_transfer_views(transfer_data@);
            if is_transfer_instruction(ix, accounts) {
                let t = process_transfer(ix, accounts, tokens_info);
                transfer_data.push(t);
                proof {
                    assert(spec_transfer_views(transfer_data@) =~= views_before.push(t@));
                }
            } else if is_transfer_check_instruction(ix, accounts) {
                let t = process_transfer_check(ix, accounts, tokens_info);
                transfer_data.push(t);
                proof {
                    assert(spec_transfer_views(transfer_data@) =~= views_before.push(t@));
                }
            }
            proof {
                assert(spec_transfer_views(transfer_data@) =~= spec_all_transfers(
                    groups.take(g as int),
                    addrs,
                    tokens_info@,
                ) + spec_transfers_of_group(ixs.take(k + 1), addrs, tokens_info@));
            }
            k = k + 1;
        }
        proof {
            assert(ixs.take(n_ixs as int) =~= ixs);
            assert(groups.take(g + 1).drop_last() =~= groups.take(g as int));
            assert(groups.take(g + 1).last() == ixs);
            assert(spec_transfer_views(transfer_data@) == spec_all_transfers(
                groups.take(g + 1),
                addrs,
                tokens_info@,
            ));
        }
        g = g + 1;
    }
    proof {
        assert(groups.take(n_groups as int) =~= groups);
    }
    transfer_data
}

/// Reconstructs the two token legs of one swap and the post-trade pool
/// reserves, from the transaction's resolved account list, its balance
/// snapshots, its inner instructions, and the swap instruction's designated
/// input and output token accounts.
#[verifier::loop_isolation(false)]
pub fn reconcile_swap(
    accounts: &Vec<String>,
    pre_token_balances: &Option<Vec<TokenBalance>>,
    post_token_balances: &Option<Vec<TokenBalance>>,
    inner_instructions: &Option<Vec<InnerIxGroup>>,
    input_token_account: &String,
    output_token_account: &String,
    platform: SwapPlatform,
) -> (r: Result<Swap, ReconcileError>)
    requires
        pre_token_balances matches Some(pre) ==> spec_balances_in_range(
            spec_balances(pre@),
            accounts@.len() as nat,
        ),
        post_token_balances matches Some(post) ==> spec_balances_in_range(
            spec_balances(post@),
            accounts@.len() as nat,
        ),
    ensures
        spec_swap_result(r) == spec_reconcile_swap(
            spec_addresses(accounts@),
            spec_opt_balances(*pre_token_balances),
            spec_opt_balances(*post_token_balances),
            spec_opt_groups(*inner_instructions),
            input_token_account@,
            output_token_account@,
            platform,
        ),
        r matches Ok(swap) ==> swap@.token_in_mint != swap@.token_out_mint,
{
    let post = match post_token_balances {
        Some(post) => post,
        None => {
            return Err(ReconcileError::MissingMetadata);
        },
    };
    let pre = match pre_token_balances {
        Some(pre) => pre,
        None => {
            return Err(ReconcileError::MissingMetadata);
        },
    };
    let inner = match inner_instructions {
        Some(inner) => inner,
        None => {
            return Err(ReconcileError::MissingMetadata);
        },
    };
    let ghost addrs = spec_addresses(accounts@);
    let tokens_info = extract_spl_token_info(post, pre, accounts);
    let transfer_data = collect_transfers(inner, accounts, &tokens_info);
    let ghost ts = spec_transfer_views(transfer_data@);
    if transfer_data.len() == 0 {
        return Err(ReconcileError::NoTransfersFound);
    }
    // Select the pay and receive legs.
    let n_transfers = transfer_data.len();
    let mut pay_idx: Option<usize> = None;
    let mut receive_idx: Option<usize> = None;
    let mut i: usize = 0;
    proof {
        assert(ts.take(0) =~= Seq::<TransferDataV>::empty());
    }
    while i < n_transfers
        invariant
            0 <= i <= n_transfers == transfer_data@.len(),
            ts == spec_transfer_views(transfer_data@),
            match pay_idx {
                None => spec_select_legs(
                    ts.take(i as int),
                    input_token_account@,
                    output_token_account@,
                ).0 is None,
                Some(j) => j < i && spec_select_legs(
                    ts.take(i as int),
                    input_token_account@,
                    output_token_account@,
                ).0 == Some(ts[j as int]),
            },
            match receive_idx {
                None => spec_select_legs(
                    ts.take(i as int),
                    input_token_account@,
                    output_token_account@,
                ).1 is None,
                Some(j) => j < i && spec_select_legs(
                    ts.take(i as int),
                    input_token_account@,
                    output_token_account@,
                ).1 == Some(ts[j as int]),
            },
        decreases n_transfers - i,
    {
        let t = &transfer_data[i];
        proof {
            assert(ts.take(i + 1).drop_last() =~= ts.take(i as int));
            assert(ts.take(i + 1).last() == t@);
        }
        if t.info.source == *input_token_account {
            pay_idx = Some(i);
        } else if t.info.destination == *output_token_account {
            receive_idx = Some(i);
        }
        i = i + 1;
    }
    proof {
        assert(ts.take(n_transfers as int) =~= ts);
    }
    let pay = match pay_idx {
        Some(j) => &transfer_data[j],
        None => {
            return Err(ReconcileError::PayTransferNotFound);
        },
    };
    let receive = match receive_idx {
        Some(j) => &transfer_data[j],
        None => {
            return Err(ReconcileError::ReceiveTransferNotFound);
        },
    };
    // A valid swap exchanges two different tokens: legs resolving to one
    // mint reconcile to no swap.
    if pay.mint == receive.mint {
        return Err(ReconcileError::IndistinctMints);
    }
    // Compute the post-trade reserves.
    let ghost post_v = spec_balances(post@);
    let mut token_in_reserve: u64 = 0;
    let mut token_out_reserve: u64 = 0;
    let n_post = post.len();
    let mut b: usize = 0;
    proof {
        assert(post_v.take(0) =~= Seq::<TokenBalanceV>::empty());
    }
    while b < n_post
        invariant
            0 <= b <= n_post == post@.len(),
            post_v == spec_balances(post@),
            addrs == spec_addresses(accounts@),
            spec_balances_in_range(post_v, addrs.len() as nat),
            accounts@.len() == addrs.len(),
            spec_scan_reserves(post_v.take(b as int), addrs, pay@.info.destination, receive@.info.source)
                == Ok::<(u64, u64), ReconcileError>((token_in_reserve, token_out_reserve)),
        decreases n_post - b,
    {
        let entry = &post[b];
        proof {
            assert(post_v[b as int] == post@[b as int]@);
            assert((post_v[b as int].account_index as nat) < addrs.len());
        }
        let account = &accounts[entry.account_index as usize];
        proof {
            assert(post_v.take(b + 1).drop_last() =~= post_v.take(b as int));
            assert(post_v.take(b + 1).last() == entry@);
            assert(account@ == addrs[entry@.account_index as int]);
        }
        if *account == pay.info.destination {
            match parse_u64(entry.amount.as_str()) {
                Some(v) => {
                    token_in_reserve = v;
                },
                None => {
                    proof {
                        assert(spec_scan_reserves(
                            post_v.take(b + 1),
                            addrs,
                            pay@.info.destination,
                            receive@.info.source,
                        ) == Err::<(u64, u64), ReconcileError>(ReconcileError::MalformedData));
                        lemma_scan_reserves_err(
                            post_v,
                            addrs,
                            pay@.info.destination,
                            receive@.info.source,
                            b + 1,
                        );
                    }
                    return Err(ReconcileError::MalformedData);
                },
            }
        } else if *account == receive.info.source {
            match parse_u64(entry.amount.as_str()) {
                Some(v) => {
                    token_out_reserve = v;
                },
                None => {
                    proof {
                        assert(spec_scan_reserves(
                            post_v.take(b + 1),
                            addrs,
                            pay@.info.destination,
                            receive@.info.source,
                        ) == Err::<(u64, u64), ReconcileError>(ReconcileError::MalformedData));
                        lemma_scan_reserves_err(
                            post_v,
                            addrs,
                            pay@.info.destination,
                            receive@.info.source,
                            b + 1,
                        );
                    }
                    return Err(ReconcileError::MalformedData);
                },
            }
        }
        b = b + 1;
    }
    proof {
        assert(post_v.take(n_post as int) =~= post_v);
    }
    Ok(
        Swap {
            token_in_amount: pay.info.amount,
            token_in_decimals: pay.decimals,
            token_in_mint: pay.mint.clone(),
            token_out_amount: receive.info.amount,
            token_out_decimals: receive.decimals,
            token_out_mint: receive.mint.clone(),
            platform,
            token_in_reserve,
            token_out_reserve,
        },
    )
}

/// Every reconciled swap exchanges two different tokens: the input mint is
/// the pay leg's, the output mint the receive leg's, and legs that resolve
/// to one and the same mint reconcile to an error instead of a swap.
pub proof fn lemma_reconcile_swap_mints_distinct(
    accounts: Seq<Seq<char>>,
    pre: Option<Seq<TokenBalanceV>>,
    post: Option<Seq<TokenBalanceV>>,
    inner: Option<Seq<Seq<CompiledIxV>>>,
    input_account: Seq<char>,
    output_account: Seq<char>,
    platform: SwapPlatform,
)
    ensures
        spec_reconcile_swap(accounts, pre, post, inner, input_account, output_account, platform)
            matches Ok(swap) ==> swap.token_in_mint != swap.token_out_mint,
{
}

/// Reconciliation is a pure function of its inputs: two runs over the same
/// account list, balance snapshots, inner instructions and designated
/// accounts yield the same result.
pub proof fn lemma_reconcile_deterministic(
    r1: Result<Swap, ReconcileError>,
    r2: Result<Swap, ReconcileError>,
    accounts: Seq<Seq<char>>,
    pre: Option<Seq<TokenBalanceV>>,
    post: Option<Seq<TokenBalanceV>>,
    inner: Option<Seq<Seq<CompiledIxV>>>,
    input_account: Seq<char>,
    output_account: Seq<char>,
    platform: SwapPlatform,
)
    requires
        spec_swap_result(r1) == spec_reconcile_swap(
            accounts,
            pre,
            post,
            inner,
            input_account,
            output_account,
            platform,
        ),
        spec_swap_result(r2) == spec_reconcile_swap(
            accounts,
            pre,
            post,
            inner,
            input_account,
            output_account,
            platform,
        ),
    ensures
        spec_swap_result(r1) == spec_swap_result(r2),
{
}

} // verus!
